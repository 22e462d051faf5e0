use percpu::align_up_64;
use percpu::area_stride;
use percpu::percpu_area_num;
use percpu::percpu_area_size;
use percpu::percpu_link_start;
use percpu::percpu_section_size;
use percpu::template_addr;
use percpu::Layout;
use percpu::LinkSymbols;
use percpu::Mode;

fn symbols() -> LinkSymbols {
    LinkSymbols { load_start: 0x1000, load_end: 0x1000 + 100, area_start: 0x20_0000, area_end: 0x20_0000 + 1024 }
}

#[test]
fn align_up_64_rounds_to_the_next_multiple() {
    assert_eq!(align_up_64(0), 0);
    assert_eq!(align_up_64(1), 64);
    assert_eq!(align_up_64(63), 64);
    assert_eq!(align_up_64(64), 64);
    assert_eq!(align_up_64(65), 128);
    assert_eq!(align_up_64(100), 128);
    assert_eq!(align_up_64(usize::MAX - 63), usize::MAX - 63);
}

#[test]
fn section_size_is_the_distance_of_the_markers() {
    let s = symbols();
    assert_eq!(percpu_section_size(&s), 100);
    assert_eq!(percpu_area_size(&s), 100);
    assert_eq!(percpu_link_start(&s), 0x1000);
}

#[test]
fn area_num_divides_the_reserved_region_by_the_aligned_size() {
    let s = symbols();
    assert_eq!(percpu_area_num(&s), 1024 / 128);
    let small = LinkSymbols { area_end: 0x20_0000 + 127, ..s };
    assert_eq!(percpu_area_num(&small), 0);
    let odd = LinkSymbols { area_end: 0x20_0000 + 300, ..s };
    assert_eq!(percpu_area_num(&odd), 2);
}

#[test]
fn stride_follows_the_policy_of_the_mode() {
    assert_eq!(area_stride(Mode::BareMetal, 100), 128);
    assert_eq!(area_stride(Mode::BareMetal, 128), 128);
    assert_eq!(area_stride(Mode::Hosted, 100), 100);
    assert_eq!(area_stride(Mode::Custom, 100), 100);
    assert_eq!(area_stride(Mode::BareMetal, 0), 0);
}

#[test]
fn template_is_found_at_the_reserved_region_on_bare_metal() {
    let s = symbols();
    assert_eq!(template_addr(Mode::BareMetal, &s), 0x20_0000);
    assert_eq!(template_addr(Mode::Hosted, &s), 0x1000);
    assert_eq!(template_addr(Mode::Custom, &s), 0x1000);
}

#[test]
fn layout_area_base_is_base_plus_index_times_stride() {
    let l = Layout::new(0x4000, 100, 128, 4).unwrap();
    assert_eq!(l.areas_base(), 0x4000);
    assert_eq!(l.area_size(), 100);
    assert_eq!(l.stride(), 128);
    assert_eq!(l.area_count(), 4);
    assert_eq!(l.area_base(0), 0x4000);
    assert_eq!(l.area_base(1), 0x4080);
    assert_eq!(l.area_base(3), 0x4000 + 3 * 128);
    assert_eq!(l.area_base(4), 0x4000 + 4 * 128);
}

#[test]
fn layout_stride_is_constant() {
    let l = Layout::new(0x4000, 24, 64, 8).unwrap();
    for i in 0..7 {
        assert_eq!(l.area_base(i + 1) - l.area_base(i), 64);
    }
    let packed = Layout::new(0x4000, 24, 24, 8).unwrap();
    for i in 0..7 {
        assert_eq!(packed.area_base(i + 1) - packed.area_base(i), 24);
    }
}

#[test]
fn layout_new_refuses_what_does_not_fit() {
    assert!(Layout::new(0, 65, 64, 1).is_none());
    assert!(Layout::new(usize::MAX, 1, 1, 1).is_none());
    assert!(Layout::new(0, 1, usize::MAX, 2).is_none());
    assert!(Layout::new(usize::MAX - 128, 64, 64, 3).is_none());
    assert!(Layout::new(usize::MAX - 128, 64, 64, 2).is_some());
    assert!(Layout::new(usize::MAX, 0, 0, 5).is_some());
    assert!(Layout::new(7, 3, 3, 0).is_some());
}
