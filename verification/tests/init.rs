use percpu::init;
use percpu::init_fits;
use percpu::init_percpu_reg;
use percpu::percpu_area_base;
use percpu::percpu_area_num;
use percpu::percpu_base;
use percpu::LinkSymbols;
use percpu::Mode;
use percpu::PerCpuAreas;
use percpu::PerCpuData;
use percpu::Register;
use percpu::RegisterFile;
use percpu::TemplateRegion;

const HOST_BASE: usize = 0x7f00_0000;
const RESERVED: usize = 0x10_0000;

struct Vars {
    areas: PerCpuAreas,
    a: PerCpuData<u8>,
    b: PerCpuData<u16>,
    c: PerCpuData<u64>,
}

fn vars(mode: Mode, link_start: usize, area_start: usize, reserved: usize) -> Vars {
    let mut t = TemplateRegion::new(link_start);
    let a = t.declare(1u8).unwrap();
    let b = t.declare(2u16).unwrap();
    let c = t.declare(0x0102_0304_0506_0708u64).unwrap();
    let areas = t.load(mode, area_start, reserved).unwrap();
    Vars { areas, a, b, c }
}

fn host() -> RegisterFile {
    RegisterFile::new(Register::Gp, HOST_BASE)
}

#[test]
fn init_returns_the_count_once_and_zero_afterwards() {
    let mut v = vars(Mode::Hosted, 0x1000, 0, 0);
    let imp = host();
    assert!(!v.areas.is_init());
    assert_eq!(init(&mut v.areas, &imp, 4), 4);
    assert!(v.areas.is_init());
    assert_eq!(v.areas.cpu_count(), 4);
    assert_eq!(init(&mut v.areas, &imp, 4), 0);
    assert_eq!(init(&mut v.areas, &imp, 9), 0);
    assert_eq!(v.areas.cpu_count(), 4);
}

#[test]
fn a_second_init_changes_nothing() {
    let mut v = vars(Mode::Hosted, 0x1000, 0, 0);
    let imp = host();
    init(&mut v.areas, &imp, 2);
    v.a.write_remote(&mut v.areas, 1, 77);
    let other = RegisterFile::new(Register::Gp, 0x100_0000);
    assert!(init_fits(&v.areas, &other, 1000));
    assert_eq!(init(&mut v.areas, &other, 1000), 0);
    assert_eq!(percpu_base(&v.areas), HOST_BASE);
    assert_eq!(v.areas.cpu_count(), 2);
    assert_eq!(v.a.read_remote(&v.areas, 1), 77);
    assert_eq!(v.a.read_remote(&v.areas, 0), 1);
}

#[test]
fn init_of_no_cpu_still_counts_as_the_initialization() {
    let mut v = vars(Mode::Custom, 0x1000, 0, 0);
    let imp = host();
    assert_eq!(init(&mut v.areas, &imp, 0), 0);
    assert!(v.areas.is_init());
    assert_eq!(init(&mut v.areas, &imp, 4), 0);
    assert_eq!(v.areas.cpu_count(), 0);
}

#[test]
fn every_area_holds_the_defaults_after_init() {
    let mut v = vars(Mode::Hosted, 0x1000, 0, 0);
    let imp = host();
    assert_eq!(init(&mut v.areas, &imp, 5), 5);
    for i in 0..5 {
        assert_eq!(v.a.read_remote(&v.areas, i), 1);
        assert_eq!(v.b.read_remote(&v.areas, i), 2);
        assert_eq!(v.c.read_remote(&v.areas, i), 0x0102_0304_0506_0708);
        assert_eq!(
            v.areas.read_bytes(percpu_area_base(&v.areas, i), 11),
            vec![1, 2, 0, 8, 7, 6, 5, 4, 3, 2, 1]
        );
    }
}

#[test]
fn hosted_areas_are_packed_into_a_fresh_buffer() {
    let mut v = vars(Mode::Hosted, 0x1000, 0, 0);
    let imp = host();
    init(&mut v.areas, &imp, 3);
    assert_eq!(percpu_base(&v.areas), HOST_BASE);
    assert_eq!(percpu_area_base(&v.areas, 0), HOST_BASE);
    assert_eq!(percpu_area_base(&v.areas, 1), HOST_BASE + 11);
    assert_eq!(percpu_area_base(&v.areas, 2), HOST_BASE + 22);
    assert!(v.areas.is_mapped(HOST_BASE, 33));
    assert!(!v.areas.is_mapped(HOST_BASE, 34));
    assert!(v.areas.is_mapped(0x1000, 11));
    let l = v.areas.layout();
    assert_eq!(l.areas_base(), HOST_BASE);
    assert_eq!(l.area_size(), 11);
    assert_eq!(l.stride(), 11);
    assert_eq!(l.area_count(), 3);
}

#[test]
fn the_template_stays_as_it_was_in_the_hosted_mode() {
    let mut v = vars(Mode::Hosted, 0x1000, 0, 0);
    let imp = host();
    init(&mut v.areas, &imp, 2);
    v.a.write_remote(&mut v.areas, 0, 9);
    v.b.write_remote(&mut v.areas, 1, 0xffff);
    assert_eq!(v.areas.read_bytes(0x1000, 11), vec![1, 2, 0, 8, 7, 6, 5, 4, 3, 2, 1]);
}

#[test]
fn bare_metal_areas_are_64_bytes_apart_and_area_zero_is_the_template() {
    let mut v = vars(Mode::BareMetal, 0, RESERVED, 256);
    let imp = RegisterFile::new(Register::GsBase, 0);
    assert_eq!(percpu_area_num(&v.areas.symbols()), 4);
    assert_eq!(percpu_base(&v.areas), RESERVED);
    assert_eq!(percpu_area_base(&v.areas, 2), RESERVED + 128);
    assert!(init_fits(&v.areas, &imp, 4));
    assert_eq!(init(&mut v.areas, &imp, 4), 4);
    assert_eq!(percpu_base(&v.areas), RESERVED);
    for i in 0..4 {
        assert_eq!(percpu_area_base(&v.areas, i), RESERVED + 64 * i);
        assert_eq!(v.a.read_remote(&v.areas, i), 1);
        assert_eq!(v.b.read_remote(&v.areas, i), 2);
        assert_eq!(v.c.read_remote(&v.areas, i), 0x0102_0304_0506_0708);
    }
    assert_eq!(v.a.remote_ptr(&v.areas, 0), RESERVED);
    assert_eq!(v.b.remote_ptr(&v.areas, 3), RESERVED + 192 + 1);
    // the bytes between the end of an area and the next one stay as loaded.
    assert_eq!(v.areas.read_bytes(RESERVED + 11, 53), vec![0u8; 53]);
    // a write to CPU 0 is a write to the loaded template.
    v.a.write_remote(&mut v.areas, 0, 5);
    assert_eq!(v.areas.read_bytes(RESERVED, 1), vec![5]);
    assert_eq!(v.a.read_remote(&v.areas, 1), 1);
}

#[test]
fn bare_metal_init_does_not_fit_a_region_that_is_too_small() {
    let v = vars(Mode::BareMetal, 0, RESERVED, 256);
    let imp = RegisterFile::new(Register::GsBase, 0);
    assert!(init_fits(&v.areas, &imp, 0));
    assert!(init_fits(&v.areas, &imp, 4));
    assert!(!init_fits(&v.areas, &imp, 5));
    assert!(!init_fits(&v.areas, &imp, usize::MAX));
}

#[test]
fn a_host_buffer_that_touches_the_template_does_not_fit() {
    let v = vars(Mode::Custom, 0x1000, 0, 0);
    assert!(!init_fits(&v.areas, &RegisterFile::new(Register::Gp, 0x1005), 1));
    assert!(!init_fits(&v.areas, &RegisterFile::new(Register::Gp, 0x1000 - 5), 1));
    assert!(init_fits(&v.areas, &RegisterFile::new(Register::Gp, 0x1000 - 11), 1));
    assert!(init_fits(&v.areas, &RegisterFile::new(Register::Gp, 0x100b), 4));
    assert!(!init_fits(&v.areas, &RegisterFile::new(Register::Gp, usize::MAX - 20), 2));
    assert!(init_fits(&v.areas, &RegisterFile::new(Register::Gp, usize::MAX - 22), 2));
    // areas that start at the template must lie in the linked memory.
    assert!(init_fits(&v.areas, &RegisterFile::new(Register::Gp, 0x1000), 1));
    assert!(!init_fits(&v.areas, &RegisterFile::new(Register::Gp, 0x1000), 2));
}

#[test]
fn a_host_may_hand_out_the_template_itself_as_area_zero() {
    let mut t = TemplateRegion::new(0x1000);
    let a = t.declare(1u8).unwrap();
    let b = t.declare(2u16).unwrap();
    let mut areas = t.load(Mode::Custom, 0, 9).unwrap();
    let imp = RegisterFile::new(Register::Gp, 0x1000);
    assert!(init_fits(&areas, &imp, 3));
    assert_eq!(init(&mut areas, &imp, 3), 3);
    assert_eq!(areas.read_bytes(0x1000, 9), vec![1, 2, 0, 1, 2, 0, 1, 2, 0]);
    a.write_remote(&mut areas, 2, 8);
    assert_eq!(areas.read_bytes(0x1000, 9), vec![1, 2, 0, 1, 2, 0, 8, 2, 0]);
    assert_eq!(b.read_remote(&areas, 2), 2);
}

#[test]
fn binding_a_context_sets_its_register_to_the_area_base() {
    let mut v = vars(Mode::Hosted, 0x1000, 0, 0);
    let mut imp = host();
    init(&mut v.areas, &imp, 4);
    for i in 0..4 {
        init_percpu_reg(&v.areas, &mut imp, i);
        assert_eq!(percpu::read_percpu_reg(&imp), HOST_BASE + 11 * i);
    }
}

#[test]
fn new_refuses_inconsistent_link_facts() {
    let ok = LinkSymbols { load_start: 0x1000, load_end: 0x1004, area_start: 0x2000, area_end: 0x2100 };
    assert!(PerCpuAreas::new(Mode::Hosted, ok, vec![0; 4]).is_some());
    assert!(PerCpuAreas::new(Mode::Hosted, ok, vec![0; 40]).is_some());
    assert!(PerCpuAreas::new(Mode::Hosted, ok, vec![0; 3]).is_none());
    assert!(PerCpuAreas::new(Mode::BareMetal, ok, vec![0; 0x100]).is_some());
    assert!(PerCpuAreas::new(Mode::BareMetal, ok, vec![0; 0xff]).is_none());
    let swapped = LinkSymbols { load_start: 0x1004, load_end: 0x1000, ..ok };
    assert!(PerCpuAreas::new(Mode::Hosted, swapped, vec![0; 4]).is_none());
    let reversed = LinkSymbols { area_start: 0x2100, area_end: 0x2000, ..ok };
    assert!(PerCpuAreas::new(Mode::Hosted, reversed, vec![0; 4]).is_none());
    let high = LinkSymbols { load_start: usize::MAX - 2, load_end: usize::MAX, ..ok };
    assert!(PerCpuAreas::new(Mode::Hosted, high, vec![0; 2]).is_some());
    assert!(PerCpuAreas::new(Mode::Hosted, high, vec![0; 3]).is_none());
    let huge = LinkSymbols { load_start: 0, load_end: usize::MAX - 62, ..ok };
    assert!(PerCpuAreas::new(Mode::Hosted, huge, vec![0; 4]).is_none());
}
