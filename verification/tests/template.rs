use percpu::Mode;
use percpu::TemplateRegion;

#[test]
fn variables_are_placed_one_behind_the_other() {
    let mut t = TemplateRegion::new(0x1000);
    let a = t.declare(1u8).unwrap();
    let b = t.declare(2u16).unwrap();
    let c = t.declare((10usize, 11u8)).unwrap();
    let d = t.declare(7u32).unwrap();
    assert_eq!(a.addr(), 0x1000);
    assert_eq!(b.addr(), 0x1001);
    assert_eq!(c.addr(), 0x1003);
    assert_eq!(d.addr(), 0x100c);
    assert_eq!(t.size(), 16);
    assert_eq!(*a.initial(), 1);
    assert_eq!(*b.initial(), 2);
    assert_eq!(*c.initial(), (10, 11));
}

#[test]
fn declared_variables_share_no_byte() {
    let mut t = TemplateRegion::new(0x40);
    let a = t.declare(1u64).unwrap();
    let b = t.declare(2u8).unwrap();
    let c = t.declare(3u32).unwrap();
    let ranges = [(a.addr(), 8usize), (b.addr(), 1), (c.addr(), 4)];
    for i in 0..ranges.len() {
        for j in 0..ranges.len() {
            if i != j {
                let (x, xs) = ranges[i];
                let (y, ys) = ranges[j];
                assert!(x + xs <= y || y + ys <= x);
            }
        }
    }
}

#[test]
fn a_variable_beyond_the_address_space_is_refused() {
    let mut t = TemplateRegion::new(usize::MAX - 3);
    assert!(t.declare(1u16).is_some());
    assert!(t.declare(1u16).is_none());
    assert_eq!(t.size(), 2);
    assert!(t.declare(1u8).is_some());
    assert!(t.declare(1u8).is_none());
    assert_eq!(t.size(), 3);
}

#[test]
fn symbols_mark_the_region() {
    let mut t = TemplateRegion::new(0x1000);
    t.declare(1u32).unwrap();
    t.declare(1u16).unwrap();
    let s = t.symbols(0x8000, 0x9000);
    assert_eq!(s.load_start, 0x1000);
    assert_eq!(s.load_end, 0x1006);
    assert_eq!(s.area_start, 0x8000);
    assert_eq!(s.area_end, 0x9000);
}

#[test]
fn loading_keeps_the_initial_values() {
    let mut t = TemplateRegion::new(0x1000);
    t.declare(0x1234u16).unwrap();
    t.declare(9u8).unwrap();
    let areas = t.load(Mode::Hosted, 0, 0).unwrap();
    assert!(!areas.is_init());
    assert_eq!(areas.cpu_count(), 0);
    assert_eq!(areas.mode(), Mode::Hosted);
    assert_eq!(areas.symbols().load_start, 0x1000);
    assert_eq!(areas.symbols().load_end, 0x1003);
    assert_eq!(areas.read_bytes(0x1000, 3), vec![0x34, 0x12, 9]);
    assert!(!areas.is_mapped(0x1000, 4));
}

#[test]
fn loading_on_bare_metal_fills_the_reserved_region() {
    let mut t = TemplateRegion::new(0);
    t.declare(0x1234u16).unwrap();
    let areas = t.load(Mode::BareMetal, 0x10_0000, 128).unwrap();
    assert_eq!(areas.symbols().area_start, 0x10_0000);
    assert_eq!(areas.symbols().area_end, 0x10_0080);
    assert!(areas.is_mapped(0x10_0000, 128));
    assert!(!areas.is_mapped(0x10_0000, 129));
    assert_eq!(areas.read_bytes(0x10_0000, 4), vec![0x34, 0x12, 0, 0]);
}

#[test]
fn loading_is_refused_where_the_memory_does_not_fit() {
    let mut t = TemplateRegion::new(0);
    t.declare(1u64).unwrap();
    assert!(t.load(Mode::BareMetal, 0x1000, 4).is_none());
    let mut t = TemplateRegion::new(0);
    t.declare(1u64).unwrap();
    assert!(t.load(Mode::BareMetal, usize::MAX - 4, 8).is_none());
    let mut t = TemplateRegion::new(0);
    t.declare(1u64).unwrap();
    assert!(t.load(Mode::BareMetal, 0x1000, 8).is_some());
    let mut t = TemplateRegion::new(usize::MAX - 8);
    t.declare(1u64).unwrap();
    assert!(t.load(Mode::Hosted, 0, 0).is_some());
    let mut t = TemplateRegion::new(usize::MAX - 8);
    t.declare(1u64).unwrap();
    assert!(t.load(Mode::Hosted, 0, 16).is_none());
}
