use percpu::Plain;

#[test]
fn sizes_are_fixed() {
    assert_eq!(<u8 as Plain>::size(), 1);
    assert_eq!(<u16 as Plain>::size(), 2);
    assert_eq!(<u32 as Plain>::size(), 4);
    assert_eq!(<u64 as Plain>::size(), 8);
    assert_eq!(<usize as Plain>::size(), 8);
    assert_eq!(<(usize, u8) as Plain>::size(), 9);
    assert_eq!(<((u8, u16), u32) as Plain>::size(), 7);
}

#[test]
fn integers_are_stored_low_byte_first() {
    assert_eq!(Plain::to_bytes(&0x12u8), vec![0x12]);
    assert_eq!(Plain::to_bytes(&0x1234u16), vec![0x34, 0x12]);
    assert_eq!(Plain::to_bytes(&0x1234_5678u32), vec![0x78, 0x56, 0x34, 0x12]);
    assert_eq!(
        Plain::to_bytes(&0x0102_0304_0506_0708u64),
        vec![0x08, 0x07, 0x06, 0x05, 0x04, 0x03, 0x02, 0x01]
    );
    assert_eq!(Plain::to_bytes(&10usize), vec![10, 0, 0, 0, 0, 0, 0, 0]);
}

#[test]
fn a_pair_is_stored_part_after_part() {
    assert_eq!(Plain::to_bytes(&(10usize, 11u8)), vec![10, 0, 0, 0, 0, 0, 0, 0, 11]);
    assert_eq!(Plain::to_bytes(&(0x0102u16, 3u8)), vec![2, 1, 3]);
}

#[test]
fn values_are_read_back_unchanged() {
    assert_eq!(<u8 as Plain>::from_bytes(&Plain::to_bytes(&200u8)), 200);
    assert_eq!(<u16 as Plain>::from_bytes(&Plain::to_bytes(&0xbeefu16)), 0xbeef);
    assert_eq!(<u32 as Plain>::from_bytes(&Plain::to_bytes(&0xdead_beefu32)), 0xdead_beef);
    assert_eq!(<u64 as Plain>::from_bytes(&Plain::to_bytes(&u64::MAX)), u64::MAX);
    assert_eq!(<usize as Plain>::from_bytes(&Plain::to_bytes(&usize::MAX)), usize::MAX);
    assert_eq!(
        <(usize, u8) as Plain>::from_bytes(&Plain::to_bytes(&(77usize, 5u8))),
        (77, 5)
    );
    assert_eq!(<u16 as Plain>::from_bytes(&[0x34, 0x12]), 0x1234);
}
