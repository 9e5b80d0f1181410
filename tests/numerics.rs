use mifare::numerics::{
    AbsoluteBlockOffset, BlockOffset, Cap1K, Cap4K, SectorBlockOffset, SectorNumber, SectorNumber1K,
    SectorNumber4K, TagCapacity,
};

#[test]
fn capacity_constants() {
    assert_eq!(Cap1K::bytes(), 1024);
    assert_eq!(Cap1K::max_sectors(), 16);
    assert_eq!(Cap1K::max_blocks(), 64);
    assert_eq!(Cap4K::bytes(), 4096);
    assert_eq!(Cap4K::max_sectors(), 64);
    assert_eq!(Cap4K::max_blocks(), 256);
}

#[test]
fn sector_number_range_1k() {
    for n in 0..=255u8 {
        assert_eq!(SectorNumber1K::new(n).is_some(), n < 16, "n = {}", n);
    }
    assert_eq!(u8::from(SectorNumber1K::new(15).unwrap()), 15);
}

#[test]
fn sector_number_range_4k() {
    for n in 0..=255u8 {
        assert_eq!(SectorNumber4K::new(n).is_some(), n < 64, "n = {}", n);
    }
    assert_eq!(u8::from(SectorNumber4K::new(63).unwrap()), 63);
}

#[test]
fn absolute_block_range() {
    for n in 0..=255u8 {
        assert_eq!(AbsoluteBlockOffset::<Cap1K>::new(n).is_some(), n < 64, "n = {}", n);
        // every u8 is below the 256 blocks of a 4 KiB tag
        assert!(AbsoluteBlockOffset::<Cap4K>::new(n).is_some(), "n = {}", n);
    }
    assert_eq!(u8::from(AbsoluteBlockOffset::<Cap4K>::new(255).unwrap()), 255);
}

#[test]
fn sector_start_range() {
    for n in 0..=255u8 {
        assert_eq!(SectorBlockOffset::<Cap1K>::new(n).is_some(), n < 64 && n % 4 == 0, "n = {}", n);
        assert_eq!(SectorBlockOffset::<Cap4K>::new(n).is_some(), n % 4 == 0, "n = {}", n);
    }
    assert!(SectorBlockOffset::<Cap1K>::new(60).is_some());
    assert!(SectorBlockOffset::<Cap1K>::new(64).is_none());
    assert!(SectorBlockOffset::<Cap4K>::new(252).is_some());
    assert!(SectorBlockOffset::<Cap4K>::new(9).is_none());
}

#[test]
fn block_offset_range() {
    for n in 0..=255u8 {
        assert_eq!(BlockOffset::new(n).is_some(), n <= 2, "n = {}", n);
    }
    assert_eq!(u8::from(BlockOffset::new(2).unwrap()), 2);
}

#[test]
fn block_offset_three_is_absent() {
    assert!(BlockOffset::new(3).is_none());
}

#[test]
fn round_trip_every_block() {
    for n in 0..=255u8 {
        let a = AbsoluteBlockOffset::<Cap4K>::new(n).unwrap();
        let start = a.sector_offset();
        assert_eq!(u8::from(start), n - n % 4);
        match a.block_within_sector() {
            Some(within) => {
                assert_eq!(u8::from(within), n % 4);
                assert_eq!(u8::from(start + within), n);
            }
            None => assert_eq!(n % 4, 3),
        }
    }
}

#[test]
fn round_trip_example() {
    let a = AbsoluteBlockOffset::<Cap1K>::new(22).unwrap();
    assert_eq!(u8::from(a.sector_offset()), 20);
    assert_eq!(u8::from(a.block_within_sector().unwrap()), 2);
    let trailer = AbsoluteBlockOffset::<Cap1K>::new(23).unwrap();
    assert!(trailer.block_within_sector().is_none());
    assert_eq!(u8::from(trailer.sector_offset()), 20);
}

#[test]
fn widening_keeps_value() {
    for n in 0..16u8 {
        let small = SectorNumber1K::new(n).unwrap();
        let wide = SectorNumber4K::from(small);
        assert_eq!(u8::from(wide), n);
        assert_eq!(wide, SectorNumber4K::new(n).unwrap());
    }
}

#[test]
fn trailer_is_start_plus_three() {
    for s in (0..=252u8).step_by(4) {
        let start = SectorBlockOffset::<Cap4K>::new(s).unwrap();
        let trailer = start.sector_trailer();
        assert_eq!(u8::from(trailer), s + 3);
        assert!(trailer.block_within_sector().is_none());
        for o in 0..3u8 {
            let block = start + BlockOffset::new(o).unwrap();
            assert_ne!(block, trailer);
            assert_eq!(u8::from(block), s + o);
        }
    }
    let last_1k = SectorBlockOffset::<Cap1K>::new(60).unwrap();
    assert_eq!(u8::from(last_1k.sector_trailer()), 63);
}

#[test]
fn sector_number_and_start_convert() {
    let n = SectorNumber4K::new(2).unwrap();
    let start = SectorBlockOffset::<Cap4K>::from(n);
    assert_eq!(u8::from(start), 8);
    assert_eq!(SectorNumber::<Cap4K>::from(start), n);
    let last = SectorNumber4K::new(63).unwrap();
    assert_eq!(u8::from(SectorBlockOffset::<Cap4K>::from(last)), 252);
    let small = SectorNumber1K::new(15).unwrap();
    let wide_start: SectorBlockOffset<Cap4K> = small.into();
    assert_eq!(u8::from(wide_start), 60);
    let back = SectorNumber::<Cap1K>::from(SectorBlockOffset::<Cap1K>::new(60).unwrap());
    assert_eq!(u8::from(back), 15);
}
