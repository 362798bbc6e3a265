use intel8080::bus::{Bus, SnapshotError};

#[test]
fn rw_byte() {
    let mut b = Bus::new(0xFFFF);
    b.write_byte(0x0000, 0xFF);
    assert_eq!(b.read_byte(0x0000), 0xFF);
}

#[test]
fn rw_word() {
    let mut b = Bus::new(0xFFFF);
    b.write_word(0x0000, 0x1be3);
    assert_eq!(b.read_word(0x0000), 0x1be3);
}

#[test]
fn rw_le_word() {
    let mut b = Bus::new(0xFFFF);
    b.write_word(0x0000, 0x1be3);
    assert_eq!(b.read_le_word(0x0000), 0xe31b);
}

#[test]
fn out_of_range_reads_return_zero() {
    let mut b = Bus::new(0x00FF);
    b.write_byte(0x0010, 0xAB);
    assert_eq!(b.read_byte(0x0100), 0x00);
    assert_eq!(b.read_byte(0xFFFF), 0x00);
    assert_eq!(b.read_word(0x0100), 0x0000);
    assert_eq!(b.read_word(0xFFFF), 0x0000);
    assert_eq!(b.read_le_word(0x0100), 0x0000);
}

#[test]
fn out_of_range_writes_are_dropped() {
    let mut b = Bus::new(0x00FF);
    b.write_byte(0x0100, 0xFF);
    b.write_word(0x0100, 0xFFFF);
    for a in 0..=0x00FF {
        assert_eq!(b.read_byte(a), 0x00);
    }
}

#[test]
fn word_write_at_last_offset_drops_high_byte() {
    let mut b = Bus::new(0x0001);
    b.write_word(0x0001, 0xA1B2);
    assert_eq!(b.read_byte(0x0001), 0xB2);
    assert_eq!(b.read_word(0x0001), 0x00B2);
}

#[test]
fn rom_region_blocks_writes_inside_it() {
    let mut b = Bus::new(0xFFFF);
    b.set_romspace(0x0100, 0x01FF);
    assert_eq!(b.get_romspace(), (0x0100, 0x01FF));
    b.write_byte(0x0100, 0xAA);
    b.write_byte(0x0180, 0xAA);
    b.write_byte(0x01FF, 0xAA);
    b.write_word(0x0150, 0xBBBB);
    assert_eq!(b.read_byte(0x0100), 0x00);
    assert_eq!(b.read_byte(0x0180), 0x00);
    assert_eq!(b.read_byte(0x01FF), 0x00);
    assert_eq!(b.read_word(0x0150), 0x0000);
    b.write_byte(0x00FF, 0xAA);
    b.write_byte(0x0200, 0xBB);
    assert_eq!(b.read_byte(0x00FF), 0xAA);
    assert_eq!(b.read_byte(0x0200), 0xBB);
}

#[test]
fn romspace_defaults_to_zero_pair() {
    let b = Bus::new(0xFFFF);
    assert_eq!(b.get_romspace(), (0x0000, 0x0000));
}

#[test]
fn word_round_trip_and_byte_swap() {
    let mut b = Bus::new(0xFFFF);
    b.write_word(0x2000, 0x1234);
    assert_eq!(b.read_word(0x2000), 0x1234);
    assert_eq!(b.read_le_word(0x2000), 0x3412);
    assert_eq!(b.read_byte(0x2000), 0x34);
    assert_eq!(b.read_byte(0x2001), 0x12);
}

#[test]
fn export_copies_whole_address_space() {
    let mut b = Bus::new(0x0003);
    b.write_byte(0x0000, 1);
    b.write_byte(0x0003, 4);
    assert_eq!(b.export_address_space(), vec![1, 0, 0, 4]);
}

#[test]
fn load_from_vec_copies_at_offset() {
    let mut b = Bus::new(0x000F);
    b.write_byte(0x0000, 0x11);
    b.write_byte(0x000F, 0xEE);
    let r = b.load_from_vec(vec![0xA1, 0xA2, 0xA3], 0x0004);
    assert_eq!(r, Ok(()));
    assert_eq!(b.read_byte(0x0000), 0x11);
    assert_eq!(b.read_byte(0x0004), 0xA1);
    assert_eq!(b.read_byte(0x0005), 0xA2);
    assert_eq!(b.read_byte(0x0006), 0xA3);
    assert_eq!(b.read_byte(0x0007), 0x00);
    assert_eq!(b.read_byte(0x000F), 0xEE);
}

#[test]
fn load_from_vec_ignores_rom_region() {
    let mut b = Bus::new(0x000F);
    b.set_romspace(0x0000, 0x000F);
    let r = b.load_from_vec(vec![0x7F], 0x0002);
    assert_eq!(r, Ok(()));
    assert_eq!(b.read_byte(0x0002), 0x7F);
}

#[test]
fn oversized_load_fails_and_changes_nothing() {
    let mut b = Bus::new(0x0007);
    b.write_byte(0x0001, 0x55);
    let r = b.load_from_vec(vec![0xFF; 9], 0x0000);
    assert_eq!(r, Err(SnapshotError::PayloadTooLarge));
    let r2 = b.load_from_vec(vec![0xFF, 0xFF], 0x0007);
    assert_eq!(r2, Err(SnapshotError::PayloadTooLarge));
    assert_eq!(b.export_address_space(), vec![0, 0x55, 0, 0, 0, 0, 0, 0]);
}
