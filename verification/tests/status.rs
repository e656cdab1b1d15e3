use aht20::status::{
    BUSY, CALIBRATION_ENABLE, CRC, FIFO_EMPTY, FIFO_ENABLE, FIFO_FULL, MODE,
};
use aht20::StatusFlags;

#[test]
fn flag_masks_cover_the_byte_once() {
    let masks = [BUSY, MODE, CRC, CALIBRATION_ENABLE, FIFO_ENABLE, FIFO_FULL, FIFO_EMPTY];
    let mut seen = 0u8;
    for mask in masks {
        assert_eq!(seen & mask, 0);
        seen |= mask;
    }
    assert_eq!(seen, 0xFF);
    assert_eq!(BUSY, 1 << 7);
    assert_eq!(MODE, (1 << 6) | (1 << 5));
    assert_eq!(CRC, 1 << 4);
    assert_eq!(CALIBRATION_ENABLE, 1 << 3);
    assert_eq!(FIFO_ENABLE, 1 << 2);
    assert_eq!(FIFO_FULL, 1 << 1);
    assert_eq!(FIFO_EMPTY, 1);
}

#[test]
fn every_byte_is_kept_as_read() {
    for bits in 0..=255u8 {
        assert_eq!(StatusFlags::from_bits_retain(bits).bits(), bits);
    }
}

#[test]
fn busy_is_the_top_bit() {
    for bits in 0..=255u8 {
        assert_eq!(StatusFlags::from_bits_retain(bits).is_busy(), bits >= 128);
    }
}

#[test]
fn calibrated_is_the_bit_worth_eight() {
    for bits in 0..=255u8 {
        assert_eq!(StatusFlags::from_bits_retain(bits).is_calibrated(), (bits / 8) % 2 == 1);
    }
}

#[test]
fn contains_asks_for_every_bit_of_the_mask() {
    let flags = StatusFlags::from_bits_retain(0x18);
    assert!(flags.contains(CALIBRATION_ENABLE));
    assert!(flags.contains(CRC));
    assert!(flags.contains(CALIBRATION_ENABLE | CRC));
    assert!(!flags.contains(BUSY));
    assert!(!flags.contains(CALIBRATION_ENABLE | BUSY));
    assert!(flags.contains(0));
    let mode = StatusFlags::from_bits_retain(0x20);
    assert!(!mode.contains(MODE));
    assert!(StatusFlags::from_bits_retain(0x60).contains(MODE));
}

#[test]
fn status_0x18_is_idle_and_calibrated() {
    let flags = StatusFlags::from_bits_retain(0x18);
    assert!(!flags.is_busy());
    assert!(flags.is_calibrated());
}
