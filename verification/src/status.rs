//! The sensor's status byte.

use vstd::prelude::*;

verus! {

/// The sensor is carrying out a command.
pub const BUSY: u8 = 0x80;

/// The two-bit operating mode field.
pub const MODE: u8 = 0x60;

/// The data frame carries a checksum.
pub const CRC: u8 = 0x10;

/// The sensor holds a valid calibration.
pub const CALIBRATION_ENABLE: u8 = 0x08;

/// The measurement queue is switched on.
pub const FIFO_ENABLE: u8 = 0x04;

/// The measurement queue is full.
pub const FIFO_FULL: u8 = 0x02;

/// The measurement queue is empty.
pub const FIFO_EMPTY: u8 = 0x01;

/// Whether every bit of `mask` is set in `bits`.
pub open spec fn has_all(bits: u8, mask: u8) -> bool {
    bits & mask == mask
}

/// Whether the bit worth `weight`, a power of two, is set in `bits`.
pub open spec fn bit_set(bits: u8, weight: u8) -> bool
    recommends
        weight > 0,
{
    (bits / weight) % 2 == 1
}

/// Whether a status byte reports a command in progress.
pub open spec fn busy(status: u8) -> bool {
    bit_set(status, BUSY)
}

/// Whether a status byte reports a calibrated sensor.
pub open spec fn calibrated(status: u8) -> bool {
    bit_set(status, CALIBRATION_ENABLE)
}

/// The flags of one status byte.
///
/// Any byte is a valid set of flags: bits without a name are kept as they
/// were read.
#[derive(Clone, Copy, Debug)]
pub struct StatusFlags {
    bits: u8,
}

impl View for StatusFlags {
    type V = u8;

    closed spec fn view(&self) -> u8 {
        self.bits
    }
}

impl StatusFlags {
    /// Reads a status byte as a set of flags, keeping every bit.
    pub fn from_bits_retain(bits: u8) -> (flags: StatusFlags)
        ensures
            flags@ == bits,
    {
        StatusFlags { bits }
    }

    /// The byte that the flags were read from.
    pub fn bits(&self) -> (bits: u8)
        ensures
            bits == self@,
    {
        self.bits
    }

    /// Whether every bit of `mask` is set.
    pub fn contains(&self, mask: u8) -> (found: bool)
        ensures
            found == has_all(self@, mask),
    {
        self.bits & mask == mask
    }

    /// Whether the sensor is carrying out a command.
    pub fn is_busy(&self) -> (found: bool)
        ensures
            found == busy(self@),
    {
        proof {
            lemma_single_bit_masks(self.bits);
        }
        self.contains(BUSY)
    }

    /// Whether the sensor holds a valid calibration.
    pub fn is_calibrated(&self) -> (found: bool)
        ensures
            found == calibrated(self@),
    {
        proof {
            lemma_single_bit_masks(self.bits);
        }
        self.contains(CALIBRATION_ENABLE)
    }
}

/// A mask of one bit is contained in a byte exactly if that bit is set.
pub proof fn lemma_single_bit_masks(bits: u8)
    ensures
        has_all(bits, 0x01) <==> bit_set(bits, 0x01),
        has_all(bits, 0x02) <==> bit_set(bits, 0x02),
        has_all(bits, 0x04) <==> bit_set(bits, 0x04),
        has_all(bits, 0x08) <==> bit_set(bits, 0x08),
        has_all(bits, 0x10) <==> bit_set(bits, 0x10),
        has_all(bits, 0x20) <==> bit_set(bits, 0x20),
        has_all(bits, 0x40) <==> bit_set(bits, 0x40),
        has_all(bits, 0x80) <==> bit_set(bits, 0x80),
{
    assert((bits & 0x01 == 0x01) <==> (bits / 0x01) % 2 == 1) by (bit_vector);
    assert((bits & 0x02 == 0x02) <==> (bits / 0x02) % 2 == 1) by (bit_vector);
    assert((bits & 0x04 == 0x04) <==> (bits / 0x04) % 2 == 1) by (bit_vector);
    assert((bits & 0x08 == 0x08) <==> (bits / 0x08) % 2 == 1) by (bit_vector);
    assert((bits & 0x10 == 0x10) <==> (bits / 0x10) % 2 == 1) by (bit_vector);
    assert((bits & 0x20 == 0x20) <==> (bits / 0x20) % 2 == 1) by (bit_vector);
    assert((bits & 0x40 == 0x40) <==> (bits / 0x40) % 2 == 1) by (bit_vector);
    assert((bits & 0x80 == 0x80) <==> (bits / 0x80) % 2 == 1) by (bit_vector);
}

} // verus!
