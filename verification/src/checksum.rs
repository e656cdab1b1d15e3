//! The checksum that guards a data frame.
//!
//! The sensor appends an 8-bit CRC to its measurement. The arithmetic is
//! left to the `crc_all` crate; this module fixes the parameters and gives
//! the result a name that the rest of the crate can reason about.

use crc_all::CrcAlgo;
use vstd::prelude::*;

verus! {

/// The generator polynomial, x^8 + x^5 + x^4 + 1, without its top term.
pub const POLYNOMIAL: u8 = 0x31;

/// The width of the checksum in bits.
pub const WIDTH: usize = 8;

/// The value that the checksum register starts from.
pub const INITIAL: u8 = 0xFF;

/// The value that is xor-ed onto the register at the end.
pub const FINAL_XOR: u8 = 0x00;

/// Whether bytes enter the register lowest bit first.
pub const REFLECTED: bool = false;

/// The CRC of at most eight bits that `crc_all` computes over `data` for
/// the given parameters.
pub uninterp spec fn crc8(
    poly: u8,
    width: usize,
    init: u8,
    xorout: u8,
    reflect: bool,
    data: Seq<u8>,
) -> u8;

/// The checksum that the sensor computes over `payload`.
pub open spec fn frame_crc(payload: Seq<u8>) -> u8 {
    crc8(POLYNOMIAL, WIDTH, INITIAL, FINAL_XOR, REFLECTED, payload)
}

/// Runs `crc_all`'s byte-wide CRC over `data`: `CrcAlgo::<u8>::new` with
/// the given parameters, then `init_crc` and `update_crc` on a fresh
/// register.
///
/// Trusted, not proved: the result depends on the arguments alone, and so
/// is the value that [`crc8`] names. `new` subtracts the width from eight
/// and shifts by the difference, which goes wrong for a width of zero or
/// of more than eight bits; the precondition keeps those out.
#[verifier::external_body]
fn crc_all_u8(poly: u8, width: usize, init: u8, xorout: u8, reflect: bool, data: &[u8]) -> (crc: u8)
    requires
        1 <= width <= 8,
    ensures
        crc == crc8(poly, width, init, xorout, reflect, data@),
{
    let algo = CrcAlgo::<u8>::new(poly, width, init, xorout, reflect);
    let crc = &mut 0u8;
    algo.init_crc(crc);
    algo.update_crc(crc, data)
}

/// Computes the sensor's checksum over `payload`.
pub fn checksum(payload: &[u8]) -> (crc: u8)
    ensures
        crc == frame_crc(payload@),
{
    crc_all_u8(POLYNOMIAL, WIDTH, INITIAL, FINAL_XOR, REFLECTED, payload)
}

} // verus!
