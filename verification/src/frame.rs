//! The seven-byte data frame.
//!
//! | byte | content                                            |
//! |------|----------------------------------------------------|
//! | 0    | status                                             |
//! | 1    | humidity, bits 19 to 12                            |
//! | 2    | humidity, bits 11 to 4                             |
//! | 3    | humidity, bits 3 to 0; temperature, bits 19 to 16  |
//! | 4    | temperature, bits 15 to 8                          |
//! | 5    | temperature, bits 7 to 0                           |
//! | 6    | checksum over bytes 0 to 5                         |

use crate::checksum::{checksum, frame_crc};
use crate::error::Error;
use crate::reading::{Humidity, Temperature, SCALE};
use crate::status::{calibrated, StatusFlags};
use vstd::prelude::*;
use vstd::slice::slice_subrange;

verus! {

/// The length of a data frame in bytes.
pub const FRAME_LEN: usize = 7;

/// The number of leading bytes that the checksum covers.
pub const PAYLOAD_LEN: usize = 6;

/// The bytes of a frame that the checksum covers.
pub open spec fn payload(frame: Seq<u8>) -> Seq<u8>
    recommends
        frame.len() == FRAME_LEN,
{
    frame.subrange(0, PAYLOAD_LEN as int)
}

/// The raw humidity code that a frame carries: bytes 1 and 2 followed by
/// the upper half of byte 3, most significant first.
pub open spec fn humidity_code(frame: Seq<u8>) -> nat
    recommends
        frame.len() == FRAME_LEN,
{
    (frame[1] as nat) * 0x1000 + (frame[2] as nat) * 0x10 + (frame[3] as nat) / 0x10
}

/// The raw temperature code that a frame carries: the lower half of byte 3
/// followed by bytes 4 and 5, most significant first.
pub open spec fn temperature_code(frame: Seq<u8>) -> nat
    recommends
        frame.len() == FRAME_LEN,
{
    ((frame[3] as nat) % 0x10) * 0x1_0000 + (frame[4] as nat) * 0x100 + (frame[5] as nat)
}

/// What a frame amounts to, given the checksum `computed` over its
/// payload: a checksum error if the transmitted checksum differs, else
/// an error if the status byte lacks the calibration flag, else the two
/// readings.
pub open spec fn decoded<E>(frame: Seq<u8>, computed: u8) -> Result<(Humidity, Temperature), Error<E>>
    recommends
        frame.len() == FRAME_LEN,
{
    if computed != frame[6] {
        Err(Error::Checksum)
    } else if !calibrated(frame[0]) {
        Err(Error::Uncalibrated)
    } else {
        Ok((Humidity::with_raw(humidity_code(frame)), Temperature::with_raw(temperature_code(frame))))
    }
}

/// Both codes of any frame fit in twenty bits.
pub proof fn lemma_codes_in_range(frame: Seq<u8>)
    requires
        frame.len() == FRAME_LEN,
    ensures
        humidity_code(frame) < SCALE,
        temperature_code(frame) < SCALE,
{
}

/// The codes written with shifts and masks, as the sensor's data sheet
/// gives them.
pub proof fn lemma_codes_as_shifts(frame: Seq<u8>)
    requires
        frame.len() == FRAME_LEN,
    ensures
        humidity_code(frame) == ((frame[1] as u32) << 12) | ((frame[2] as u32) << 4) | ((frame[3] as u32)
            >> 4),
        temperature_code(frame) == (((frame[3] as u32) & 0x0f) << 16) | ((frame[4] as u32) << 8) | (
        frame[5] as u32),
{
    let b1: u8 = frame[1];
    let b2: u8 = frame[2];
    let b3: u8 = frame[3];
    let b4: u8 = frame[4];
    let b5: u8 = frame[5];
    assert(((b1 as u32) << 12) | ((b2 as u32) << 4) | ((b3 as u32) >> 4) == (b1 as u32) * 0x1000 + (b2 as u32)
        * 0x10 + (b3 as u32) / 0x10) by (bit_vector);
    assert((((b3 as u32) & 0x0f) << 16) | ((b4 as u32) << 8) | (b5 as u32) == ((b3 as u32) % 0x10) * 0x1_0000
        + (b4 as u32) * 0x100 + (b5 as u32)) by (bit_vector);
}

/// The five data bytes can be read back from the two codes, so no two
/// different byte tuples decode alike. Byte 3 is shared: its upper half
/// is the low end of the humidity code and its lower half the high end of
/// the temperature code, and neither half reaches the other code.
pub proof fn lemma_bytes_from_codes(frame: Seq<u8>)
    requires
        frame.len() == FRAME_LEN,
    ensures
        frame[1] == humidity_code(frame) / 0x1000,
        frame[2] == (humidity_code(frame) / 0x10) % 0x100,
        frame[3] == (humidity_code(frame) % 0x10) * 0x10 + temperature_code(frame) / 0x1_0000,
        frame[4] == (temperature_code(frame) / 0x100) % 0x100,
        frame[5] == temperature_code(frame) % 0x100,
{
}

/// Decoding is injective on the five data bytes: frames with equal codes
/// have equal data bytes.
pub proof fn lemma_decode_injective(a: Seq<u8>, b: Seq<u8>)
    requires
        a.len() == FRAME_LEN,
        b.len() == FRAME_LEN,
        humidity_code(a) == humidity_code(b),
        temperature_code(a) == temperature_code(b),
    ensures
        a.subrange(1, 6) == b.subrange(1, 6),
{
    lemma_bytes_from_codes(a);
    lemma_bytes_from_codes(b);
    assert(a.subrange(1, 6) =~= b.subrange(1, 6));
}

/// The humidity code is blind to the lower half of byte 3 and to bytes 4
/// and 5, and the temperature code is blind to bytes 1 and 2 and to the
/// upper half of byte 3.
pub proof fn lemma_codes_independent(a: Seq<u8>, b: Seq<u8>)
    requires
        a.len() == FRAME_LEN,
        b.len() == FRAME_LEN,
    ensures
        a[1] == b[1] && a[2] == b[2] && a[3] / 0x10 == b[3] / 0x10 ==> humidity_code(a) == humidity_code(b),
        a[3] % 0x10 == b[3] % 0x10 && a[4] == b[4] && a[5] == b[5] ==> temperature_code(a) == temperature_code(
            b,
        ),
{
}

/// Validates a frame against the checksum `computed` over its payload and
/// extracts the two readings.
///
/// The checksum is compared first; a frame that fails it is dropped
/// whatever else it holds. The calibration flag of the status byte is
/// looked at next. No unit conversion takes place here.
pub fn decode_checked<E>(frame: &[u8; 7], computed: u8) -> (result: Result<(Humidity, Temperature), Error<E>>)
    ensures
        result == decoded::<E>(frame@, computed),
        result is Ok <==> computed == frame[6] && calibrated(frame[0]),
        result == Err::<(Humidity, Temperature), Error<E>>(Error::Checksum) <==> computed != frame[6],
        result == Err::<(Humidity, Temperature), Error<E>>(Error::Uncalibrated) <==> computed == frame[6]
            && !calibrated(frame[0]),
        result matches Ok((humidity, temperature)) ==> humidity@ == humidity_code(frame@) && temperature@
            == temperature_code(frame@),
{
    if computed != frame[6] {
        return Err(Error::Checksum);
    }
    let status = StatusFlags::from_bits_retain(frame[0]);
    if !status.is_calibrated() {
        return Err(Error::Uncalibrated);
    }
    let b1: u32 = frame[1] as u32;
    let b2: u32 = frame[2] as u32;
    let b3: u32 = frame[3] as u32;
    let b4: u32 = frame[4] as u32;
    let b5: u32 = frame[5] as u32;
    let hum: u32 = (b1 << 12) | (b2 << 4) | (b3 >> 4);
    let temp: u32 = ((b3 & 0x0f) << 16) | (b4 << 8) | b5;
    proof {
        lemma_codes_as_shifts(frame@);
        lemma_codes_in_range(frame@);
    }
    Ok((Humidity::from_raw(hum), Temperature::from_raw(temp)))
}

/// Checks a frame's checksum and extracts the two readings.
pub fn decode<E>(frame: &[u8; 7]) -> (result: Result<(Humidity, Temperature), Error<E>>)
    ensures
        result == decoded::<E>(frame@, frame_crc(payload(frame@))),
        result is Ok <==> frame[6] == frame_crc(payload(frame@)) && calibrated(frame[0]),
        result == Err::<(Humidity, Temperature), Error<E>>(Error::Checksum) <==> frame[6] != frame_crc(
            payload(frame@),
        ),
        result == Err::<(Humidity, Temperature), Error<E>>(Error::Uncalibrated) <==> frame[6] == frame_crc(
            payload(frame@),
        ) && !calibrated(frame[0]),
        result matches Ok((humidity, temperature)) ==> humidity@ == humidity_code(frame@) && temperature@
            == temperature_code(frame@),
{
    let covered = slice_subrange(frame.as_slice(), 0, PAYLOAD_LEN);
    let computed = checksum(covered);
    decode_checked(frame, computed)
}

} // verus!
