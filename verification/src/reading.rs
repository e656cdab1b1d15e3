//! The two readings that one measurement yields.
//!
//! The sensor reports each quantity as a 20-bit code. A reading keeps the
//! code as it came and converts it on demand. The conversions are exact:
//! they return the physical value multiplied by [`SCALE`], so that nothing
//! is rounded away.

use vstd::prelude::*;

verus! {

/// The number of distinct raw codes, 2^20. Physical values are reported
/// as multiples of one part in `SCALE`.
pub const SCALE: u32 = 0x10_0000;

/// Relative humidity in percent, times [`SCALE`], for a raw code.
pub open spec fn scaled_percent(raw: int) -> int {
    100 * raw
}

/// Temperature in degrees Celsius, times [`SCALE`], for a raw code.
pub open spec fn scaled_celsius(raw: int) -> int {
    200 * raw - 50 * SCALE
}

/// Humidity reading from AHT20.
#[derive(Clone, Copy, Debug, PartialEq, Eq)]
pub struct Humidity {
    h: u32,
}

/// Temperature reading from AHT20.
#[derive(Clone, Copy, Debug, PartialEq, Eq)]
pub struct Temperature {
    t: u32,
}

impl View for Humidity {
    type V = nat;

    /// The raw code.
    closed spec fn view(&self) -> nat {
        self.h as nat
    }
}

impl View for Temperature {
    type V = nat;

    /// The raw code.
    closed spec fn view(&self) -> nat {
        self.t as nat
    }
}

impl Humidity {
    #[verifier::type_invariant]
    spec fn in_range(&self) -> bool {
        self.h < SCALE
    }

    /// The reading that holds `raw`.
    pub closed spec fn with_raw(raw: nat) -> Humidity {
        Humidity { h: raw as u32 }
    }

    pub(crate) fn from_raw(raw: u32) -> (reading: Humidity)
        requires
            raw < SCALE,
        ensures
            reading == Humidity::with_raw(raw as nat),
            reading@ == raw,
    {
        Humidity { h: raw }
    }

    /// Raw humidity reading.
    pub fn raw(&self) -> (raw: u32)
        ensures
            raw == self@,
            raw < SCALE,
    {
        proof {
            use_type_invariant(self);
        }
        self.h
    }

    /// Relative humidity in percent, times [`SCALE`].
    pub fn rh_scaled(&self) -> (scaled: u32)
        ensures
            scaled == scaled_percent(self@ as int),
            scaled < 100 * SCALE,
    {
        proof {
            use_type_invariant(self);
        }
        100 * self.h
    }
}

impl Temperature {
    #[verifier::type_invariant]
    spec fn in_range(&self) -> bool {
        self.t < SCALE
    }

    /// The reading that holds `raw`.
    pub closed spec fn with_raw(raw: nat) -> Temperature {
        Temperature { t: raw as u32 }
    }

    pub(crate) fn from_raw(raw: u32) -> (reading: Temperature)
        requires
            raw < SCALE,
        ensures
            reading == Temperature::with_raw(raw as nat),
            reading@ == raw,
    {
        Temperature { t: raw }
    }

    /// Raw temperature reading.
    pub fn raw(&self) -> (raw: u32)
        ensures
            raw == self@,
            raw < SCALE,
    {
        proof {
            use_type_invariant(self);
        }
        self.t
    }

    /// Temperature in degrees Celsius, times [`SCALE`].
    pub fn celsius_scaled(&self) -> (scaled: i32)
        ensures
            scaled == scaled_celsius(self@ as int),
            -50 * SCALE <= scaled < 150 * SCALE,
    {
        proof {
            use_type_invariant(self);
        }
        let doubled: i32 = (200 * self.t) as i32;
        doubled - 50 * 0x10_0000
    }
}

/// A reading is its raw code and nothing more: `with_raw` of a 20-bit
/// code views as that code.
pub proof fn lemma_with_raw(raw: nat)
    requires
        raw < SCALE,
    ensures
        Humidity::with_raw(raw)@ == raw,
        Temperature::with_raw(raw)@ == raw,
{
}

/// Two humidity readings with one code are one reading.
pub proof fn lemma_humidity_by_code(a: Humidity, b: Humidity)
    requires
        a@ == b@,
    ensures
        a == b,
{
}

/// Two temperature readings with one code are one reading.
pub proof fn lemma_temperature_by_code(a: Temperature, b: Temperature)
    requires
        a@ == b@,
    ensures
        a == b,
{
}

/// Relative humidity is `100 * raw / 2^20` percent: zero at code zero,
/// strictly increasing with the code, and below one hundred percent at the
/// largest code by one hundred parts in 2^20.
pub proof fn lemma_humidity_scale(a: int, b: int)
    requires
        0 <= a < b < SCALE,
    ensures
        scaled_percent(0) == 0,
        scaled_percent(a) < scaled_percent(b),
        0 <= scaled_percent(a) < 100 * SCALE,
        scaled_percent(SCALE - 1) == 100 * SCALE - 100,
{
}

/// Temperature is `200 * raw / 2^20 - 50` degrees Celsius: fifty below
/// zero at code zero, fifty above at the middle code 2^19, and strictly
/// increasing with the code.
pub proof fn lemma_temperature_scale(a: int, b: int)
    requires
        0 <= a < b < SCALE,
    ensures
        scaled_celsius(0) == -50 * SCALE,
        scaled_celsius(0x8_0000) == 50 * SCALE,
        scaled_celsius(a) < scaled_celsius(b),
        -50 * SCALE <= scaled_celsius(a) < 150 * SCALE,
{
}

} // verus!
