use aht20::checksum::checksum;
use aht20::frame::decode;
use aht20::reading::SCALE;
use aht20::{Humidity, Temperature};

/// The readings that the sensor would send for two raw codes.
fn readings(humidity: u32, temperature: u32) -> (Humidity, Temperature) {
    assert!(humidity < SCALE && temperature < SCALE);
    let mut frame = [
        0x18,
        (humidity >> 12) as u8,
        (humidity >> 4) as u8,
        (((humidity & 0xF) << 4) | (temperature >> 16)) as u8,
        (temperature >> 8) as u8,
        temperature as u8,
        0,
    ];
    frame[6] = checksum(&frame[..6]);
    match decode::<()>(&frame) {
        Ok(pair) => pair,
        Err(error) => panic!("{:?}", error),
    }
}

fn rh(humidity: &Humidity) -> f32 {
    humidity.rh_scaled() as f32 / SCALE as f32
}

fn celsius(temperature: &Temperature) -> f32 {
    temperature.celsius_scaled() as f32 / SCALE as f32
}

#[test]
fn scale_is_two_to_the_twentieth() {
    assert_eq!(SCALE, 1 << 20);
}

#[test]
fn raw_codes_come_back_unchanged() {
    for code in [0, 1, 0xF, 0x10, 0xFFFF, 0x10000, 0x80000, 0xABCDE, 0xFFFFF] {
        let (humidity, temperature) = readings(code, 0xFFFFF - code);
        assert_eq!(humidity.raw(), code);
        assert_eq!(temperature.raw(), 0xFFFFF - code);
    }
}

#[test]
fn humidity_is_a_hundred_times_the_code() {
    for code in [0u32, 1, 2, 0x7FFFF, 0x80000, 0xFFFFE, 0xFFFFF] {
        let (humidity, _) = readings(code, 0);
        assert_eq!(humidity.rh_scaled(), 100 * code);
    }
}

#[test]
fn humidity_at_the_ends_of_the_range() {
    let (lowest, _) = readings(0, 0);
    let (highest, _) = readings(SCALE - 1, 0);
    assert_eq!(lowest.rh_scaled(), 0);
    assert_eq!(rh(&lowest), 0.0);
    assert_eq!(highest.rh_scaled(), 100 * SCALE - 100);
    assert!(rh(&highest) < 100.0);
    assert!(100.0 - rh(&highest) < 1e-4);
}

#[test]
fn humidity_at_the_middle_code() {
    let (middle, _) = readings(1 << 19, 0);
    assert_eq!(middle.rh_scaled(), 50 * SCALE);
    assert_eq!(rh(&middle), 50.0);
}

#[test]
fn humidity_grows_with_the_code() {
    let codes = [0u32, 1, 2, 3, 0x100, 0x7FFFF, 0x80000, 0x80001, 0xFFFFE, 0xFFFFF];
    for pair in codes.windows(2) {
        let (lower, _) = readings(pair[0], 0);
        let (higher, _) = readings(pair[1], 0);
        assert!(lower.rh_scaled() < higher.rh_scaled());
        assert!(rh(&lower) <= rh(&higher));
    }
}

#[test]
fn humidity_matches_the_float_formula() {
    for code in [0u32, 1, 0x199CA, 0x7FFFF, 0x80000, 0xC0000, 0xFFFFF] {
        let (humidity, _) = readings(code, 0);
        let expected = 100.0 * (code as f32) / ((1 << 20) as f32);
        assert_eq!(rh(&humidity), expected);
    }
}

#[test]
fn temperature_is_two_hundred_times_the_code_less_fifty() {
    for code in [0u32, 1, 0x40000, 0x80000, 0xFFFFF] {
        let (_, temperature) = readings(0, code);
        assert_eq!(temperature.celsius_scaled() as i64, 200 * code as i64 - 50 * SCALE as i64);
    }
}

#[test]
fn temperature_at_code_zero_is_fifty_below() {
    let (_, coldest) = readings(0, 0);
    assert_eq!(coldest.celsius_scaled(), -52_428_800);
    assert_eq!(celsius(&coldest), -50.0);
}

#[test]
fn temperature_at_the_middle_code_is_fifty_above() {
    let (_, middle) = readings(0, 1 << 19);
    assert_eq!(middle.celsius_scaled(), 52_428_800);
    assert_eq!(celsius(&middle), 50.0);
}

#[test]
fn temperature_at_a_quarter_is_zero() {
    let (_, freezing) = readings(0, 1 << 18);
    assert_eq!(freezing.celsius_scaled(), 0);
    assert_eq!(celsius(&freezing), 0.0);
}

#[test]
fn temperature_at_the_top_code() {
    let (_, hottest) = readings(0, SCALE - 1);
    assert_eq!(hottest.celsius_scaled(), 150 * SCALE as i32 - 200);
    assert!(celsius(&hottest) < 150.0);
}

#[test]
fn temperature_grows_with_the_code() {
    let codes = [0u32, 1, 2, 0x3FFFF, 0x40000, 0x40001, 0x80000, 0xFFFFE, 0xFFFFF];
    for pair in codes.windows(2) {
        let (_, lower) = readings(0, pair[0]);
        let (_, higher) = readings(0, pair[1]);
        assert!(lower.celsius_scaled() < higher.celsius_scaled());
    }
}

#[test]
fn temperature_matches_the_float_formula() {
    for code in [0u32, 1, 0x16A32, 0x40000, 0x80000, 0xFFFFF] {
        let (_, temperature) = readings(0, code);
        let expected = (200.0 * (code as f32) / ((1 << 20) as f32)) - 50.0;
        assert!((celsius(&temperature) - expected).abs() < 1e-4);
    }
}

#[test]
fn known_frame_in_physical_units() {
    let frame = [0x18, 0x19, 0x9C, 0xA1, 0x6A, 0x32, 0x89];
    let (humidity, temperature) = match decode::<()>(&frame) {
        Ok(pair) => pair,
        Err(error) => panic!("{:?}", error),
    };
    assert_eq!(humidity.raw(), 0x199CA);
    assert_eq!(temperature.raw(), 0x16A32);
    assert_eq!(humidity.rh_scaled(), 10_490_600);
    assert_eq!(temperature.celsius_scaled(), -33_884_400);
    assert!((rh(&humidity) - 10.004_616).abs() < 1e-4);
    assert!((celsius(&temperature) - -32.314_682).abs() < 1e-4);
}

#[test]
fn readings_compare_by_their_code() {
    let (a, s) = readings(7, 9);
    let (b, t) = readings(7, 9);
    let (c, u) = readings(8, 10);
    assert_eq!(a, b);
    assert_eq!(s, t);
    assert_ne!(a, c);
    assert_ne!(s, u);
}
