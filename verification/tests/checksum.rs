use aht20::checksum::{checksum, FINAL_XOR, INITIAL, POLYNOMIAL, REFLECTED, WIDTH};

/// The checksum worked out bit by bit, to hold the library against.
fn bitwise(data: &[u8]) -> u8 {
    let mut register = 0xFFu8;
    for byte in data {
        register ^= *byte;
        for _ in 0..8 {
            register = if register & 0x80 != 0 { (register << 1) ^ 0x31 } else { register << 1 };
        }
    }
    register
}

#[test]
fn checksum_parameters() {
    assert_eq!(POLYNOMIAL, 49);
    assert_eq!(WIDTH, 8);
    assert_eq!(INITIAL, 0xFF);
    assert_eq!(FINAL_XOR, 0x00);
    assert!(!REFLECTED);
}

#[test]
fn checksum_of_the_check_string() {
    assert_eq!(checksum(b"123456789"), 0xF7);
}

#[test]
fn checksum_of_two_known_bytes() {
    assert_eq!(checksum(&[0xBE, 0xEF]), 0x92);
}

#[test]
fn checksum_of_a_known_payload() {
    assert_eq!(checksum(&[0x18, 0x19, 0x9C, 0xA1, 0x6A, 0x32]), 0x89);
}

#[test]
fn checksum_of_nothing_is_the_initial_value() {
    assert_eq!(checksum(&[]), 0xFF);
}

#[test]
fn checksum_of_uniform_payloads() {
    assert_eq!(checksum(&[0x00; 6]), 0x6A);
    assert_eq!(checksum(&[0xFF; 6]), 0x22);
}

#[test]
fn checksum_is_not_its_first_byte() {
    let payload = [0x18, 0x19, 0x9C, 0xA1, 0x6A, 0x32];
    assert_ne!(checksum(&payload), payload[0]);
    assert_ne!(checksum(&payload), payload[5]);
}

#[test]
fn checksum_agrees_with_bitwise_division() {
    let mut payload = [0u8; 6];
    let mut seed = 0x2545F491u32;
    for _ in 0..500 {
        for slot in payload.iter_mut() {
            seed ^= seed << 13;
            seed ^= seed >> 17;
            seed ^= seed << 5;
            *slot = (seed >> 11) as u8;
        }
        assert_eq!(checksum(&payload), bitwise(&payload));
    }
}

#[test]
fn every_single_bit_flip_changes_the_checksum() {
    let payload = [0x18, 0x19, 0x9C, 0xA1, 0x6A, 0x32];
    let good = checksum(&payload);
    for index in 0..payload.len() {
        for bit in 0..8 {
            let mut flipped = payload;
            flipped[index] ^= 1 << bit;
            assert_ne!(checksum(&flipped), good, "byte {} bit {}", index, bit);
        }
    }
}

#[test]
fn single_bit_flips_are_caught_in_other_payloads() {
    let payloads = [[0u8; 6], [0xFF; 6], [0x1C, 0x80, 0x00, 0x08, 0x00, 0x00], [1, 2, 3, 4, 5, 6]];
    for payload in payloads {
        let good = checksum(&payload);
        for index in 0..payload.len() {
            for bit in 0..8 {
                let mut flipped = payload;
                flipped[index] ^= 1 << bit;
                assert_ne!(checksum(&flipped), good);
            }
        }
    }
}
