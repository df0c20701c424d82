use authdecode::encodings::{Encoding, EncodingError, EncodingPair, FullEncodings};
use authdecode::utils::u8vec_to_boolvec;

fn pair(zero: u128, one: u128) -> EncodingPair {
    EncodingPair::new(Encoding::new(zero), Encoding::new(one))
}

#[test]
fn bits_are_msb_first() {
    // 0xA5 = 1010_0101
    let bits = u8vec_to_boolvec(&vec![0xA5u8]);
    assert_eq!(bits, vec![true, false, true, false, false, true, false, true]);
}

#[test]
fn bits_of_two_bytes() {
    let bits = u8vec_to_boolvec(&vec![0x80u8, 0x01u8]);
    let mut expected = vec![false; 16];
    expected[0] = true;
    expected[15] = true;
    assert_eq!(bits, expected);
}

#[test]
fn empty_full_encodings_invalid() {
    let r = FullEncodings::new(Vec::new());
    assert!(matches!(r, Err(EncodingError::InvalidLength)));
}

#[test]
fn encode_selects_pair_member_per_bit() {
    // one byte of plaintext, eight pairs; bit 1 selects the `one` member
    let pairs: Vec<EncodingPair> = (0..8).map(|i| pair(100 + i, 200 + i)).collect();
    let full = FullEncodings::new(pairs).unwrap();
    let bits = u8vec_to_boolvec(&vec![0xA5u8]);
    let active = full.encode(&bits).unwrap();
    let values: Vec<u128> = active.encodings.iter().map(|e| e.value).collect();
    assert_eq!(values, vec![200, 101, 202, 103, 104, 205, 106, 207]);
}

#[test]
fn encode_length_mismatch() {
    let pairs: Vec<EncodingPair> = (0..8).map(|i| pair(i, 1000 + i)).collect();
    let full = FullEncodings::new(pairs).unwrap();
    let bits = vec![true; 7];
    let r = full.encode(&bits);
    assert!(matches!(r, Err(EncodingError::LengthMismatch)));
}

#[test]
fn cloned_full_encodings_equal() {
    let pairs: Vec<EncodingPair> = (0..16).map(|i| pair(2 * i, 2 * i + 1)).collect();
    let full = FullEncodings::new(pairs).unwrap();
    let copy = full.clone();
    assert_eq!(copy.len(), full.len());
    for i in 0..full.len() {
        assert_eq!(copy.pairs()[i].zero.value, full.pairs()[i].zero.value);
        assert_eq!(copy.pairs()[i].one.value, full.pairs()[i].one.value);
    }
}
