use halo2curves::bn256::Fr;
use mlproof::envelope::MlParams;
use mlproof::error::Error;
use mlproof::field::{FieldElement, FIELD_BYTES};

fn small(v: u8) -> [u8; 32] {
    let mut b = [0u8; 32];
    b[0] = v;
    b
}

fn element(v: u8) -> FieldElement {
    FieldElement::from_bytes(small(v)).unwrap()
}

/// The field's order, little-endian.
fn modulus_le() -> [u8; 32] {
    let mut be: [u8; 32] = [
        0x30, 0x64, 0x4e, 0x72, 0xe1, 0x31, 0xa0, 0x29, 0xb8, 0x50, 0x45, 0xb6, 0x81, 0x81, 0x58,
        0x5d, 0x28, 0x33, 0xe8, 0x48, 0x79, 0xb9, 0x70, 0x91, 0x43, 0xe1, 0xf5, 0x93, 0xf0, 0x00,
        0x00, 0x01,
    ];
    be.reverse();
    be
}

fn raw_envelope(params: Vec<u8>, vals: Vec<u8>) -> Vec<u8> {
    bincode::serialize(&(params, vals)).unwrap()
}

#[test]
fn field_width_is_32() {
    assert_eq!(FIELD_BYTES, 32);
}

#[test]
fn small_numbers_are_canonical() {
    for v in [0u8, 1, 5, 12, 255] {
        let f = FieldElement::from_bytes(small(v)).expect("canonical");
        assert_eq!(f.to_bytes(), small(v));
    }
}

#[test]
fn element_bytes_agree_with_the_curve_library() {
    for v in [0u64, 5, 12, 1 << 40, u64::MAX] {
        let bytes = Fr::from(v).to_bytes();
        let f = FieldElement::from_bytes(bytes).expect("canonical");
        assert_eq!(f.to_bytes(), bytes);
        assert_eq!(&bytes[..8], &v.to_le_bytes());
        assert!(bytes[8..].iter().all(|b| *b == 0));
    }
}

#[test]
fn modulus_is_rejected_and_its_predecessor_accepted() {
    let m = modulus_le();
    assert!(FieldElement::from_bytes(m).is_none());
    let mut below = m;
    below[0] -= 1;
    let f = FieldElement::from_bytes(below).expect("modulus - 1 is canonical");
    assert_eq!(f.to_bytes(), below);
    assert_eq!(below, (-Fr::from(1u64)).to_bytes());
    let mut above = m;
    above[0] += 1;
    assert!(FieldElement::from_bytes(above).is_none());
}

#[test]
fn all_ones_is_rejected() {
    assert!(FieldElement::from_bytes([0xff; 32]).is_none());
}

#[test]
fn high_byte_decides_before_low_bytes() {
    // Top byte above the modulus's top byte, everything else zero.
    let mut b = [0u8; 32];
    b[31] = 0x31;
    assert!(FieldElement::from_bytes(b).is_none());
    // Top byte below it, everything else at its maximum.
    let mut c = [0xffu8; 32];
    c[31] = 0x2f;
    assert!(FieldElement::from_bytes(c).is_some());
}

#[test]
fn envelope_has_exact_layout() {
    let m = MlParams::new(vec![0xaa, 0xbb], vec![element(5)]);
    let bytes = m.to_vec().unwrap();
    let mut expected = vec![2u8, 0, 0, 0, 0, 0, 0, 0, 0xaa, 0xbb, 32, 0, 0, 0, 0, 0, 0, 0];
    expected.extend_from_slice(&small(5));
    assert_eq!(bytes, expected);
}

#[test]
fn empty_envelope_is_sixteen_zero_bytes() {
    let m = MlParams::new(vec![], vec![]);
    assert_eq!(m.to_vec().unwrap(), vec![0u8; 16]);
}

#[test]
fn envelope_round_trips() {
    let params: Vec<u8> = (0..=255u8).cycle().take(1000).collect();
    let vals = vec![element(5), element(12), element(0)];
    let m = MlParams::new(params.clone(), vals.clone());
    let bytes = m.to_vec().unwrap();
    let back = MlParams::from_reader(&bytes).unwrap();
    assert_eq!(back.params(), &params);
    assert_eq!(back.public_vals(), &vals);
    assert_eq!(back, m);
    assert_eq!(back.to_vec().unwrap(), bytes);
}

#[test]
fn round_trip_keeps_large_elements() {
    let mut below = modulus_le();
    below[0] -= 1;
    let top = FieldElement::from_bytes(below).unwrap();
    let m = MlParams::new(vec![7; 3], vec![top, element(1), top]);
    let back = MlParams::from_reader(&m.to_vec().unwrap()).unwrap();
    assert_eq!(back.public_vals().len(), 3);
    assert_eq!(back.public_vals()[0].to_bytes(), below);
    assert_eq!(back.public_vals()[1].to_bytes(), small(1));
    assert_eq!(back.public_vals()[2].to_bytes(), below);
}

#[test]
fn golden_envelope_length() {
    let params = vec![9u8; 4100];
    let m = MlParams::new(params.clone(), vec![element(5), element(12), element(0)]);
    let bytes = m.to_vec().unwrap();
    assert_eq!(bytes.len(), params.len() + 96 + 16);
    assert_eq!(&bytes[..8], &(4100u64).to_le_bytes());
    assert_eq!(&bytes[8 + 4100..16 + 4100], &(96u64).to_le_bytes());
    assert_eq!(&bytes[16 + 4100..16 + 4100 + 32], &small(5));
    assert_eq!(&bytes[16 + 4100 + 32..16 + 4100 + 64], &small(12));
    assert_eq!(&bytes[16 + 4100 + 64..], &small(0));
}

#[test]
fn encoding_matches_the_framing_library_on_raw_sections() {
    let m = MlParams::new(vec![1, 2, 3], vec![element(5), element(12)]);
    let mut section = small(5).to_vec();
    section.extend_from_slice(&small(12));
    assert_eq!(m.to_vec().unwrap(), raw_envelope(vec![1, 2, 3], section));
}

#[test]
fn public_values_not_multiple_of_32_is_malformed() {
    for len in [1usize, 31, 33, 63, 95] {
        let bytes = raw_envelope(vec![1, 2, 3], vec![0u8; len]);
        assert_eq!(MlParams::from_reader(&bytes), Err(Error::MalformedParameters));
    }
}

#[test]
fn length_is_checked_before_elements() {
    // 33 bytes whose first chunk is not canonical: the length decides.
    let bytes = raw_envelope(vec![], vec![0xffu8; 33]);
    assert_eq!(MlParams::from_reader(&bytes), Err(Error::MalformedParameters));
}

#[test]
fn non_canonical_chunk_is_invalid_field_element() {
    let mut section = small(5).to_vec();
    section.extend_from_slice(&modulus_le());
    section.extend_from_slice(&small(1));
    let bytes = raw_envelope(vec![4, 4], section);
    assert_eq!(MlParams::from_reader(&bytes), Err(Error::InvalidFieldElement));
}

#[test]
fn truncated_envelope_is_malformed() {
    let m = MlParams::new(vec![1, 2, 3, 4], vec![element(5), element(12), element(0)]);
    let bytes = m.to_vec().unwrap();
    for cut in [0usize, 1, 7, 8, 11, 12, 19, 20, 21, 52, bytes.len() - 1] {
        assert_eq!(
            MlParams::from_reader(&bytes[..cut]),
            Err(Error::MalformedParameters),
            "cut at {}",
            cut
        );
    }
}

#[test]
fn oversized_length_prefix_is_malformed() {
    let mut bytes = vec![0xffu8; 8];
    bytes.extend_from_slice(&[0u8; 64]);
    assert_eq!(MlParams::from_reader(&bytes), Err(Error::MalformedParameters));
    let mut second = vec![0u8; 8];
    second.extend_from_slice(&(u64::MAX - 7).to_le_bytes());
    second.extend_from_slice(&[0u8; 64]);
    assert_eq!(MlParams::from_reader(&second), Err(Error::MalformedParameters));
}

#[test]
fn trailing_bytes_are_ignored() {
    let m = MlParams::new(vec![1, 2, 3], vec![element(12)]);
    let mut bytes = m.to_vec().unwrap();
    bytes.extend_from_slice(&[0xde, 0xad]);
    assert_eq!(MlParams::from_reader(&bytes), Ok(m));
}

#[test]
fn altered_public_output_decodes_to_a_different_envelope() {
    let m = MlParams::new(vec![1, 2, 3], vec![element(5), element(12), element(0)]);
    let mut bytes = m.to_vec().unwrap();
    let at = 8 + 3 + 8 + 32;
    bytes[at] = 13;
    let back = MlParams::from_reader(&bytes).unwrap();
    assert_ne!(back, m);
    assert_eq!(back.public_vals()[1].to_bytes(), small(13));
    assert_eq!(back.public_vals()[0], m.public_vals()[0]);
    assert_eq!(back.params(), m.params());
}

#[test]
fn new_keeps_what_it_is_given() {
    let m = MlParams::new(vec![8, 9], vec![element(3)]);
    assert_eq!(m.params(), &vec![8u8, 9]);
    assert_eq!(m.public_vals(), &vec![element(3)]);
}

#[test]
fn error_messages_are_distinct() {
    let all = [
        Error::MalformedParameters,
        Error::InvalidFieldElement,
        Error::KeygenFailure,
        Error::CircuitInconsistency,
        Error::ProvingFailure,
    ];
    for (i, a) in all.iter().enumerate() {
        assert!(!a.message().is_empty());
        for b in all.iter().skip(i + 1) {
            assert_ne!(a.message(), b.message());
        }
    }
    assert_eq!(Error::MalformedParameters.message(), "malformed parameters");
}
