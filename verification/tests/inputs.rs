use dead_drop::inputs::{build_public_inputs, public_inputs_match, u32_to_field_bytes};
use dead_drop::types::bytes32_eq;

#[test]
fn field_element_is_zero_extended_big_endian() {
    let mut expected = [0u8; 32];
    expected[28] = 0x01;
    expected[29] = 0x02;
    expected[30] = 0x03;
    expected[31] = 0x04;
    assert_eq!(u32_to_field_bytes(0x0102_0304), expected);
    assert_eq!(u32_to_field_bytes(0), [0u8; 32]);

    let mut max = [0u8; 32];
    max[28..32].copy_from_slice(&[0xff; 4]);
    assert_eq!(u32_to_field_bytes(u32::MAX), max);

    let mut one = [0u8; 32];
    one[31] = 1;
    assert_eq!(u32_to_field_bytes(1), one);

    let mut big = [0u8; 32];
    big[28] = 0x80;
    assert_eq!(u32_to_field_bytes(0x8000_0000), big);
}

#[test]
fn field_element_agrees_with_to_be_bytes() {
    for value in [0u32, 1, 42, 99, 100, 255, 256, 65_535, 65_536, 16_777_215, 16_777_216, 1_000_000_000] {
        let element = u32_to_field_bytes(value);
        assert_eq!(&element[..28], &[0u8; 28]);
        assert_eq!(&element[28..], &value.to_be_bytes());
    }
}

#[test]
fn public_inputs_order_is_session_turn_x_y_commitment_distance() {
    let commitment = [0xabu8; 32];
    let inputs = build_public_inputs(42, 7, 50, 60, &commitment, 25);
    assert_eq!(inputs.len(), 6);
    assert_eq!(inputs[0], u32_to_field_bytes(42));
    assert_eq!(inputs[1], u32_to_field_bytes(7));
    assert_eq!(inputs[2], u32_to_field_bytes(50));
    assert_eq!(inputs[3], u32_to_field_bytes(60));
    assert_eq!(inputs[4], commitment);
    assert_eq!(inputs[5], u32_to_field_bytes(25));
    assert_eq!(inputs[0][31], 42);
    assert_eq!(inputs[5][31], 25);
}

#[test]
fn inputs_match_only_element_for_element() {
    let commitment = [0xabu8; 32];
    let expected = build_public_inputs(42, 7, 50, 60, &commitment, 25);
    assert!(public_inputs_match(&expected.clone(), &expected));

    let swapped = build_public_inputs(42, 7, 60, 50, &commitment, 25);
    assert!(!public_inputs_match(&swapped, &expected));

    let mut short = expected.clone();
    short.pop();
    assert!(!public_inputs_match(&short, &expected));
    assert!(!public_inputs_match(&expected, &short));

    let mut last_byte = expected.clone();
    last_byte[5][31] = 26;
    assert!(!public_inputs_match(&last_byte, &expected));

    let empty: Vec<[u8; 32]> = Vec::new();
    assert!(public_inputs_match(&empty, &empty));
}

#[test]
fn bytes32_eq_compares_every_byte() {
    let a = [5u8; 32];
    let mut b = [5u8; 32];
    assert!(bytes32_eq(&a, &b));
    b[31] = 6;
    assert!(!bytes32_eq(&a, &b));
    b[31] = 5;
    b[0] = 6;
    assert!(!bytes32_eq(&a, &b));
}
