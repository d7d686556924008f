//! The public-input vector of a distance proof, rebuilt from what the
//! contract knows.
//!
//! Order and width are fixed by the circuit: session id, turn, x, y, the drop
//! commitment, the distance; each one 32-byte big-endian field element.

use vstd::prelude::*;
use crate::types::bytes32_eq;

verus! {

/// The base-256 digit of `value` at `place`, place 0 being the least significant.
pub open spec fn digit(value: u32, place: int) -> u8 {
    if place == 0 {
        (value % 256) as u8
    } else if place == 1 {
        (value / 256 % 256) as u8
    } else if place == 2 {
        (value / 65536 % 256) as u8
    } else if place == 3 {
        (value / 16777216) as u8
    } else {
        0
    }
}

/// `value` zero-extended to 32 bytes, most significant byte first.
pub open spec fn field_bytes(value: u32) -> Seq<u8> {
    Seq::new(32, |i: int| digit(value, 31 - i))
}

/// The number a 32-byte big-endian element stands for, as far as its last four bytes go.
pub open spec fn field_value(bytes: Seq<u8>) -> int {
    bytes[28] * 16777216 + bytes[29] * 65536 + bytes[30] * 256 + bytes[31]
}

/// The byte sequences held by a vector of field elements.
pub open spec fn elements(inputs: Seq<[u8; 32]>) -> Seq<Seq<u8>> {
    Seq::new(inputs.len(), |i: int| inputs[i]@)
}

/// The vector a proof for this ping must be defined over.
pub open spec fn expected_inputs(
    session_id: u32,
    turn: u32,
    ping_x: u32,
    ping_y: u32,
    drop_commitment: Seq<u8>,
    distance: u32,
) -> Seq<Seq<u8>> {
    seq![
        field_bytes(session_id),
        field_bytes(turn),
        field_bytes(ping_x),
        field_bytes(ping_y),
        drop_commitment,
        field_bytes(distance),
    ]
}

/// A field element reads back as the number it was made from.
pub proof fn lemma_field_value(value: u32)
    ensures
        field_bytes(value).len() == 32,
        field_value(field_bytes(value)) == value,
        forall|i: int| 0 <= i < 28 ==> field_bytes(value)[i] == 0,
{
}

/// Two numbers with the same field element are the same number.
pub proof fn lemma_field_bytes_injective(a: u32, b: u32)
    requires
        field_bytes(a) == field_bytes(b),
    ensures
        a == b,
{
    lemma_field_value(a);
    lemma_field_value(b);
}

/// Two pings with the same expected vector agree on every public value: a
/// proof accepted for one vector cannot stand for another session, turn,
/// coordinate, commitment or distance.
pub proof fn lemma_expected_inputs_injective(
    session_a: u32,
    turn_a: u32,
    x_a: u32,
    y_a: u32,
    commitment_a: Seq<u8>,
    distance_a: u32,
    session_b: u32,
    turn_b: u32,
    x_b: u32,
    y_b: u32,
    commitment_b: Seq<u8>,
    distance_b: u32,
)
    requires
        expected_inputs(session_a, turn_a, x_a, y_a, commitment_a, distance_a) == expected_inputs(
            session_b,
            turn_b,
            x_b,
            y_b,
            commitment_b,
            distance_b,
        ),
    ensures
        session_a == session_b,
        turn_a == turn_b,
        x_a == x_b,
        y_a == y_b,
        commitment_a == commitment_b,
        distance_a == distance_b,
{
    let a = expected_inputs(session_a, turn_a, x_a, y_a, commitment_a, distance_a);
    let b = expected_inputs(session_b, turn_b, x_b, y_b, commitment_b, distance_b);
    assert(a[0] == b[0] && a[1] == b[1] && a[2] == b[2] && a[3] == b[3] && a[4] == b[4] && a[5]
        == b[5]);
    lemma_field_bytes_injective(session_a, session_b);
    lemma_field_bytes_injective(turn_a, turn_b);
    lemma_field_bytes_injective(x_a, x_b);
    lemma_field_bytes_injective(y_a, y_b);
    lemma_field_bytes_injective(distance_a, distance_b);
}

/// Packs `value` into a field element.
pub fn u32_to_field_bytes(value: u32) -> (element: [u8; 32])
    ensures
        element@ == field_bytes(value),
{
    let mut buf = [0u8; 32];
    buf[28] = (value / 16777216) as u8;
    buf[29] = (value / 65536 % 256) as u8;
    buf[30] = (value / 256 % 256) as u8;
    buf[31] = (value % 256) as u8;
    assert(buf@ =~= field_bytes(value));
    buf
}

/// Rebuilds the vector that a proof for this ping must carry.
pub fn build_public_inputs(
    session_id: u32,
    turn: u32,
    ping_x: u32,
    ping_y: u32,
    drop_commitment: &[u8; 32],
    distance: u32,
) -> (inputs: Vec<[u8; 32]>)
    ensures
        elements(inputs@) == expected_inputs(
            session_id,
            turn,
            ping_x,
            ping_y,
            drop_commitment@,
            distance,
        ),
{
    let mut inputs: Vec<[u8; 32]> = Vec::new();
    inputs.push(u32_to_field_bytes(session_id));
    inputs.push(u32_to_field_bytes(turn));
    inputs.push(u32_to_field_bytes(ping_x));
    inputs.push(u32_to_field_bytes(ping_y));
    inputs.push(*drop_commitment);
    inputs.push(u32_to_field_bytes(distance));
    assert(elements(inputs@) =~= expected_inputs(
        session_id,
        turn,
        ping_x,
        ping_y,
        drop_commitment@,
        distance,
    ));
    inputs
}

/// Whether the submitted vector is, element for element, the expected one.
pub fn public_inputs_match(submitted: &Vec<[u8; 32]>, expected: &Vec<[u8; 32]>) -> (same: bool)
    ensures
        same == (elements(submitted@) == elements(expected@)),
{
    if submitted.len() != expected.len() {
        assert(elements(submitted@).len() != elements(expected@).len());
        return false;
    }
    let mut i: usize = 0;
    while i < submitted.len()
        invariant
            i <= submitted.len(),
            submitted.len() == expected.len(),
            forall|j: int| 0 <= j < i ==> submitted@[j]@ == expected@[j]@,
        decreases submitted.len() - i,
    {
        if !bytes32_eq(&submitted[i], &expected[i]) {
            assert(elements(submitted@)[i as int] != elements(expected@)[i as int]);
            return false;
        }
        i += 1;
    }
    assert(elements(submitted@) =~= elements(expected@));
    true
}

} // verus!
