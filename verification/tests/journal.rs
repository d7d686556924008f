use dead_drop::hash::sha256;
use dead_drop::journal::{
    abs_diff_wrapped, decode_journal, encode_journal, ping_journal, GuestError, Journal,
    PingProofInput, JOURNAL_LEN,
};
use dead_drop::HostError;

fn commit(x: u32, y: u32, salt: &[u8; 32]) -> [u8; 32] {
    let mut message = Vec::new();
    message.extend_from_slice(&x.to_le_bytes());
    message.extend_from_slice(&y.to_le_bytes());
    message.extend_from_slice(salt);
    sha256(&message)
}

fn input(x: u32, y: u32, a: (u32, u32), b: (u32, u32)) -> PingProofInput {
    let a_salt = [1u8; 32];
    let b_salt = [2u8; 32];
    PingProofInput {
        session_id: 42,
        turn: 3,
        x,
        y,
        a_x: a.0,
        a_y: a.1,
        a_salt,
        a_commitment: commit(a.0, a.1, &a_salt),
        b_x: b.0,
        b_y: b.1,
        b_salt,
        b_commitment: commit(b.0, b.1, &b_salt),
    }
}

#[test]
fn wrapped_difference_takes_the_shorter_way() {
    assert_eq!(abs_diff_wrapped(3, 98, 100), 5);
    assert_eq!(abs_diff_wrapped(98, 3, 100), 5);
    assert_eq!(abs_diff_wrapped(0, 50, 100), 50);
    assert_eq!(abs_diff_wrapped(0, 49, 100), 49);
    assert_eq!(abs_diff_wrapped(0, 51, 100), 49);
    assert_eq!(abs_diff_wrapped(10, 10, 100), 0);
    assert_eq!(abs_diff_wrapped(0, 99, 100), 1);
    assert_eq!(abs_diff_wrapped(0, 100, 100), 0);
    assert_eq!(abs_diff_wrapped(7, 2, 5), 0);
}

#[test]
fn journal_is_little_endian_fields_then_commitments() {
    let a = [0xaau8; 32];
    let b = [0xbbu8; 32];
    let bytes = encode_journal(0x0102_0304, 5, 100, 99, 0, &a, &b);
    assert_eq!(bytes.len(), JOURNAL_LEN);
    assert_eq!(&bytes[0..4], &[4, 3, 2, 1]);
    assert_eq!(&bytes[4..8], &[5, 0, 0, 0]);
    assert_eq!(&bytes[8..12], &[100, 0, 0, 0]);
    assert_eq!(&bytes[12..16], &[99, 0, 0, 0]);
    assert_eq!(&bytes[16..20], &[0, 0, 0, 0]);
    assert_eq!(&bytes[20..52], &a);
    assert_eq!(&bytes[52..84], &b);
}

#[test]
fn journal_round_trips() {
    let journal = Journal {
        session_id: u32::MAX,
        turn: 29,
        distance: 0x0001_0000,
        x: 256,
        y: 0x0100_0000,
        commitment_a: [3; 32],
        commitment_b: [4; 32],
    };
    let bytes = encode_journal(
        journal.session_id,
        journal.turn,
        journal.distance,
        journal.x,
        journal.y,
        &journal.commitment_a,
        &journal.commitment_b,
    );
    assert_eq!(decode_journal(&bytes), Ok(journal));

    let mut raw = [0u8; 84];
    for (i, byte) in raw.iter_mut().enumerate() {
        *byte = i as u8;
    }
    let decoded = decode_journal(&raw).unwrap();
    assert_eq!(decoded.session_id, u32::from_le_bytes([0, 1, 2, 3]));
    assert_eq!(decoded.turn, u32::from_le_bytes([4, 5, 6, 7]));
    assert_eq!(decoded.distance, u32::from_le_bytes([8, 9, 10, 11]));
    assert_eq!(decoded.x, u32::from_le_bytes([12, 13, 14, 15]));
    assert_eq!(decoded.y, u32::from_le_bytes([16, 17, 18, 19]));
    assert_eq!(&decoded.commitment_a[..], &raw[20..52]);
    assert_eq!(&decoded.commitment_b[..], &raw[52..84]);
    let again = encode_journal(
        decoded.session_id,
        decoded.turn,
        decoded.distance,
        decoded.x,
        decoded.y,
        &decoded.commitment_a,
        &decoded.commitment_b,
    );
    assert_eq!(again, raw);
}

#[test]
fn journal_of_any_other_length_is_refused() {
    assert_eq!(decode_journal(&[0u8; 83]), Err(HostError::JournalLength));
    assert_eq!(decode_journal(&[0u8; 85]), Err(HostError::JournalLength));
    assert_eq!(decode_journal(&[]), Err(HostError::JournalLength));
    assert!(decode_journal(&[0u8; 84]).is_ok());
}

#[test]
fn guest_measures_the_distance_to_the_summed_drop() {
    // drop = (10 + 30, 20 + 40) = (40, 60)
    let bytes = ping_journal(&input(50, 60, (10, 20), (30, 40))).unwrap();
    let journal = decode_journal(&bytes).unwrap();
    assert_eq!(journal.distance, 10);
    assert_eq!(journal.session_id, 42);
    assert_eq!(journal.turn, 3);
    assert_eq!(journal.x, 50);
    assert_eq!(journal.y, 60);
    assert_eq!(journal.commitment_a, commit(10, 20, &[1; 32]));
    assert_eq!(journal.commitment_b, commit(30, 40, &[2; 32]));

    // both axes wrap: |95 - 40| = 55 -> 45, |5 - 60| = 55 -> 45
    let bytes = ping_journal(&input(95, 5, (10, 20), (30, 40))).unwrap();
    assert_eq!(decode_journal(&bytes).unwrap().distance, 90);

    // the halves wrap too: drop = ((60 + 70) % 100, (99 + 1) % 100) = (30, 0)
    let bytes = ping_journal(&input(30, 0, (60, 99), (70, 1))).unwrap();
    assert_eq!(decode_journal(&bytes).unwrap().distance, 0);

    // the farthest point from (0, 0)
    let bytes = ping_journal(&input(50, 50, (0, 0), (0, 0))).unwrap();
    assert_eq!(decode_journal(&bytes).unwrap().distance, 100);
}

#[test]
fn guest_refuses_in_order() {
    let good = input(50, 60, (10, 20), (30, 40));
    assert_eq!(
        ping_journal(&PingProofInput { x: 100, a_x: 100, ..good }),
        Err(GuestError::PingOutOfBounds)
    );
    assert_eq!(ping_journal(&PingProofInput { y: 100, ..good }), Err(GuestError::PingOutOfBounds));
    assert_eq!(
        ping_journal(&PingProofInput { a_y: 100, b_x: 100, ..good }),
        Err(GuestError::SecretAOutOfBounds)
    );
    assert_eq!(
        ping_journal(&PingProofInput { b_x: 100, a_salt: [9; 32], ..good }),
        Err(GuestError::SecretBOutOfBounds)
    );
    assert_eq!(
        ping_journal(&PingProofInput { a_salt: [9; 32], b_salt: [9; 32], ..good }),
        Err(GuestError::CommitmentAMismatch)
    );
    assert_eq!(
        ping_journal(&PingProofInput { b_y: 41, ..good }),
        Err(GuestError::CommitmentBMismatch)
    );
    assert!(ping_journal(&good).is_ok());
}

#[test]
fn sha256_of_known_messages() {
    assert_eq!(
        sha256(b"abc"),
        [
            0xba, 0x78, 0x16, 0xbf, 0x8f, 0x01, 0xcf, 0xea, 0x41, 0x41, 0x40, 0xde, 0x5d, 0xae,
            0x22, 0x23, 0xb0, 0x03, 0x61, 0xa3, 0x96, 0x17, 0x7a, 0x9c, 0xb4, 0x10, 0xff, 0x61,
            0xf2, 0x00, 0x15, 0xad
        ]
    );
    assert_eq!(
        sha256(b""),
        [
            0xe3, 0xb0, 0xc4, 0x42, 0x98, 0xfc, 0x1c, 0x14, 0x9a, 0xfb, 0xf4, 0xc8, 0x99, 0x6f,
            0xb9, 0x24, 0x27, 0xae, 0x41, 0xe4, 0x64, 0x9b, 0x93, 0x4c, 0xa4, 0x95, 0x99, 0x1b,
            0x78, 0x52, 0xb8, 0x55
        ]
    );
    assert_ne!(sha256(&[7u8; 32]), [7u8; 32]);
}
