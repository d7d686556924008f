//! The journal a distance proof commits to: 84 bytes, five little-endian
//! 32-bit numbers followed by the two players' commitments; and the
//! computation that fills it.

use vstd::prelude::*;
use crate::hash::{sha256, sha256_digest};
use crate::host::HostError;
use crate::types::{bytes32_eq, GRID_SIZE, MAX_DISTANCE};

verus! {

/// Length of an encoded journal.
pub const JOURNAL_LEN: usize = 84;

/// What a proof attests: a ping, its distance to the hidden drop, and the
/// commitments the drop was derived under.
#[derive(Debug, Clone, Copy, PartialEq, Eq)]
pub struct Journal {
    pub session_id: u32,
    pub turn: u32,
    pub distance: u32,
    pub x: u32,
    pub y: u32,
    pub commitment_a: [u8; 32],
    pub commitment_b: [u8; 32],
}

/// Everything the prover is given: the public ping, and both players'
/// secret halves of the drop with their salts and commitments.
#[derive(Debug, Clone, Copy, PartialEq, Eq)]
pub struct PingProofInput {
    pub session_id: u32,
    pub turn: u32,
    pub x: u32,
    pub y: u32,
    pub a_x: u32,
    pub a_y: u32,
    pub a_salt: [u8; 32],
    pub a_commitment: [u8; 32],
    pub b_x: u32,
    pub b_y: u32,
    pub b_salt: [u8; 32],
    pub b_commitment: [u8; 32],
}

/// Why the guest refuses to produce a journal.
#[derive(Debug, Clone, Copy, PartialEq, Eq, Structural)]
pub enum GuestError {
    PingOutOfBounds,
    SecretAOutOfBounds,
    SecretBOutOfBounds,
    CommitmentAMismatch,
    CommitmentBMismatch,
}

/// The four bytes of `value`, least significant first.
pub open spec fn le_bytes(value: u32) -> Seq<u8> {
    seq![
        (value % 256) as u8,
        (value / 256 % 256) as u8,
        (value / 65536 % 256) as u8,
        (value / 16777216) as u8,
    ]
}

/// The number whose little-endian bytes start at `at` in `bytes`.
pub open spec fn le_value(bytes: Seq<u8>, at: int) -> int {
    bytes[at] + bytes[at + 1] * 256 + bytes[at + 2] * 65536 + bytes[at + 3] * 16777216
}

/// The encoding of a journal with these fields.
pub open spec fn journal_bytes(
    session_id: u32,
    turn: u32,
    distance: u32,
    x: u32,
    y: u32,
    commitment_a: Seq<u8>,
    commitment_b: Seq<u8>,
) -> Seq<u8> {
    le_bytes(session_id) + le_bytes(turn) + le_bytes(distance) + le_bytes(x) + le_bytes(y)
        + commitment_a + commitment_b
}

impl Journal {
    /// The 84 bytes this journal is committed as.
    pub open spec fn encoding(self) -> Seq<u8> {
        journal_bytes(
            self.session_id,
            self.turn,
            self.distance,
            self.x,
            self.y,
            self.commitment_a@,
            self.commitment_b@,
        )
    }
}

/// The distance between `a` and `b` on a ring of `n` places: the shorter way round.
pub open spec fn wrapped(a: int, b: int, n: int) -> int {
    let direct = if a >= b {
        a - b
    } else {
        b - a
    };
    if direct < n - direct {
        direct
    } else {
        n - direct
    }
}

/// The wrapped Manhattan distance between two points of the grid.
pub open spec fn grid_distance(x: int, y: int, drop_x: int, drop_y: int) -> int {
    wrapped(x, drop_x, GRID_SIZE as int) + wrapped(y, drop_y, GRID_SIZE as int)
}

/// The commitment to one secret half: the digest of x, y (little endian) and the salt.
pub open spec fn commitment_of(x: u32, y: u32, salt: Seq<u8>) -> Seq<u8> {
    sha256_digest(le_bytes(x) + le_bytes(y) + salt)
}

/// The first reason for the guest to refuse `input`.
pub open spec fn guest_check(input: PingProofInput) -> Result<(), GuestError> {
    if input.x >= GRID_SIZE || input.y >= GRID_SIZE {
        Err(GuestError::PingOutOfBounds)
    } else if input.a_x >= GRID_SIZE || input.a_y >= GRID_SIZE {
        Err(GuestError::SecretAOutOfBounds)
    } else if input.b_x >= GRID_SIZE || input.b_y >= GRID_SIZE {
        Err(GuestError::SecretBOutOfBounds)
    } else if commitment_of(input.a_x, input.a_y, input.a_salt@) != input.a_commitment@ {
        Err(GuestError::CommitmentAMismatch)
    } else if commitment_of(input.b_x, input.b_y, input.b_salt@) != input.b_commitment@ {
        Err(GuestError::CommitmentBMismatch)
    } else {
        Ok(())
    }
}

/// The distance the guest attests: from the ping to the drop, which is the
/// sum of the two secret halves, taken on the grid.
pub open spec fn attested_distance(input: PingProofInput) -> int {
    grid_distance(
        input.x as int,
        input.y as int,
        (input.a_x + input.b_x) % (GRID_SIZE as int),
        (input.a_y + input.b_y) % (GRID_SIZE as int),
    )
}

/// On the grid no distance exceeds the largest one the contract accepts.
pub proof fn lemma_grid_distance_bounded(x: int, y: int, drop_x: int, drop_y: int)
    requires
        0 <= x < GRID_SIZE,
        0 <= y < GRID_SIZE,
        0 <= drop_x < GRID_SIZE,
        0 <= drop_y < GRID_SIZE,
    ensures
        0 <= grid_distance(x, y, drop_x, drop_y) <= MAX_DISTANCE,
        grid_distance(x, y, drop_x, drop_y) == 0 <==> x == drop_x && y == drop_y,
{
}

/// Little-endian bytes read back as the number they were made from, and
/// the other way round.
pub proof fn lemma_le_round_trip(value: u32, bytes: Seq<u8>, at: int)
    requires
        0 <= at,
        at + 4 <= bytes.len(),
    ensures
        le_bytes(value).len() == 4,
        le_value(le_bytes(value), 0) == value,
        0 <= le_value(bytes, at) <= u32::MAX,
        le_bytes(le_value(bytes, at) as u32) == bytes.subrange(at, at + 4),
{
    let v = le_value(bytes, at);
    assert(0 <= v <= u32::MAX);
    assert(v % 256 == bytes[at]);
    assert(v / 256 % 256 == bytes[at + 1]);
    assert(v / 65536 % 256 == bytes[at + 2]);
    assert(v / 16777216 == bytes[at + 3]);
    assert(le_bytes(v as u32) =~= bytes.subrange(at, at + 4));
}

/// Where each field lies in an encoded journal.
pub proof fn lemma_journal_layout(
    session_id: u32,
    turn: u32,
    distance: u32,
    x: u32,
    y: u32,
    commitment_a: Seq<u8>,
    commitment_b: Seq<u8>,
)
    requires
        commitment_a.len() == 32,
        commitment_b.len() == 32,
    ensures
        ({
            let e = journal_bytes(session_id, turn, distance, x, y, commitment_a, commitment_b);
            &&& e.len() == JOURNAL_LEN
            &&& e.subrange(0, 4) == le_bytes(session_id)
            &&& e.subrange(4, 8) == le_bytes(turn)
            &&& e.subrange(8, 12) == le_bytes(distance)
            &&& e.subrange(12, 16) == le_bytes(x)
            &&& e.subrange(16, 20) == le_bytes(y)
            &&& e.subrange(20, 52) == commitment_a
            &&& e.subrange(52, 84) == commitment_b
        }),
{
    let e = journal_bytes(session_id, turn, distance, x, y, commitment_a, commitment_b);
    let upto4 = le_bytes(session_id);
    let upto8 = upto4 + le_bytes(turn);
    let upto12 = upto8 + le_bytes(distance);
    let upto16 = upto12 + le_bytes(x);
    let upto20 = upto16 + le_bytes(y);
    let upto52 = upto20 + commitment_a;
    assert(e == upto52 + commitment_b);
    assert(upto4.len() == 4 && upto8.len() == 8 && upto12.len() == 12);
    assert(upto16.len() == 16 && upto20.len() == 20 && upto52.len() == 52);
    assert(e.subrange(52, 84) =~= commitment_b);
    assert(e.subrange(0, 52) =~= upto52);
    assert(upto52.subrange(20, 52) =~= commitment_a);
    assert(upto52.subrange(0, 20) =~= upto20);
    assert(upto20.subrange(16, 20) =~= le_bytes(y));
    assert(upto20.subrange(0, 16) =~= upto16);
    assert(upto16.subrange(12, 16) =~= le_bytes(x));
    assert(upto16.subrange(0, 12) =~= upto12);
    assert(upto12.subrange(8, 12) =~= le_bytes(distance));
    assert(upto12.subrange(0, 8) =~= upto8);
    assert(upto8.subrange(4, 8) =~= le_bytes(turn));
    assert(upto8.subrange(0, 4) =~= upto4);
    assert(e.subrange(20, 52) =~= e.subrange(0, 52).subrange(20, 52));
    assert(e.subrange(16, 20) =~= e.subrange(0, 52).subrange(0, 20).subrange(16, 20));
    assert(e.subrange(12, 16) =~= upto20.subrange(0, 16).subrange(12, 16));
    assert(e.subrange(8, 12) =~= upto16.subrange(0, 12).subrange(8, 12));
    assert(e.subrange(4, 8) =~= upto12.subrange(0, 8).subrange(4, 8));
    assert(e.subrange(0, 4) =~= upto8.subrange(0, 4));
}

/// A little-endian number is determined by its four bytes.
pub proof fn lemma_le_bytes_injective(a: u32, b: u32)
    requires
        le_bytes(a) == le_bytes(b),
    ensures
        a == b,
{
    lemma_le_round_trip(a, le_bytes(a), 0);
    lemma_le_round_trip(b, le_bytes(b), 0);
}

/// Two journals with the same encoding are the same journal.
pub proof fn lemma_encoding_injective(a: Journal, b: Journal)
    requires
        a.encoding() == b.encoding(),
    ensures
        a == b,
{
    lemma_journal_layout(
        a.session_id,
        a.turn,
        a.distance,
        a.x,
        a.y,
        a.commitment_a@,
        a.commitment_b@,
    );
    lemma_journal_layout(
        b.session_id,
        b.turn,
        b.distance,
        b.x,
        b.y,
        b.commitment_a@,
        b.commitment_b@,
    );
    lemma_le_bytes_injective(a.session_id, b.session_id);
    lemma_le_bytes_injective(a.turn, b.turn);
    lemma_le_bytes_injective(a.distance, b.distance);
    lemma_le_bytes_injective(a.x, b.x);
    lemma_le_bytes_injective(a.y, b.y);
    assert(a.commitment_a =~= b.commitment_a);
    assert(a.commitment_b =~= b.commitment_b);
}

/// The distance between `a` and `b` on a ring of `n` places.
pub fn abs_diff_wrapped(a: u32, b: u32, n: u32) -> (shortest: u32)
    requires
        a - b <= n,
        b - a <= n,
    ensures
        shortest == wrapped(a as int, b as int, n as int),
{
    let direct = if a >= b {
        a - b
    } else {
        b - a
    };
    let wrap = n - direct;
    if direct < wrap {
        direct
    } else {
        wrap
    }
}

fn read_le(bytes: &[u8], at: usize) -> (value: u32)
    requires
        at + 4 <= bytes@.len(),
    ensures
        value == le_value(bytes@, at as int),
{
    let b0 = bytes[at] as u32;
    let b1 = bytes[at + 1] as u32;
    let b2 = bytes[at + 2] as u32;
    let b3 = bytes[at + 3] as u32;
    b0 + b1 * 256 + b2 * 65536 + b3 * 16777216
}

fn read_32(bytes: &[u8], at: usize) -> (out: [u8; 32])
    requires
        at + 32 <= bytes@.len(),
    ensures
        out@ == bytes@.subrange(at as int, at + 32),
{
    let len = bytes.len();
    let mut out = [0u8; 32];
    let mut i: usize = 0;
    while i < 32
        invariant
            i <= 32,
            at + 32 <= len == bytes@.len(),
            forall|j: int| 0 <= j < i ==> out[j] == bytes@[at + j],
        decreases 32 - i,
    {
        out[i] = bytes[at + i];
        i += 1;
    }
    assert(out@ =~= bytes@.subrange(at as int, at + 32));
    out
}

/// Reads a journal back from its encoding. Succeeds exactly on 84 bytes.
pub fn decode_journal(bytes: &[u8]) -> (decoded: Result<Journal, HostError>)
    ensures
        decoded is Ok <==> bytes@.len() == JOURNAL_LEN,
        decoded is Err ==> decoded == Err::<Journal, HostError>(HostError::JournalLength),
        decoded matches Ok(journal) ==> {
            &&& journal.encoding() == bytes@
            &&& journal.session_id == le_value(bytes@, 0)
            &&& journal.turn == le_value(bytes@, 4)
            &&& journal.distance == le_value(bytes@, 8)
            &&& journal.x == le_value(bytes@, 12)
            &&& journal.y == le_value(bytes@, 16)
            &&& journal.commitment_a@ == bytes@.subrange(20, 52)
            &&& journal.commitment_b@ == bytes@.subrange(52, 84)
        },
{
    if bytes.len() != JOURNAL_LEN {
        return Err(HostError::JournalLength);
    }
    let journal = Journal {
        session_id: read_le(bytes, 0),
        turn: read_le(bytes, 4),
        distance: read_le(bytes, 8),
        x: read_le(bytes, 12),
        y: read_le(bytes, 16),
        commitment_a: read_32(bytes, 20),
        commitment_b: read_32(bytes, 52),
    };
    proof {
        lemma_le_round_trip(0, bytes@, 0);
        lemma_le_round_trip(0, bytes@, 4);
        lemma_le_round_trip(0, bytes@, 8);
        lemma_le_round_trip(0, bytes@, 12);
        lemma_le_round_trip(0, bytes@, 16);
        lemma_journal_layout(
            journal.session_id,
            journal.turn,
            journal.distance,
            journal.x,
            journal.y,
            journal.commitment_a@,
            journal.commitment_b@,
        );
        let e = journal.encoding();
        assert forall|i: int| 0 <= i < 84 implies e[i] == bytes@[i] by {
            if i < 4 {
                assert(e[i] == e.subrange(0, 4)[i]);
                assert(bytes@[i] == bytes@.subrange(0, 4)[i]);
            } else if i < 8 {
                assert(e[i] == e.subrange(4, 8)[i - 4]);
                assert(bytes@[i] == bytes@.subrange(4, 8)[i - 4]);
            } else if i < 12 {
                assert(e[i] == e.subrange(8, 12)[i - 8]);
                assert(bytes@[i] == bytes@.subrange(8, 12)[i - 8]);
            } else if i < 16 {
                assert(e[i] == e.subrange(12, 16)[i - 12]);
                assert(bytes@[i] == bytes@.subrange(12, 16)[i - 12]);
            } else if i < 20 {
                assert(e[i] == e.subrange(16, 20)[i - 16]);
                assert(bytes@[i] == bytes@.subrange(16, 20)[i - 16]);
            } else if i < 52 {
                assert(e[i] == e.subrange(20, 52)[i - 20]);
                assert(bytes@[i] == bytes@.subrange(20, 52)[i - 20]);
            } else {
                assert(e[i] == e.subrange(52, 84)[i - 52]);
                assert(bytes@[i] == bytes@.subrange(52, 84)[i - 52]);
            }
        }
        assert(e =~= bytes@);
    }
    Ok(journal)
}

fn write_le(out: &mut [u8; 84], at: usize, value: u32)
    requires
        at + 4 <= 84,
    ensures
        final(out)@ == old(out)@.subrange(0, at as int) + le_bytes(value) + old(out)@.subrange(
            at + 4,
            84,
        ),
{
    out[at] = (value % 256) as u8;
    out[at + 1] = (value / 256 % 256) as u8;
    out[at + 2] = (value / 65536 % 256) as u8;
    out[at + 3] = (value / 16777216) as u8;
    assert(out@ =~= old(out)@.subrange(0, at as int) + le_bytes(value) + old(out)@.subrange(
        at + 4,
        84,
    ));
}

fn write_32(out: &mut [u8; 84], at: usize, value: &[u8; 32])
    requires
        at + 32 <= 84,
    ensures
        final(out)@ == old(out)@.subrange(0, at as int) + value@ + old(out)@.subrange(at + 32, 84),
{
    let mut i: usize = 0;
    while i < 32
        invariant
            i <= 32,
            at + 32 <= 84,
            forall|j: int| 0 <= j < at ==> out[j] == old(out)[j],
            forall|j: int| 0 <= j < i ==> out[at + j] == value[j],
            forall|j: int| at + 32 <= j < 84 ==> out[j] == old(out)[j],
        decreases 32 - i,
    {
        out[at + i] = value[i];
        i += 1;
    }
    assert(out@ =~= old(out)@.subrange(0, at as int) + value@ + old(out)@.subrange(at + 32, 84));
}

/// Encodes a journal with these fields.
pub fn encode_journal(
    session_id: u32,
    turn: u32,
    distance: u32,
    x: u32,
    y: u32,
    commitment_a: &[u8; 32],
    commitment_b: &[u8; 32],
) -> (out: [u8; 84])
    ensures
        out@ == journal_bytes(session_id, turn, distance, x, y, commitment_a@, commitment_b@),
{
    let mut out = [0u8; 84];
    write_le(&mut out, 0, session_id);
    write_le(&mut out, 4, turn);
    write_le(&mut out, 8, distance);
    write_le(&mut out, 12, x);
    write_le(&mut out, 16, y);
    write_32(&mut out, 20, commitment_a);
    write_32(&mut out, 52, commitment_b);
    assert(out@ =~= journal_bytes(
        session_id,
        turn,
        distance,
        x,
        y,
        commitment_a@,
        commitment_b@,
    ));
    out
}

fn commit(x: u32, y: u32, salt: &[u8; 32]) -> (digest: [u8; 32])
    ensures
        digest@ == commitment_of(x, y, salt@),
{
    let mut message: Vec<u8> = Vec::new();
    message.push((x % 256) as u8);
    message.push((x / 256 % 256) as u8);
    message.push((x / 65536 % 256) as u8);
    message.push((x / 16777216) as u8);
    message.push((y % 256) as u8);
    message.push((y / 256 % 256) as u8);
    message.push((y / 65536 % 256) as u8);
    message.push((y / 16777216) as u8);
    let mut i: usize = 0;
    while i < 32
        invariant
            i <= 32,
            message@ == le_bytes(x) + le_bytes(y) + salt@.take(i as int),
        decreases 32 - i,
    {
        message.push(salt[i]);
        assert(salt@.take(i as int).push(salt@[i as int]) == salt@.take(i + 1));
        i += 1;
    }
    assert(salt@.take(32) == salt@);
    sha256(message.as_slice())
}

/// What the guest computes from its input: it checks the ping and both
/// secret halves against the grid and the halves against their commitments,
/// derives the drop, measures the ping's distance to it, and encodes the
/// journal.
pub fn ping_journal(input: &PingProofInput) -> (journal: Result<[u8; 84], GuestError>)
    ensures
        match journal {
            Ok(bytes) => guest_check(*input) is Ok && bytes@ == journal_bytes(
                input.session_id,
                input.turn,
                attested_distance(*input) as u32,
                input.x,
                input.y,
                input.a_commitment@,
                input.b_commitment@,
            ) && attested_distance(*input) <= MAX_DISTANCE,
            Err(e) => guest_check(*input) == Err::<(), GuestError>(e),
        },
{
    if input.x >= GRID_SIZE || input.y >= GRID_SIZE {
        return Err(GuestError::PingOutOfBounds);
    }
    if input.a_x >= GRID_SIZE || input.a_y >= GRID_SIZE {
        return Err(GuestError::SecretAOutOfBounds);
    }
    if input.b_x >= GRID_SIZE || input.b_y >= GRID_SIZE {
        return Err(GuestError::SecretBOutOfBounds);
    }
    let computed_a = commit(input.a_x, input.a_y, &input.a_salt);
    if !bytes32_eq(&computed_a, &input.a_commitment) {
        return Err(GuestError::CommitmentAMismatch);
    }
    let computed_b = commit(input.b_x, input.b_y, &input.b_salt);
    if !bytes32_eq(&computed_b, &input.b_commitment) {
        return Err(GuestError::CommitmentBMismatch);
    }
    let drop_x = (input.a_x + input.b_x) % GRID_SIZE;
    let drop_y = (input.a_y + input.b_y) % GRID_SIZE;
    let dx = abs_diff_wrapped(input.x, drop_x, GRID_SIZE);
    let dy = abs_diff_wrapped(input.y, drop_y, GRID_SIZE);
    let distance = dx + dy;
    proof {
        lemma_grid_distance_bounded(input.x as int, input.y as int, drop_x as int, drop_y as int);
    }
    Ok(
        encode_journal(
            input.session_id,
            input.turn,
            distance,
            input.x,
            input.y,
            &input.a_commitment,
            &input.b_commitment,
        ),
    )
}

} // verus!
