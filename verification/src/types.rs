//! Identities, records and error codes shared by every component.

use vstd::prelude::*;
use vstd::std_specs::cmp::PartialEqSpecImpl;

verus! {

/// Ledgers an entry stays alive after it was last written (about 30 days).
pub const GAME_TTL_LEDGERS: u32 = 518_400;

/// Pings in a full match; each player gets half of them.
pub const MAX_TURNS: u32 = 30;

/// Side length of the toroidal grid.
pub const GRID_SIZE: u32 = 100;

/// Largest wrapped Manhattan distance on the grid.
pub const MAX_DISTANCE: u32 = 100;

/// Ledgers of silence after which a participant may claim the match.
pub const TIMEOUT_LEDGERS: u32 = 600;

/// Best distance of a player who has not pinged yet.
pub const NO_DISTANCE: u32 = u32::MAX;

/// Arity of the public-input vector of a distance proof.
pub const NUM_PUBLIC_INPUTS: usize = 6;

/// Whether two 32-byte values hold the same bytes.
pub fn bytes32_eq(a: &[u8; 32], b: &[u8; 32]) -> (same: bool)
    ensures
        same == (*a == *b),
        same == (a@ == b@),
{
    let mut i: usize = 0;
    while i < 32
        invariant
            i <= 32,
            forall|j: int| 0 <= j < i ==> a[j] == b[j],
        decreases 32 - i,
    {
        if a[i] != b[i] {
            return false;
        }
        i += 1;
    }
    assert(a =~= b);
    true
}

/// An identity on the ledger: an account key or a contract hash.
#[derive(Clone, Copy, Debug, Eq)]
pub enum Address {
    Account([u8; 32]),
    Contract([u8; 32]),
}

impl PartialEq for Address {
    fn eq(&self, other: &Address) -> (same: bool) {
        match (self, other) {
            (Address::Account(a), Address::Account(b)) => bytes32_eq(a, b),
            (Address::Contract(a), Address::Contract(b)) => bytes32_eq(a, b),
            _ => false,
        }
    }
}

impl PartialEqSpecImpl for Address {
    open spec fn obeys_eq_spec() -> bool {
        true
    }

    open spec fn eq_spec(&self, other: &Address) -> bool {
        *self == *other
    }
}

/// Why an operation was refused.
#[derive(Copy, Clone, Debug, PartialEq, Eq, Structural, PartialOrd, Ord)]
pub enum Error {
    GameNotFound,
    NotPlayer,
    GameAlreadyEnded,
    InvalidGameStatus,
    NotYourTurn,
    InvalidTurn,
    InvalidPublicInputs,
    ProofVerificationFailed,
    TimeoutNotReached,
    InvalidDistance,
    MaxTurnsReached,
    LobbyNotFound,
    LobbyAlreadyExists,
    SelfPlay,
    RandomnessVerificationFailed,
}

impl Error {
    /// The stable number under which the error is reported; 5 and 9 stay unused.
    pub open spec fn spec_code(self) -> u32 {
        match self {
            Error::GameNotFound => 1,
            Error::NotPlayer => 2,
            Error::GameAlreadyEnded => 3,
            Error::InvalidGameStatus => 4,
            Error::NotYourTurn => 6,
            Error::InvalidTurn => 7,
            Error::InvalidPublicInputs => 8,
            Error::ProofVerificationFailed => 10,
            Error::TimeoutNotReached => 11,
            Error::InvalidDistance => 12,
            Error::MaxTurnsReached => 13,
            Error::LobbyNotFound => 14,
            Error::LobbyAlreadyExists => 15,
            Error::SelfPlay => 16,
            Error::RandomnessVerificationFailed => 17,
        }
    }

    /// The stable number under which the error is reported.
    #[verifier::when_used_as_spec(spec_code)]
    pub fn code(self) -> (n: u32)
        ensures
            n == self.spec_code(),
    {
        match self {
            Error::GameNotFound => 1,
            Error::NotPlayer => 2,
            Error::GameAlreadyEnded => 3,
            Error::InvalidGameStatus => 4,
            Error::NotYourTurn => 6,
            Error::InvalidTurn => 7,
            Error::InvalidPublicInputs => 8,
            Error::ProofVerificationFailed => 10,
            Error::TimeoutNotReached => 11,
            Error::InvalidDistance => 12,
            Error::MaxTurnsReached => 13,
            Error::LobbyNotFound => 14,
            Error::LobbyAlreadyExists => 15,
            Error::SelfPlay => 16,
            Error::RandomnessVerificationFailed => 17,
        }
    }

    /// The error reported under `n`, if there is one.
    pub fn from_code(n: u32) -> (found: Option<Error>)
        ensures
            match found {
                Some(e) => e.code() == n,
                None => forall|e: Error| e.code() != n,
            },
    {
        match n {
            1 => Some(Error::GameNotFound),
            2 => Some(Error::NotPlayer),
            3 => Some(Error::GameAlreadyEnded),
            4 => Some(Error::InvalidGameStatus),
            6 => Some(Error::NotYourTurn),
            7 => Some(Error::InvalidTurn),
            8 => Some(Error::InvalidPublicInputs),
            10 => Some(Error::ProofVerificationFailed),
            11 => Some(Error::TimeoutNotReached),
            12 => Some(Error::InvalidDistance),
            13 => Some(Error::MaxTurnsReached),
            14 => Some(Error::LobbyNotFound),
            15 => Some(Error::LobbyAlreadyExists),
            16 => Some(Error::SelfPlay),
            17 => Some(Error::RandomnessVerificationFailed),
            _ => None,
        }
    }
}

/// Where a match stands.
#[derive(Clone, Copy, Debug, PartialEq, Eq, Structural)]
pub enum GameStatus {
    Created,
    Active,
    Completed,
    Timeout,
}

/// One match between two participants.
#[derive(Clone, Copy, Debug, PartialEq, Eq)]
pub struct Game {
    pub player1: Address,
    pub player2: Address,
    pub player1_points: i128,
    pub player2_points: i128,
    pub drop_commitment: [u8; 32],
    pub status: GameStatus,
    pub current_turn: u32,
    /// 1 while player1 is to ping, 2 while player2 is.
    pub whose_turn: u32,
    pub player1_best_distance: u32,
    pub player2_best_distance: u32,
    pub winner: Option<Address>,
    pub last_action_ledger: u32,
}

/// A host waiting for an opponent.
#[derive(Clone, Copy, Debug, PartialEq, Eq)]
pub struct Lobby {
    pub host: Address,
    pub host_points: i128,
    pub created_ledger: u32,
}

/// What an entry of the contract's storage is filed under.
#[derive(Clone, Copy, Debug, PartialEq, Eq, Structural)]
pub enum DataKey {
    Game(u32),
    Lobby(u32),
    GameHubAddress,
    Admin,
    VerifierId,
    RandomnessVerifierId,
}

} // verus!
