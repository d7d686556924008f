//! A two-player hidden-point contest: session state machine, public-input
//! binding for distance proofs, and the journal format of the proving side.

pub mod contract;
pub mod delegates;
pub mod game;
pub mod hash;
pub mod hexcode;
pub mod host;
pub mod inputs;
pub mod journal;
pub mod laws;
pub mod state;
pub mod types;

pub use contract::DeadDropContract;
pub use delegates::{GameHub, Invocation, MockVerifier, ProofVerifier, RandomnessVerifier};
pub use hash::sha256;
pub use host::{
    digest_to_bytes, parse_hex_32, prove, receipt_seal_bytes, HostError, ProveResult,
};
pub use journal::{decode_journal, Journal, PingProofInput, JOURNAL_LEN};
pub use state::Notice;
pub use types::{Address, DataKey, Error, Game, GameStatus, Lobby};
