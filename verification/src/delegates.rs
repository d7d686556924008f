//! The two outside verifiers a match depends on, and how their answers are
//! read: anything but a plain acceptance refuses the operation.

use vstd::prelude::*;
use crate::hash::{sha256, sha256_digest};
use crate::types::{bytes32_eq, Address, Error};

verus! {

/// How a call into another contract ended.
#[derive(Debug, PartialEq, Eq)]
pub enum Invocation<T> {
    /// The callee ran and returned a value of the expected type.
    Returned(T),
    /// The callee ran, but what it returned could not be read.
    Unreadable,
    /// The callee failed, or could not be called.
    Failed,
}

/// The ledger that records matches and settles the stakes.
pub trait GameHub {
    fn start_game(
        &self,
        game_id: &Address,
        session_id: u32,
        player1: &Address,
        player2: &Address,
        player1_points: i128,
        player2_points: i128,
    );

    fn end_game(&self, session_id: u32, player1_won: bool);
}

/// Attests that a drop commitment came out of a verifiable randomness process.
pub trait RandomnessVerifier {
    fn verify_randomness(
        &self,
        session_id: u32,
        randomness_output: &[u8; 32],
        drop_commitment: &[u8; 32],
        randomness_signature: &[u8; 64],
    ) -> Invocation<bool>;
}

/// Checks a zero-knowledge proof against its public inputs.
pub trait ProofVerifier {
    fn verify_proof(&self, proof: &Vec<u8>, public_inputs: &Vec<[u8; 32]>) -> Invocation<()>;
}

/// Whether an attestation call counts as acceptance: only a returned `true` does.
pub open spec fn attested(outcome: Invocation<bool>) -> bool {
    outcome == Invocation::Returned(true)
}

/// Whether a proof check counts as acceptance: any return does, no failure does.
pub open spec fn proven(outcome: Invocation<()>) -> bool {
    outcome is Returned
}

/// Reads the outcome of an attestation call.
pub fn randomness_verdict(outcome: Invocation<bool>) -> (verdict: Result<(), Error>)
    ensures
        verdict == if attested(outcome) {
            Ok::<(), Error>(())
        } else {
            Err(Error::RandomnessVerificationFailed)
        },
{
    match outcome {
        Invocation::Returned(true) => Ok(()),
        Invocation::Returned(false) | Invocation::Unreadable | Invocation::Failed => Err(
            Error::RandomnessVerificationFailed,
        ),
    }
}

/// Reads the outcome of a proof check.
pub fn proof_verdict(outcome: Invocation<()>) -> (verdict: Result<(), Error>)
    ensures
        verdict == if proven(outcome) {
            Ok::<(), Error>(())
        } else {
            Err(Error::ProofVerificationFailed)
        },
{
    match outcome {
        Invocation::Returned(_) => Ok(()),
        Invocation::Unreadable | Invocation::Failed => Err(Error::ProofVerificationFailed),
    }
}

/// Asks `verifier` to attest the commitment material of a new match: the
/// material is handed on as it is, once, and the answer is read as
/// `randomness_verdict` reads it.
pub fn verify_randomness<R: RandomnessVerifier>(
    verifier: &R,
    session_id: u32,
    randomness_output: &[u8; 32],
    drop_commitment: &[u8; 32],
    randomness_signature: &[u8; 64],
) -> (verdict: Result<(), Error>)
    ensures
        exists|outcome: Invocation<bool>|
            #[trigger] randomness_answer(
                verifier,
                session_id,
                randomness_output,
                drop_commitment,
                randomness_signature,
                outcome,
            ) && verdict == if attested(outcome) {
                Ok::<(), Error>(())
            } else {
                Err(Error::RandomnessVerificationFailed)
            },
        verdict is Err ==> verdict == Err::<(), Error>(Error::RandomnessVerificationFailed),
{
    let outcome = verifier.verify_randomness(
        session_id,
        randomness_output,
        drop_commitment,
        randomness_signature,
    );
    assert(randomness_answer(
        verifier,
        session_id,
        randomness_output,
        drop_commitment,
        randomness_signature,
        outcome,
    ));
    randomness_verdict(outcome)
}

/// Asks `verifier` to check `proof` against `public_inputs`: both are handed
/// on as they are, once, and the answer is read as `proof_verdict` reads it.
pub fn verify_proof<V: ProofVerifier>(
    verifier: &V,
    proof: &Vec<u8>,
    public_inputs: &Vec<[u8; 32]>,
) -> (verdict: Result<(), Error>)
    ensures
        exists|outcome: Invocation<()>|
            #[trigger] proof_answer(verifier, proof, public_inputs, outcome) && verdict
                == if proven(outcome) {
                Ok::<(), Error>(())
            } else {
                Err(Error::ProofVerificationFailed)
            },
        verdict is Err ==> verdict == Err::<(), Error>(Error::ProofVerificationFailed),
{
    let outcome = verifier.verify_proof(proof, public_inputs);
    assert(proof_answer(verifier, proof, public_inputs, outcome));
    proof_verdict(outcome)
}

/// Whether `outcome` is what `verifier` answered when it was asked to attest
/// exactly this commitment material.
pub open spec fn randomness_answer<R: RandomnessVerifier>(
    verifier: &R,
    session_id: u32,
    randomness_output: &[u8; 32],
    drop_commitment: &[u8; 32],
    randomness_signature: &[u8; 64],
    outcome: Invocation<bool>,
) -> bool {
    call_ensures(
        R::verify_randomness,
        (verifier, session_id, randomness_output, drop_commitment, randomness_signature),
        outcome,
    )
}

/// Whether `outcome` is what `verifier` answered when it was asked to check
/// exactly this proof against exactly these public inputs.
pub open spec fn proof_answer<V: ProofVerifier>(
    verifier: &V,
    proof: &Vec<u8>,
    public_inputs: &Vec<[u8; 32]>,
    outcome: Invocation<()>,
) -> bool {
    call_ensures(V::verify_proof, (verifier, proof, public_inputs), outcome)
}

/// The bytes a development attestation is a hash of: the session id, big
/// endian, then the commitment, then the signature.
pub open spec fn attestation_message(
    session_id: u32,
    drop_commitment: Seq<u8>,
    randomness_signature: Seq<u8>,
) -> Seq<u8> {
    seq![
        (session_id / 16777216) as u8,
        (session_id / 65536 % 256) as u8,
        (session_id / 256 % 256) as u8,
        (session_id % 256) as u8,
    ] + drop_commitment + randomness_signature
}

/// A stand-in for both verifiers, for development: it accepts every proof,
/// and attests a commitment exactly when the randomness output is the SHA-256
/// digest of the attestation message.
#[derive(Clone, Copy, Debug)]
pub struct MockVerifier;

impl MockVerifier {
    /// Builds the attestation message for `verify_randomness`.
    pub fn message(
        session_id: u32,
        drop_commitment: &[u8; 32],
        randomness_signature: &[u8; 64],
    ) -> (message: Vec<u8>)
        ensures
            message@ == attestation_message(session_id, drop_commitment@, randomness_signature@),
    {
        let mut message: Vec<u8> = Vec::new();
        message.push((session_id / 16777216) as u8);
        message.push((session_id / 65536 % 256) as u8);
        message.push((session_id / 256 % 256) as u8);
        message.push((session_id % 256) as u8);
        let mut i: usize = 0;
        while i < 32
            invariant
                i <= 32,
                message@ == attestation_message(
                    session_id,
                    drop_commitment@.take(i as int),
                    seq![],
                ),
            decreases 32 - i,
        {
            message.push(drop_commitment[i]);
            assert(drop_commitment@.take(i as int).push(drop_commitment@[i as int])
                == drop_commitment@.take(i + 1));
            i += 1;
        }
        assert(drop_commitment@.take(32) == drop_commitment@);
        let mut j: usize = 0;
        while j < 64
            invariant
                j <= 64,
                message@ == attestation_message(
                    session_id,
                    drop_commitment@,
                    randomness_signature@.take(j as int),
                ),
            decreases 64 - j,
        {
            message.push(randomness_signature[j]);
            assert(randomness_signature@.take(j as int).push(randomness_signature@[j as int])
                == randomness_signature@.take(j + 1));
            j += 1;
        }
        assert(randomness_signature@.take(64) == randomness_signature@);
        message
    }
}

impl ProofVerifier for MockVerifier {
    fn verify_proof(&self, proof: &Vec<u8>, public_inputs: &Vec<[u8; 32]>) -> (outcome: Invocation<
        (),
    >)
        ensures
            outcome == Invocation::Returned(()),
    {
        Invocation::Returned(())
    }
}

impl RandomnessVerifier for MockVerifier {
    fn verify_randomness(
        &self,
        session_id: u32,
        randomness_output: &[u8; 32],
        drop_commitment: &[u8; 32],
        randomness_signature: &[u8; 64],
    ) -> (outcome: Invocation<bool>)
        ensures
            outcome == Invocation::Returned(
                randomness_output@ == sha256_digest(
                    attestation_message(session_id, drop_commitment@, randomness_signature@),
                ),
            ),
    {
        let message = MockVerifier::message(session_id, drop_commitment, randomness_signature);
        let expected = sha256(message.as_slice());
        Invocation::Returned(bytes32_eq(&expected, randomness_output))
    }
}

} // verus!
