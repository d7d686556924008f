use dead_drop::delegates::{verify_proof, verify_randomness};
use dead_drop::hexcode::HexFailure;
use dead_drop::host::{
    digest_to_bytes, parse_hex_32, prover_opts_from_env, receipt_kind_named, receipt_seal_bytes,
    HostError, InnerReceipt, ProveResult, Prover, Receipt, ReceiptKind,
};
use dead_drop::journal::{encode_journal, PingProofInput};
use dead_drop::{
    prove, Address, Error, GameHub, Invocation, MockVerifier, Notice, ProofVerifier,
    RandomnessVerifier,
};
use std::cell::RefCell;

fn some_input() -> PingProofInput {
    PingProofInput {
        session_id: 1,
        turn: 2,
        x: 3,
        y: 4,
        a_x: 5,
        a_y: 6,
        a_salt: [7; 32],
        a_commitment: [8; 32],
        b_x: 9,
        b_y: 10,
        b_salt: [11; 32],
        b_commitment: [12; 32],
    }
}

fn some_journal() -> [u8; 84] {
    encode_journal(1, 2, 13, 3, 4, &[8; 32], &[12; 32])
}

/// Returns a fixed receipt, or fails, and remembers the kind it was asked for.
struct FixedProver {
    answer: Result<Receipt, String>,
    asked: RefCell<Option<ReceiptKind>>,
}

impl Prover for FixedProver {
    fn prove(&self, _input: &PingProofInput, kind: ReceiptKind) -> Result<Receipt, String> {
        *self.asked.borrow_mut() = Some(kind);
        self.answer.clone()
    }
}

struct Answers(Invocation<bool>);

impl RandomnessVerifier for Answers {
    fn verify_randomness(
        &self,
        _session_id: u32,
        _randomness_output: &[u8; 32],
        _drop_commitment: &[u8; 32],
        _randomness_signature: &[u8; 64],
    ) -> Invocation<bool> {
        match self.0 {
            Invocation::Returned(b) => Invocation::Returned(b),
            Invocation::Unreadable => Invocation::Unreadable,
            Invocation::Failed => Invocation::Failed,
        }
    }
}

struct Unreadable;

impl ProofVerifier for Unreadable {
    fn verify_proof(&self, _proof: &Vec<u8>, _public_inputs: &Vec<[u8; 32]>) -> Invocation<()> {
        Invocation::Unreadable
    }
}

struct RecordingHub {
    calls: RefCell<Vec<String>>,
}

impl GameHub for RecordingHub {
    fn start_game(
        &self,
        game_id: &Address,
        session_id: u32,
        player1: &Address,
        player2: &Address,
        player1_points: i128,
        player2_points: i128,
    ) {
        self.calls.borrow_mut().push(format!(
            "start {:?} {} {:?} {:?} {} {}",
            game_id, session_id, player1, player2, player1_points, player2_points
        ));
    }

    fn end_game(&self, session_id: u32, player1_won: bool) {
        self.calls.borrow_mut().push(format!("end {} {}", session_id, player1_won));
    }
}

#[test]
fn receipt_kind_goes_by_name_in_any_case() {
    assert_eq!(prover_opts_from_env(Some("succinct")), (ReceiptKind::Succinct, false));
    assert_eq!(prover_opts_from_env(Some("SUCCINCT")), (ReceiptKind::Succinct, false));
    assert_eq!(prover_opts_from_env(Some("Composite")), (ReceiptKind::Composite, false));
    assert_eq!(prover_opts_from_env(Some("groth16")), (ReceiptKind::Groth16, true));
    assert_eq!(prover_opts_from_env(Some("GROTH16")), (ReceiptKind::Groth16, true));
    assert_eq!(prover_opts_from_env(Some("anything else")), (ReceiptKind::Groth16, true));
    assert_eq!(prover_opts_from_env(Some("")), (ReceiptKind::Groth16, true));
    assert_eq!(prover_opts_from_env(None), (ReceiptKind::Groth16, true));
    // a name that is not lowered first is taken as it stands
    assert_eq!(receipt_kind_named("SUCCINCT"), (ReceiptKind::Groth16, true));
    assert_eq!(receipt_kind_named("succinct"), (ReceiptKind::Succinct, false));
    assert_eq!(receipt_kind_named("composite"), (ReceiptKind::Composite, false));
}

#[test]
fn seal_is_taken_by_receipt_kind() {
    let journal = some_journal().to_vec();
    let seal = |inner: InnerReceipt| receipt_seal_bytes(&Receipt { inner, journal: journal.clone() });
    assert_eq!(seal(InnerReceipt::Groth16 { seal: vec![1, 2, 3] }), Ok(vec![1, 2, 3]));
    assert_eq!(seal(InnerReceipt::Succinct { seal: vec![4, 5] }), Ok(vec![4, 5]));
    assert_eq!(
        seal(InnerReceipt::Composite { segments: vec![vec![1, 2]] }),
        Ok(vec![1, 2])
    );
    assert_eq!(
        seal(InnerReceipt::Composite {
            segments: vec![vec![1, 2], vec![], vec![3], vec![4, 5, 6]]
        }),
        Ok(vec![1, 2, 3, 4, 5, 6])
    );
    assert_eq!(seal(InnerReceipt::Composite { segments: vec![] }), Ok(vec![]));
    assert_eq!(seal(InnerReceipt::Fake), Ok(vec![]));
    assert_eq!(seal(InnerReceipt::Other), Err(HostError::UnsupportedReceipt));
}

#[test]
fn digest_bytes_follow_the_words() {
    let words = [
        0x0403_0201u32,
        0x0807_0605,
        0x0c0b_0a09,
        0x100f_0e0d,
        0x1413_1211,
        0x1817_1615,
        0x1c1b_1a19,
        0x201f_1e1d,
    ];
    let bytes = digest_to_bytes(words);
    let mut little = [0u8; 32];
    let mut big = [0u8; 32];
    for (i, word) in words.iter().enumerate() {
        little[4 * i..4 * i + 4].copy_from_slice(&word.to_le_bytes());
        big[4 * i..4 * i + 4].copy_from_slice(&word.to_be_bytes());
    }
    if u16::from_ne_bytes([1, 0]) == 1 {
        assert_eq!(bytes, little);
        assert_eq!(bytes[0], 1);
        assert_eq!(bytes[31], 32);
    } else {
        assert_eq!(bytes, big);
    }
}

#[test]
fn hex_of_32_bytes_is_read_in_either_case() {
    let text = "000102030405060708090a0b0c0d0e0f101112131415161718191A1B1C1D1E1Fff";
    let mut expected = [0u8; 32];
    for (i, byte) in expected.iter_mut().enumerate() {
        *byte = i as u8;
    }
    assert_eq!(parse_hex_32(&text[..64]), Ok(expected));
    assert_eq!(parse_hex_32(&"ff".repeat(32)), Ok([0xff; 32]));
    assert_eq!(parse_hex_32(&"Ab".repeat(32)), Ok([0xab; 32]));

    assert_eq!(parse_hex_32(text), Err(HostError::HexLength));
    assert_eq!(parse_hex_32(""), Err(HostError::HexLength));
    assert_eq!(parse_hex_32(&"00".repeat(31)), Err(HostError::HexLength));
    assert_eq!(parse_hex_32(&text[..63]), Err(HostError::Hex(HexFailure::OddLength)));
    assert_eq!(parse_hex_32("0"), Err(HostError::Hex(HexFailure::OddLength)));
    // an odd length is reported before a bad digit
    assert_eq!(parse_hex_32("zz0"), Err(HostError::Hex(HexFailure::OddLength)));
    let mut bad = "00".repeat(32);
    bad.replace_range(5..6, "g");
    assert_eq!(
        parse_hex_32(&bad),
        Err(HostError::Hex(HexFailure::InvalidCharacter { c: 'g', index: 5 }))
    );
    bad.replace_range(2..3, " ");
    assert_eq!(
        parse_hex_32(&bad),
        Err(HostError::Hex(HexFailure::InvalidCharacter { c: ' ', index: 2 }))
    );
}

#[test]
fn receipt_is_read_into_a_result() {
    let journal = some_journal();
    let receipt = Receipt {
        inner: InnerReceipt::Groth16 { seal: vec![0xde, 0xad, 0xbe, 0xef] },
        journal: journal.to_vec(),
    };
    let image_id = [1u32, 2, 3, 4, 5, 6, 7, 8];
    let proved = ProveResult::from_receipt(&receipt, true, image_id).unwrap();
    assert_eq!(proved.journal_bytes, journal);
    assert_eq!(proved.journal.session_id, 1);
    assert_eq!(proved.journal.turn, 2);
    assert_eq!(proved.journal.distance, 13);
    assert_eq!(proved.journal.x, 3);
    assert_eq!(proved.journal.y, 4);
    assert_eq!(proved.journal.commitment_a, [8; 32]);
    assert_eq!(proved.journal.commitment_b, [12; 32]);
    assert_eq!(proved.seal, vec![0xde, 0xad, 0xbe, 0xef]);
    assert_eq!(proved.journal_sha256, dead_drop::sha256(&journal));
    assert_eq!(proved.image_id, digest_to_bytes(image_id));

    let report = proved.hex_report();
    assert_eq!(report.seal, "deadbeef");
    assert_eq!(report.commitment_a, "08".repeat(32));
    assert_eq!(report.commitment_b, "0c".repeat(32));
    assert_eq!(report.image_id.len(), 64);
    if u16::from_ne_bytes([1, 0]) == 1 {
        assert_eq!(&report.image_id[..16], "0100000002000000");
    }
    assert_eq!(report.journal_sha256.len(), 64);
    assert!(report.journal_sha256.bytes().all(|b| b.is_ascii_digit() || (b'a'..=b'f').contains(&b)));
}

#[test]
fn receipt_is_refused_in_order() {
    let image_id = [0u32; 8];
    let short_succinct =
        Receipt { inner: InnerReceipt::Succinct { seal: vec![1] }, journal: vec![0; 10] };
    assert_eq!(
        ProveResult::from_receipt(&short_succinct, true, image_id),
        Err(HostError::Groth16Expected)
    );
    assert_eq!(
        ProveResult::from_receipt(&short_succinct, false, image_id),
        Err(HostError::JournalLength)
    );
    let short_other = Receipt { inner: InnerReceipt::Other, journal: vec![0; 85] };
    assert_eq!(
        ProveResult::from_receipt(&short_other, false, image_id),
        Err(HostError::JournalLength)
    );
    let other = Receipt { inner: InnerReceipt::Other, journal: some_journal().to_vec() };
    assert_eq!(
        ProveResult::from_receipt(&other, false, image_id),
        Err(HostError::UnsupportedReceipt)
    );
    let fake = Receipt { inner: InnerReceipt::Fake, journal: some_journal().to_vec() };
    assert_eq!(ProveResult::from_receipt(&fake, true, image_id), Err(HostError::Groth16Expected));
    assert_eq!(ProveResult::from_receipt(&fake, false, image_id).unwrap().seal, Vec::<u8>::new());
}

#[test]
fn prove_asks_for_the_configured_kind() {
    let receipt = Receipt {
        inner: InnerReceipt::Succinct { seal: vec![1, 2] },
        journal: some_journal().to_vec(),
    };
    let prover = FixedProver { answer: Ok(receipt), asked: RefCell::new(None) };

    let proved = prove(&prover, &some_input(), Some("Succinct"), [0; 8]).unwrap();
    assert_eq!(*prover.asked.borrow(), Some(ReceiptKind::Succinct));
    assert_eq!(proved.seal, vec![1, 2]);

    // by default a Groth16 receipt is asked for, and insisted on
    assert_eq!(prove(&prover, &some_input(), None, [0; 8]), Err(HostError::Groth16Expected));
    assert_eq!(*prover.asked.borrow(), Some(ReceiptKind::Groth16));

    let failing = FixedProver { answer: Err("segfault".to_string()), asked: RefCell::new(None) };
    assert_eq!(
        prove(&failing, &some_input(), Some("composite"), [0; 8]),
        Err(HostError::Proving("segfault".to_string()))
    );
    assert_eq!(*failing.asked.borrow(), Some(ReceiptKind::Composite));
}

#[test]
fn only_a_returned_true_attests() {
    let ask = |answer: Invocation<bool>| {
        verify_randomness(&Answers(answer), 1, &[0; 32], &[0; 32], &[0; 64])
    };
    assert_eq!(ask(Invocation::Returned(true)), Ok(()));
    assert_eq!(ask(Invocation::Returned(false)), Err(Error::RandomnessVerificationFailed));
    assert_eq!(ask(Invocation::Unreadable), Err(Error::RandomnessVerificationFailed));
    assert_eq!(ask(Invocation::Failed), Err(Error::RandomnessVerificationFailed));
}

#[test]
fn only_a_return_proves() {
    let proof = vec![1u8];
    let inputs: Vec<[u8; 32]> = Vec::new();
    assert_eq!(verify_proof(&MockVerifier, &proof, &inputs), Ok(()));
    assert_eq!(verify_proof(&Unreadable, &proof, &inputs), Err(Error::ProofVerificationFailed));
}

#[test]
fn development_verifier_checks_the_digest_of_the_message() {
    let commitment = [7u8; 32];
    let signature = [5u8; 64];
    let message = MockVerifier::message(0x0102_0304, &commitment, &signature);
    let mut expected = vec![1u8, 2, 3, 4];
    expected.extend_from_slice(&commitment);
    expected.extend_from_slice(&signature);
    assert_eq!(message, expected);

    let output = dead_drop::sha256(&message);
    let verifier = MockVerifier;
    assert_eq!(
        verifier.verify_randomness(0x0102_0304, &output, &commitment, &signature),
        Invocation::Returned(true)
    );
    assert_eq!(
        verifier.verify_randomness(0x0102_0305, &output, &commitment, &signature),
        Invocation::Returned(false)
    );
    assert_eq!(
        verifier.verify_randomness(0x0102_0304, &output, &[8; 32], &signature),
        Invocation::Returned(false)
    );
    assert_eq!(
        verifier.verify_randomness(0x0102_0304, &output, &commitment, &[6; 64]),
        Invocation::Returned(false)
    );
    assert_eq!(
        verifier.verify_randomness(0x0102_0304, &[0; 32], &commitment, &signature),
        Invocation::Returned(false)
    );
}

#[test]
fn hub_notices_reach_the_hub_and_pings_do_not() {
    let hub = RecordingHub { calls: RefCell::new(Vec::new()) };
    let a = Address::Account([1; 32]);
    let b = Address::Account([2; 32]);
    let started = Notice::GameStarted {
        game_id: Address::Contract([9; 32]),
        session_id: 4,
        player1: a,
        player2: b,
        player1_points: 10,
        player2_points: 20,
    };
    assert!(started.report(&hub));
    assert!(Notice::GameEnded { session_id: 4, player1_won: true }.report(&hub));
    let ping = Notice::Ping { session_id: 4, player: a, turn: 0, distance: 1, ping_x: 2, ping_y: 3 };
    assert!(!ping.report(&hub));
    let calls = hub.calls.borrow();
    assert_eq!(calls.len(), 2);
    assert_eq!(
        calls[0],
        format!("start {:?} 4 {:?} {:?} 10 20", Address::Contract([9; 32]), a, b)
    );
    assert_eq!(calls[1], "end 4 true");
}

/// Remembers what it was asked and answers as told.
struct Recorder {
    attests: bool,
    randomness_asked: RefCell<Vec<(u32, [u8; 32], [u8; 32], [u8; 64])>>,
    proofs_asked: RefCell<Vec<(Vec<u8>, Vec<[u8; 32]>)>>,
}

impl RandomnessVerifier for Recorder {
    fn verify_randomness(
        &self,
        session_id: u32,
        randomness_output: &[u8; 32],
        drop_commitment: &[u8; 32],
        randomness_signature: &[u8; 64],
    ) -> Invocation<bool> {
        self.randomness_asked.borrow_mut().push((
            session_id,
            *randomness_output,
            *drop_commitment,
            *randomness_signature,
        ));
        Invocation::Returned(self.attests)
    }
}

impl ProofVerifier for Recorder {
    fn verify_proof(&self, proof: &Vec<u8>, public_inputs: &Vec<[u8; 32]>) -> Invocation<()> {
        self.proofs_asked.borrow_mut().push((proof.clone(), public_inputs.clone()));
        Invocation::Returned(())
    }
}

#[test]
fn verifiers_are_asked_once_with_what_was_handed_in() {
    let recorder = Recorder {
        attests: false,
        randomness_asked: RefCell::new(Vec::new()),
        proofs_asked: RefCell::new(Vec::new()),
    };
    assert_eq!(
        verify_randomness(&recorder, 77, &[1; 32], &[2; 32], &[3; 64]),
        Err(Error::RandomnessVerificationFailed)
    );
    assert_eq!(*recorder.randomness_asked.borrow(), vec![(77, [1; 32], [2; 32], [3; 64])]);

    let proof = vec![9u8, 8, 7];
    let inputs = vec![[4u8; 32], [5u8; 32]];
    assert_eq!(verify_proof(&recorder, &proof, &inputs), Ok(()));
    assert_eq!(*recorder.proofs_asked.borrow(), vec![(proof, inputs)]);
}

#[test]
fn contract_asks_the_verifiers_only_once_all_else_is_in_order() {
    let recorder = Recorder {
        attests: true,
        randomness_asked: RefCell::new(Vec::new()),
        proofs_asked: RefCell::new(Vec::new()),
    };
    let a = Address::Account([1; 32]);
    let b = Address::Account([2; 32]);
    let here = Address::Contract([9; 32]);
    let mut contract = dead_drop::DeadDropContract::new(here, a, here, here, here);

    // self-play is refused before the randomness verifier is asked
    let refused = contract.start_game(&recorder, 100, 5, a, a, 10, 10, [1; 32], [2; 32], [3; 64]);
    assert_eq!(refused, Err(Error::SelfPlay));
    assert!(recorder.randomness_asked.borrow().is_empty());

    let started = contract.start_game(&recorder, 100, 5, a, b, 10, 10, [1; 32], [2; 32], [3; 64]);
    assert_eq!(started, Ok(()));
    assert_eq!(*recorder.randomness_asked.borrow(), vec![(5, [1; 32], [2; 32], [3; 64])]);

    // a ping with the wrong vector is refused before the proof verifier is asked
    let proof = vec![1u8, 2, 3];
    let wrong = dead_drop::inputs::build_public_inputs(5, 0, 1, 1, &[7; 32], 10);
    let refused = contract.submit_ping(&recorder, 100, 5, a, 0, 10, 1, 1, &proof, &wrong);
    assert_eq!(refused, Err(Error::InvalidPublicInputs));
    assert!(recorder.proofs_asked.borrow().is_empty());

    let inputs = dead_drop::inputs::build_public_inputs(5, 0, 1, 1, &[2; 32], 10);
    let accepted = contract.submit_ping(&recorder, 100, 5, a, 0, 10, 1, 1, &proof, &inputs);
    assert_eq!(accepted, Ok(None));
    assert_eq!(*recorder.proofs_asked.borrow(), vec![(proof, inputs)]);
}
