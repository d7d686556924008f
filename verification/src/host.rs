//! The proving side: what a prover is asked for, how its receipt is read, and
//! what is handed on to the contract's caller.

use vstd::prelude::*;
use vstd::string::StringSliceAdditionalSpecFns;
use crate::hash::{sha256, sha256_digest};
use crate::hexcode::{hex_decode, hex_encode, hex_text, hex_value, spells, HexFailure};
use crate::journal::{decode_journal, le_bytes, Journal, PingProofInput, JOURNAL_LEN};

verus! {

/// Why the proving side gave up.
#[derive(Debug, Clone, PartialEq, Eq)]
pub enum HostError {
    /// The prover failed, or its receipt did not verify; with its own words.
    Proving(String),
    /// A Groth16 receipt was asked for and another kind came back.
    Groth16Expected,
    /// The journal is not 84 bytes long.
    JournalLength,
    /// The receipt is of a kind that carries no seal to extract.
    UnsupportedReceipt,
    /// A text is not hexadecimal.
    Hex(HexFailure),
    /// A hexadecimal text does not spell 32 bytes.
    HexLength,
}

/// The kind of receipt to ask a prover for.
#[derive(Debug, Clone, Copy, PartialEq, Eq, Structural)]
pub enum ReceiptKind {
    Succinct,
    Composite,
    Groth16,
}

/// What a receipt holds besides the journal, by kind.
#[derive(Debug, Clone, PartialEq, Eq)]
pub enum InnerReceipt {
    Groth16 { seal: Vec<u8> },
    Succinct { seal: Vec<u8> },
    /// One seal for each segment.
    Composite { segments: Vec<Vec<u8>> },
    Fake,
    /// A kind this library does not know.
    Other,
}

/// A receipt as the prover returned it, after it was verified.
#[derive(Debug, Clone, PartialEq, Eq)]
pub struct Receipt {
    pub inner: InnerReceipt,
    pub journal: Vec<u8>,
}

/// What proving a ping yields.
#[derive(Debug, Clone, PartialEq, Eq)]
pub struct ProveResult {
    pub journal: Journal,
    pub journal_bytes: [u8; JOURNAL_LEN],
    pub seal: Vec<u8>,
    pub image_id: [u8; 32],
    pub journal_sha256: [u8; 32],
}

/// The hexadecimal fields of a report on a proof.
#[derive(Debug, Clone, PartialEq, Eq)]
pub struct HexReport {
    pub image_id: String,
    pub seal: String,
    pub journal_sha256: String,
    pub commitment_a: String,
    pub commitment_b: String,
}

/// Runs the guest program on an input and verifies what comes back.
pub trait Prover {
    fn prove(&self, input: &PingProofInput, kind: ReceiptKind) -> Result<Receipt, String>;
}

/// The lower-case form of a text, as `str::to_lowercase` gives it.
pub uninterp spec fn lowercase_of(text: Seq<char>) -> Seq<char>;

/// Lowers a text with `str::to_lowercase`. The contract only names the result.
#[verifier::external_body]
fn lowercase(text: &str) -> (lower: String)
    ensures
        lower@ == lowercase_of(text@),
{
    text.to_lowercase()
}

/// The receipt kind that goes by a lower-case name, and whether a Groth16
/// receipt is then insisted on. Any name but `succinct` and `composite`
/// stands for Groth16.
pub open spec fn kind_named(name: Seq<char>) -> (ReceiptKind, bool) {
    if name == "succinct"@ {
        (ReceiptKind::Succinct, false)
    } else if name == "composite"@ {
        (ReceiptKind::Composite, false)
    } else {
        (ReceiptKind::Groth16, true)
    }
}

/// Picks the receipt kind for a name that is already in lower case.
pub fn receipt_kind_named(name: &str) -> (opts: (ReceiptKind, bool))
    ensures
        opts == kind_named(name@),
{
    let name = name.to_owned();
    if name == "succinct".to_owned() {
        (ReceiptKind::Succinct, false)
    } else if name == "composite".to_owned() {
        (ReceiptKind::Composite, false)
    } else {
        (ReceiptKind::Groth16, true)
    }
}

/// Picks the receipt kind from the name the environment configures, in any
/// case; Groth16 if it configures none.
pub fn prover_opts_from_env(configured: Option<&str>) -> (opts: (ReceiptKind, bool))
    ensures
        opts == configured_opts(configured),
{
    let lower = match configured {
        Some(name) => lowercase(name),
        None => lowercase("groth16"),
    };
    receipt_kind_named(lower.as_str())
}

/// The seals of `segments`, one after another.
pub open spec fn joined(segments: Seq<Vec<u8>>) -> Seq<u8>
    decreases segments.len(),
{
    if segments.len() == 0 {
        Seq::empty()
    } else {
        joined(segments.drop_last()) + segments.last()@
    }
}

/// The seal a receipt carries, if its kind has one. A composite receipt's
/// seal is its segments' seals joined; a fake receipt's is empty.
pub open spec fn seal_of(inner: InnerReceipt) -> Option<Seq<u8>> {
    match inner {
        InnerReceipt::Groth16 { seal } => Some(seal@),
        InnerReceipt::Succinct { seal } => Some(seal@),
        InnerReceipt::Composite { segments } => Some(joined(segments@)),
        InnerReceipt::Fake => Some(Seq::empty()),
        InnerReceipt::Other => None,
    }
}

fn append(out: &mut Vec<u8>, bytes: &Vec<u8>)
    ensures
        final(out)@ == old(out)@ + bytes@,
{
    let mut i: usize = 0;
    while i < bytes.len()
        invariant
            i <= bytes.len(),
            out@ == old(out)@ + bytes@.take(i as int),
        decreases bytes.len() - i,
    {
        out.push(bytes[i]);
        assert(bytes@.take(i as int).push(bytes@[i as int]) == bytes@.take(i + 1));
        i += 1;
    }
    assert(bytes@.take(bytes.len() as int) == bytes@);
}

/// Extracts the seal from a receipt.
pub fn receipt_seal_bytes(receipt: &Receipt) -> (seal: Result<Vec<u8>, HostError>)
    ensures
        match seal {
            Ok(bytes) => seal_of(receipt.inner) == Some(bytes@),
            Err(e) => seal_of(receipt.inner) is None && e == HostError::UnsupportedReceipt,
        },
{
    let mut out: Vec<u8> = Vec::new();
    match &receipt.inner {
        InnerReceipt::Groth16 { seal } => {
            append(&mut out, seal);
            Ok(out)
        },
        InnerReceipt::Succinct { seal } => {
            append(&mut out, seal);
            Ok(out)
        },
        InnerReceipt::Composite { segments } => {
            let mut i: usize = 0;
            while i < segments.len()
                invariant
                    i <= segments.len(),
                    out@ == joined(segments@.take(i as int)),
                decreases segments.len() - i,
            {
                append(&mut out, &segments[i]);
                assert(segments@.take(i + 1).drop_last() == segments@.take(i as int));
                i += 1;
            }
            assert(segments@.take(segments.len() as int) == segments@);
            Ok(out)
        },
        InnerReceipt::Fake => Ok(out),
        InnerReceipt::Other => Err(HostError::UnsupportedReceipt),
    }
}

/// The bytes of `words`, each word least significant byte first.
pub open spec fn le_words(words: Seq<u32>) -> Seq<u8> {
    Seq::new(4 * words.len(), |i: int| le_bytes(words[i / 4])[i % 4])
}

/// The bytes of `words`, each word most significant byte first.
pub open spec fn be_words(words: Seq<u32>) -> Seq<u8> {
    Seq::new(4 * words.len(), |i: int| le_bytes(words[i / 4])[3 - i % 4])
}

/// The bytes of a digest of eight words, as `risc0_zkvm::sha::Digest::as_bytes`
/// lays them out: the words in order, each in the byte order of the machine.
#[verifier::external_body]
pub fn digest_to_bytes(digest: [u32; 8]) -> (out: [u8; 32])
    ensures
        out@ == le_words(digest@) || out@ == be_words(digest@),
{
    let digest = risc0_zkvm::sha::Digest::new(digest);
    let mut out = [0u8; 32];
    out.copy_from_slice(digest.as_bytes());
    out
}

/// Reads 32 bytes from hexadecimal text of either case.
pub fn parse_hex_32(value: &str) -> (parsed: Result<[u8; 32], HostError>)
    ensures
        match parsed {
            Ok(out) => spells(value.spec_bytes(), out@),
            Err(HostError::Hex(HexFailure::OddLength)) => value.spec_bytes().len() % 2 == 1,
            Err(HostError::Hex(HexFailure::InvalidCharacter { c, index })) => {
                &&& value.spec_bytes().len() % 2 == 0
                &&& index < value.spec_bytes().len()
                &&& hex_value(value.spec_bytes()[index as int]) is None
                &&& c == value.spec_bytes()[index as int] as char
                &&& forall|j: int|
                    0 <= j < index ==> hex_value(value.spec_bytes()[j]) is Some
            },
            Err(HostError::HexLength) => value.spec_bytes().len() != 64 && exists|bytes: Seq<u8>|
                spells(value.spec_bytes(), bytes),
            Err(_) => false,
        },
{
    let bytes = match hex_decode(value.as_bytes()) {
        Ok(bytes) => bytes,
        Err(failure) => {
            return Err(HostError::Hex(failure));
        },
    };
    if bytes.len() != 32 {
        return Err(HostError::HexLength);
    }
    let mut out = [0u8; 32];
    let mut i: usize = 0;
    while i < 32
        invariant
            i <= 32,
            bytes.len() == 32,
            forall|j: int| 0 <= j < i ==> out[j] == bytes[j],
        decreases 32 - i,
    {
        out[i] = bytes[i];
        i += 1;
    }
    assert(out@ =~= bytes@);
    Ok(out)
}

/// Whether `result` is how `receipt` reads. It is refused, in this order,
/// where Groth16 is insisted on and it is of another kind, where its journal
/// is not 84 bytes long, and where its kind carries no seal; otherwise the
/// result holds the journal, decoded and hashed, the seal, and the image id
/// as bytes.
pub open spec fn reads_as(
    receipt: Receipt,
    require_groth16: bool,
    image_id: Seq<u32>,
    result: Result<ProveResult, HostError>,
) -> bool {
    match result {
        Ok(proved) => {
            &&& !require_groth16 || receipt.inner is Groth16
            &&& proved.journal_bytes@ == receipt.journal@
            &&& proved.journal.encoding() == receipt.journal@
            &&& proved.journal_sha256@ == sha256_digest(receipt.journal@)
            &&& seal_of(receipt.inner) == Some(proved.seal@)
            &&& (proved.image_id@ == le_words(image_id) || proved.image_id@ == be_words(image_id))
        },
        Err(e) => if require_groth16 && !(receipt.inner is Groth16) {
            e == HostError::Groth16Expected
        } else if receipt.journal@.len() != JOURNAL_LEN {
            e == HostError::JournalLength
        } else {
            e == HostError::UnsupportedReceipt && seal_of(receipt.inner) is None
        },
    }
}

/// Whether `answer` is what `prover` returned when it was asked to prove
/// exactly this input with a receipt of exactly this kind.
pub open spec fn prover_answer<P: Prover>(
    prover: &P,
    input: &PingProofInput,
    kind: ReceiptKind,
    answer: Result<Receipt, String>,
) -> bool {
    call_ensures(P::prove, (prover, input, kind), answer)
}

/// Whether `result` is what proving comes to, given the prover's answer:
/// its words as the error if it failed, else how its receipt reads.
pub open spec fn proved_as(
    answer: Result<Receipt, String>,
    require_groth16: bool,
    image_id: Seq<u32>,
    result: Result<ProveResult, HostError>,
) -> bool {
    match answer {
        Ok(receipt) => reads_as(receipt, require_groth16, image_id, result),
        Err(message) => result == Err::<ProveResult, HostError>(HostError::Proving(message)),
    }
}

/// The receipt kind to ask for, and whether Groth16 is insisted on, under
/// the name the environment configures.
pub open spec fn configured_opts(configured: Option<&str>) -> (ReceiptKind, bool) {
    kind_named(
        lowercase_of(
            match configured {
                Some(name) => name@,
                None => "groth16"@,
            },
        ),
    )
}

impl ProveResult {
    /// Reads a verified receipt: insists on Groth16 where asked to, decodes
    /// and hashes the journal, and extracts the seal.
    pub fn from_receipt(receipt: &Receipt, require_groth16: bool, image_id: [u32; 8]) -> (result:
        Result<ProveResult, HostError>)
        ensures
            reads_as(*receipt, require_groth16, image_id@, result),
    {
        if require_groth16 {
            match &receipt.inner {
                InnerReceipt::Groth16 { seal } => {},
                _ => {
                    return Err(HostError::Groth16Expected);
                },
            }
        }
        let journal = match decode_journal(receipt.journal.as_slice()) {
            Ok(journal) => journal,
            Err(e) => {
                return Err(e);
            },
        };
        let mut journal_bytes = [0u8; 84];
        let mut i: usize = 0;
        while i < 84
            invariant
                i <= 84,
                receipt.journal@.len() == 84,
                forall|j: int| 0 <= j < i ==> journal_bytes[j] == receipt.journal@[j],
            decreases 84 - i,
        {
            journal_bytes[i] = receipt.journal[i];
            i += 1;
        }
        assert(journal_bytes@ =~= receipt.journal@);
        let journal_sha256 = sha256(&journal_bytes);
        let seal = match receipt_seal_bytes(receipt) {
            Ok(seal) => seal,
            Err(e) => {
                return Err(e);
            },
        };
        Ok(
            ProveResult {
                journal,
                journal_bytes,
                seal,
                image_id: digest_to_bytes(image_id),
                journal_sha256,
            },
        )
    }

    /// The fields of the result that are reported in hexadecimal.
    pub fn hex_report(&self) -> (report: HexReport)
        ensures
            report.image_id@ == hex_text(self.image_id@),
            report.seal@ == hex_text(self.seal@),
            report.journal_sha256@ == hex_text(self.journal_sha256@),
            report.commitment_a@ == hex_text(self.journal.commitment_a@),
            report.commitment_b@ == hex_text(self.journal.commitment_b@),
    {
        HexReport {
            image_id: hex_encode(&self.image_id),
            seal: hex_encode(self.seal.as_slice()),
            journal_sha256: hex_encode(&self.journal_sha256),
            commitment_a: hex_encode(&self.journal.commitment_a),
            commitment_b: hex_encode(&self.journal.commitment_b),
        }
    }
}

/// Proves a ping: asks `prover`, once, for a receipt of the configured kind
/// on exactly this input. If the prover fails, its words are the error; if
/// it returns a receipt, the result is how that receipt reads, with Groth16
/// insisted on where that is the configured kind.
pub fn prove<P: Prover>(
    prover: &P,
    input: &PingProofInput,
    configured_kind: Option<&str>,
    image_id: [u32; 8],
) -> (result: Result<ProveResult, HostError>)
    ensures
        exists|answer: Result<Receipt, String>|
            #[trigger] prover_answer(prover, input, configured_opts(configured_kind).0, answer)
                && proved_as(answer, configured_opts(configured_kind).1, image_id@, result),
        match result {
            Ok(proved) => {
                &&& proved.journal.encoding() == proved.journal_bytes@
                &&& proved.journal_sha256@ == sha256_digest(proved.journal_bytes@)
                &&& (proved.image_id@ == le_words(image_id@) || proved.image_id@ == be_words(
                    image_id@,
                ))
            },
            Err(HostError::Proving(_)) => true,
            Err(HostError::Groth16Expected) => configured_opts(configured_kind).1,
            Err(HostError::JournalLength) => true,
            Err(HostError::UnsupportedReceipt) => true,
            Err(_) => false,
        },
{
    let (kind, require_groth16) = prover_opts_from_env(configured_kind);
    assert(kind == configured_opts(configured_kind).0);
    let answer = prover.prove(input, kind);
    let ghost asked = answer;
    assert(prover_answer(prover, input, configured_opts(configured_kind).0, asked));
    let receipt = match answer {
        Ok(receipt) => receipt,
        Err(message) => {
            return Err(HostError::Proving(message));
        },
    };
    ProveResult::from_receipt(&receipt, require_groth16, image_id)
}

} // verus!
