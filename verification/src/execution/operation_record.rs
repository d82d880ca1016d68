use vstd::prelude::*;

use crate::bytes::hex_lower;
use crate::bytes::str_eq;
use crate::bytes::to_hex_lower;
use crate::digest::sha256;
use crate::digest::sha256_digest;
use crate::local_execution::request::utf8;

verus! {

/// The key under which an operation's files and container are named: the
/// lower-case hexadecimal SHA-256 of its operation id.
pub open spec fn operation_key_of(operation_id: Seq<char>) -> Seq<char> {
    hex_lower(sha256(utf8(operation_id)))
}

/// Computes `operation_key_of`.
pub fn operation_key(operation_id: &str) -> (k: String)
    ensures
        k@ == operation_key_of(operation_id@),
{
    let digest = sha256_digest(operation_id.as_bytes());
    to_hex_lower(digest.as_slice())
}

/// Why a durable record does not belong to the operation asked about.
#[derive(Debug, Clone, Copy, PartialEq, Eq, Structural)]
pub enum RecordConflict {
    /// `operation_request_digest`: the record was made for other request
    /// bytes.
    RequestDigest,
    /// `operation_producer_claim_fence`: the record was made under another
    /// claim.
    ProducerClaimFence,
}

impl RecordConflict {
    /// The conflicting record this refusal is reported with.
    pub fn reason(&self) -> (r: &'static str)
        ensures
            r@ == match *self {
                RecordConflict::RequestDigest => "operation_request_digest"@,
                RecordConflict::ProducerClaimFence => "operation_producer_claim_fence"@,
            },
    {
        match self {
            RecordConflict::RequestDigest => "operation_request_digest",
            RecordConflict::ProducerClaimFence => "operation_producer_claim_fence",
        }
    }
}

/// A record may be observed for an intent only when both its request digest
/// and its producer claim fence are the intent's; the digest is checked
/// first.
pub fn check_record_identity(
    record_digest: &str,
    record_fence: &str,
    intent_digest: &str,
    intent_fence: &str,
) -> (r: Result<(), RecordConflict>)
    ensures
        record_digest@ != intent_digest@ ==> r == Err::<(), RecordConflict>(RecordConflict::RequestDigest),
        record_digest@ == intent_digest@ && record_fence@ != intent_fence@
            ==> r == Err::<(), RecordConflict>(RecordConflict::ProducerClaimFence),
        record_digest@ == intent_digest@ && record_fence@ == intent_fence@ ==> r is Ok,
{
    if !str_eq(record_digest, intent_digest) {
        return Err(RecordConflict::RequestDigest);
    }
    if !str_eq(record_fence, intent_fence) {
        return Err(RecordConflict::ProducerClaimFence);
    }
    Ok(())
}

/// What happened when a file was published by linking a fully written
/// temporary file to its final path.
pub enum SealAttempt {
    /// The link was made: these bytes are now sealed at the path.
    Published,
    /// The path already existed; the bytes found there, if they could be
    /// read.
    AlreadyExists { existing: Option<Vec<u8>> },
    /// Writing, syncing or linking failed otherwise.
    Failed,
}

/// Why sealing failed.
#[derive(Debug, Clone, Copy, PartialEq, Eq, Structural)]
pub enum SealError {
    /// `sealed operation unreadable`.
    Unreadable,
    /// `sealed_operation`: different bytes were sealed before.
    Conflict,
    /// `operation cannot be sealed`.
    CannotSeal,
}

impl SealError {
    /// The conflicting record or reason this refusal is reported with.
    pub fn reason(&self) -> (r: &'static str)
        ensures
            r@ == match *self {
                SealError::Unreadable => "sealed operation unreadable"@,
                SealError::Conflict => "sealed_operation"@,
                SealError::CannotSeal => "operation cannot be sealed"@,
            },
    {
        match self {
            SealError::Unreadable => "sealed operation unreadable",
            SealError::Conflict => "sealed_operation",
            SealError::CannotSeal => "operation cannot be sealed",
        }
    }
}

/// Sealing publishes bytes once. It reports `true` when these bytes were
/// published now, `false` when the same bytes were sealed before, and a
/// conflict when other bytes were.
pub fn seal_outcome(attempt: SealAttempt, bytes: &[u8]) -> (r: Result<bool, SealError>)
    ensures
        match attempt {
            SealAttempt::Published => r == Ok::<bool, SealError>(true),
            SealAttempt::AlreadyExists { existing } => match existing {
                None => r == Err::<bool, SealError>(SealError::Unreadable),
                Some(found) => if found@ == bytes@ {
                    r == Ok::<bool, SealError>(false)
                } else {
                    r == Err::<bool, SealError>(SealError::Conflict)
                },
            },
            SealAttempt::Failed => r == Err::<bool, SealError>(SealError::CannotSeal),
        },
{
    match attempt {
        SealAttempt::Published => Ok(true),
        SealAttempt::AlreadyExists { existing } => match existing {
            None => Err(SealError::Unreadable),
            Some(found) => {
                if bytes_equal(found.as_slice(), bytes) {
                    Ok(false)
                } else {
                    Err(SealError::Conflict)
                }
            },
        },
        SealAttempt::Failed => Err(SealError::CannotSeal),
    }
}

/// Whether two byte strings are equal.
pub fn bytes_equal(a: &[u8], b: &[u8]) -> (r: bool)
    ensures
        r == (a@ == b@),
{
    if a.len() != b.len() {
        return false;
    }
    let mut i: usize = 0;
    while i < a.len()
        invariant
            i <= a.len(),
            a.len() == b.len(),
            forall|j: int| 0 <= j < i ==> a@[j] == b@[j],
        decreases a.len() - i,
    {
        if a[i] != b[i] {
            return false;
        }
        i = i + 1;
    }
    assert(a@ =~= b@);
    true
}

} // verus!
