//! SHA-1 over a stream of bytes.

use super::error::{unit_outcome, AsvoError, Failure};
use super::types::AsvoJobID;
use crate::text::{copy_str, eq_ignore_ascii_case, hex_digits, same_ignoring_ascii_case, to_hex};
use sha1::{Digest, Sha1};
use vstd::prelude::*;

verus! {

/// A running SHA-1 computation. The state is `sha1::Sha1`'s own and is kept
/// out of sight; what is known of a hasher is what it has been fed.
#[verifier::external_body]
pub struct Sha1Hasher {
    inner: Sha1,
}

/// The SHA-1 digest of a byte string.
pub uninterp spec fn sha1_digest(data: Seq<u8>) -> Seq<u8>;

/// The bytes that a hasher has been fed so far, in order.
pub uninterp spec fn hashed_bytes(hasher: Sha1Hasher) -> Seq<u8>;

/// `Sha1::new`: a hasher that has been fed nothing.
#[verifier::external_body]
pub(crate) fn sha1_new() -> (hasher: Sha1Hasher)
    ensures
        hashed_bytes(hasher) == Seq::<u8>::empty(),
{
    Sha1Hasher { inner: Sha1::new() }
}

/// `Digest::update`: feeds `data` to the hasher, after what it was fed
/// before.
#[verifier::external_body]
pub(crate) fn sha1_update(hasher: &mut Sha1Hasher, data: &[u8])
    ensures
        hashed_bytes(*final(hasher)) == hashed_bytes(*old(hasher)) + data@,
{
    hasher.inner.update(data)
}

/// `Digest::finalize`: the SHA-1 digest of all that the hasher was fed.
#[verifier::external_body]
pub(crate) fn sha1_finalize(hasher: Sha1Hasher) -> (digest: Vec<u8>)
    ensures
        digest@ == sha1_digest(hashed_bytes(hasher)),
{
    hasher.inner.finalize().to_vec()
}

/// The SHA-1 of a byte string in lowercase hexadecimal.
pub open spec fn sha1_hex(data: Seq<u8>) -> Seq<char> {
    hex_digits(sha1_digest(data))
}

/// A stream of bytes that is hashed as it passes: whatever is written to a
/// file or handed to a decoder is first shown to this, chunk by chunk, so
/// that the digest covers every byte that was transferred and nothing has
/// to be kept in memory.
pub struct HashedStream {
    hasher: Sha1Hasher,
}

impl View for HashedStream {
    type V = Seq<u8>;

    /// All the bytes absorbed so far, in order.
    closed spec fn view(&self) -> Seq<u8> {
        hashed_bytes(self.hasher)
    }
}

impl HashedStream {
    /// A stream through which nothing has passed yet.
    pub fn new() -> (stream: HashedStream)
        ensures
            stream@ == Seq::<u8>::empty(),
    {
        HashedStream { hasher: sha1_new() }
    }

    /// Lets one more chunk pass.
    pub fn absorb(&mut self, chunk: &[u8])
        ensures
            final(self)@ == old(self)@ + chunk@,
    {
        sha1_update(&mut self.hasher, chunk);
    }

    /// Ends the stream and returns the digest of all that passed, in
    /// lowercase hexadecimal.
    pub fn finish(self) -> (digest: String)
        ensures
            digest@ == sha1_hex(self@),
    {
        let raw = sha1_finalize(self.hasher);
        to_hex(raw.as_slice())
    }
}

/// What comparing a computed digest with the expected one comes to: the two
/// agree up to the case of the hexadecimal letters, or the file fails with
/// an error that names the job, the file and both digests.
pub open spec fn hash_verdict(
    jobid: AsvoJobID,
    file: Seq<char>,
    expected: Seq<char>,
    computed: Seq<char>,
) -> Result<(), Failure> {
    if same_ignoring_ascii_case(computed, expected) {
        Ok(())
    } else {
        Err(
            Failure::HashMismatch {
                jobid,
                file,
                calculated_hash: computed,
                expected_hash: expected,
            },
        )
    }
}

/// Compares a computed digest with the one the manifest gives.
pub fn check_hash(jobid: AsvoJobID, file: &str, expected: &str, computed: String) -> (r: Result<
    (),
    AsvoError,
>)
    ensures
        unit_outcome(r) == hash_verdict(jobid, file@, expected@, computed@),
{
    if eq_ignore_ascii_case(computed.as_str(), expected) {
        Ok(())
    } else {
        Err(
            AsvoError::HashMismatch {
                jobid,
                file: copy_str(file),
                calculated_hash: computed,
                expected_hash: copy_str(expected),
            },
        )
    }
}

/// Takes the contents of a file, its name, the expected hash and a job id,
/// and returns `Ok` if the SHA-1 of the contents matches the expected hash;
/// otherwise a hash mismatch that names them all.
pub fn check_file_sha1_hash(
    contents: &[u8],
    filename: &str,
    expected_hash: &str,
    job_id: AsvoJobID,
) -> (r: Result<(), AsvoError>)
    ensures
        unit_outcome(r) == hash_verdict(job_id, filename@, expected_hash@, sha1_hex(contents@)),
{
    let mut stream = HashedStream::new();
    stream.absorb(contents);
    assert(Seq::<u8>::empty() + contents@ =~= contents@);
    check_hash(job_id, filename, expected_hash, stream.finish())
}

} // verus!
