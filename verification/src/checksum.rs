//! Content digests used to decide whether a file changed.
//!
//! The digest itself comes from the sha1 crate; this module wraps its
//! incremental hashing API so that callers can stream a byte source in
//! bounded-size chunks and still reason about the digest of the whole
//! sequence of bytes fed in.

use vstd::prelude::*;
use sha1::Digest;

verus! {

/// The SHA-1 digest of a byte sequence, exactly as the sha1 crate computes
/// it. The digest is a function of the bytes alone, which is all the rest of
/// the library relies on.
pub uninterp spec fn sha1_of(bytes: Seq<u8>) -> Seq<u8>;

/// The bytes a running digest computation has absorbed so far.
pub uninterp spec fn fed_bytes(engine: &ChecksumEngine) -> Seq<u8>;

/// A running digest computation. Verus refuses to declare the sha1 crate's
/// hasher type itself (it is a tower of type-level integers), so the hasher
/// is held opaquely and described through `fed_bytes`.
#[verifier::external_body]
pub struct ChecksumEngine {
    inner: sha1::Sha1,
}

impl ChecksumEngine {
    /// Relies on sha1's `Digest::new`: a fresh hasher has absorbed nothing.
    #[verifier::external_body]
    pub fn new() -> (engine: ChecksumEngine)
        ensures
            fed_bytes(&engine) == Seq::<u8>::empty(),
    {
        ChecksumEngine { inner: sha1::Sha1::new() }
    }

    /// Relies on sha1's `Digest::update`: the hasher absorbs the chunk after
    /// everything fed before it.
    #[verifier::external_body]
    pub fn update(&mut self, chunk: &[u8])
        ensures
            fed_bytes(final(self)) == fed_bytes(old(self)) + chunk@,
    {
        self.inner.update(chunk);
    }

    /// Relies on sha1's `Digest::finalize`: the 20-byte digest depends on the
    /// absorbed bytes alone.
    #[verifier::external_body]
    pub fn finalize(self) -> (digest: Vec<u8>)
        ensures
            digest@ == sha1_of(fed_bytes(&self)),
            digest@.len() == 20,
    {
        self.inner.finalize().to_vec()
    }
}

/// Size of the chunks an in-memory byte buffer is folded in.
pub const CHECKSUM_CHUNK_SIZE: usize = 1024;

/// Digests a whole in-memory buffer, streaming it through the engine in
/// bounded-size chunks.
pub fn checksum_from_bytes(content: &[u8]) -> (digest: Vec<u8>)
    ensures
        digest@ == sha1_of(content@),
        digest@.len() == 20,
{
    let mut engine = ChecksumEngine::new();
    let mut start: usize = 0;
    while start < content.len()
        invariant
            start <= content@.len(),
            fed_bytes(&engine) == content@.subrange(0, start as int),
        decreases content@.len() - start,
    {
        let end = if content.len() - start < CHECKSUM_CHUNK_SIZE {
            content.len()
        } else {
            start + CHECKSUM_CHUNK_SIZE
        };
        engine.update(vstd::slice::slice_subrange(content, start, end));
        proof {
            assert(fed_bytes(&engine) =~= content@.subrange(0, end as int));
        }
        start = end;
    }
    proof {
        assert(fed_bytes(&engine) =~= content@);
    }
    engine.finalize()
}

/// Compares two digests byte for byte; digest equality is the sole criterion
/// for "file unchanged".
pub fn checksums_equal(a: &Vec<u8>, b: &Vec<u8>) -> (equal: bool)
    ensures
        equal == (a@ == b@),
{
    if a.len() != b.len() {
        proof {
            assert(a@ != b@);
        }
        return false;
    }
    let mut index: usize = 0;
    while index < a.len()
        invariant
            index <= a@.len(),
            a@.len() == b@.len(),
            forall|i: int| 0 <= i < index ==> a@[i] == b@[i],
        decreases a@.len() - index,
    {
        if a[index] != b[index] {
            proof {
                assert(a@ != b@);
            }
            return false;
        }
        index += 1;
    }
    proof {
        assert(a@ =~= b@);
    }
    true
}

/// Hashing the same byte sequence twice always yields the same digest: the
/// digest is a function of the content alone.
pub proof fn lemma_checksum_deterministic(bytes_a: Seq<u8>, bytes_b: Seq<u8>)
    requires
        bytes_a == bytes_b,
    ensures
        sha1_of(bytes_a) == sha1_of(bytes_b),
{
}

} // verus!
