//! Streaming multi-algorithm digest engine.
//!
//! One pass over a byte stream feeds any chosen set of hash algorithms
//! (MD5, SHA-1, SHA-256, SHA-512, SM3) in lockstep, so that a file or
//! buffer is read once and every requested digest comes out of that
//! single read, hex-encoded, in the order the algorithms were requested.

use vstd::prelude::*;

pub mod backend;
pub mod engine;
pub mod hexfmt;
pub mod session;

pub use engine::{
    HashResult, hash_all, hash_chunked, hash_text, is_digests_of, concat_chunks, md5_hash,
    sha1_hash, sha256_hash, sha512_hash, sm3_hash, lemma_determinism, lemma_chunk_invariance,
    lemma_order_preserved,
};
pub use session::{AlgorithmSet, DigestEntry, DigestResult, Session, default_algorithms};

verus! {

use crate::backend::{md5_digest, sha1_digest, sha256_digest, sha512_digest, sm3_digest};

/// The hash algorithms the engine can run.
#[derive(Clone, Copy, PartialEq, Eq, Structural, Debug)]
pub enum Algorithm {
    Md5,
    Sha1,
    Sha256,
    Sha512,
    Sm3,
}

impl Algorithm {
    /// Digest size in bytes for this algorithm.
    pub open spec fn spec_digest_len(self) -> nat {
        match self {
            Algorithm::Md5 => 16,
            Algorithm::Sha1 => 20,
            Algorithm::Sha256 => 32,
            Algorithm::Sha512 => 64,
            Algorithm::Sm3 => 32,
        }
    }

    /// Digest size in bytes for this algorithm.
    pub fn digest_len(self) -> (n: usize)
        ensures
            n == self.spec_digest_len(),
    {
        match self {
            Algorithm::Md5 => 16,
            Algorithm::Sha1 => 20,
            Algorithm::Sha256 => 32,
            Algorithm::Sha512 => 64,
            Algorithm::Sm3 => 32,
        }
    }
}

/// The digest an algorithm assigns to a byte sequence.
pub open spec fn spec_digest(a: Algorithm, bytes: Seq<u8>) -> Seq<u8> {
    match a {
        Algorithm::Md5 => md5_digest(bytes),
        Algorithm::Sha1 => sha1_digest(bytes),
        Algorithm::Sha256 => sha256_digest(bytes),
        Algorithm::Sha512 => sha512_digest(bytes),
        Algorithm::Sm3 => sm3_digest(bytes),
    }
}

/// How a digest computation can fail.
#[derive(Clone, Copy, PartialEq, Eq, Structural, Debug)]
pub enum HashError {
    /// A session was requested with an empty algorithm set.
    InvalidAlgorithmSet,
    /// A file could not be opened or read to the end.
    FileAccess,
    /// A session was fed or finished after it had already been finished.
    SessionMisuse,
}

} // verus!
