//! One-shot digest computations over the default algorithm set, and the
//! laws the engine obeys.

use vstd::prelude::*;

verus! {

use vstd::pervasive::unreached;
use vstd::string::StringSliceAdditionalSpecFns;
use crate::Algorithm;
use crate::backend::{md5_digest, sha1_digest, sha256_digest, sha512_digest, sm3_digest};
use crate::backend::{md5_new, md5_update, md5_finalize};
use crate::backend::{sha1_new, sha1_update, sha1_finalize};
use crate::backend::{sha256_new, sha256_update, sha256_finalize};
use crate::backend::{sha512_new, sha512_update, sha512_finalize};
use crate::backend::{sm3_new, sm3_update, sm3_finalize};
use crate::hexfmt::{hex_of, hex_encode, lemma_hex_of_len};
use crate::session::{AlgorithmSet, DigestResult, Session, default_algorithms};

/// The digests of one input under the default algorithm set, hex-encoded,
/// one named field per algorithm.
pub struct HashResult {
    /// Lowercase hex MD5 digest.
    pub md5: String,
    /// Lowercase hex SHA-1 digest.
    pub sha1: String,
    /// Lowercase hex SHA-256 digest.
    pub sha256: String,
    /// Lowercase hex SHA-512 digest.
    pub sha512: String,
    /// Lowercase hex SM3 digest.
    pub sm3: String,
}

/// Every field of the result is the lowercase hex encoding of its
/// algorithm's digest of `bytes`.
pub open spec fn is_digests_of(r: HashResult, bytes: Seq<u8>) -> bool {
    &&& r.md5@ == hex_of(md5_digest(bytes))
    &&& r.sha1@ == hex_of(sha1_digest(bytes))
    &&& r.sha256@ == hex_of(sha256_digest(bytes))
    &&& r.sha512@ == hex_of(sha512_digest(bytes))
    &&& r.sm3@ == hex_of(sm3_digest(bytes))
}

/// The concatenation of a sequence of chunks.
pub open spec fn concat_chunks(chunks: Seq<Vec<u8>>) -> Seq<u8> {
    chunks.map_values(|c: Vec<u8>| c@).flatten()
}

/// Converts a finished default-set digest listing into the named-field
/// form, preserving each algorithm's digest.
fn into_hash_result(d: DigestResult, Ghost(bytes): Ghost<Seq<u8>>) -> (r: HashResult)
    requires
        d.is_digests_for(default_algorithms(), bytes),
    ensures
        is_digests_of(r, bytes),
{
    let mut entries = d.entries;
    proof {
        assert(default_algorithms()[0] == Algorithm::Md5);
        assert(default_algorithms()[1] == Algorithm::Sha1);
        assert(default_algorithms()[2] == Algorithm::Sha256);
        assert(default_algorithms()[3] == Algorithm::Sha512);
        assert(default_algorithms()[4] == Algorithm::Sm3);
    }
    let md5 = entries.remove(0);
    let sha1 = entries.remove(0);
    let sha256 = entries.remove(0);
    let sha512 = entries.remove(0);
    let sm3 = entries.remove(0);
    HashResult {
        md5: md5.hex,
        sha1: sha1.hex,
        sha256: sha256.hex,
        sha512: sha512.hex,
        sm3: sm3.hex,
    }
}

/// Computes every default-set digest of an in-memory input in one pass:
/// opens a session over the default algorithms, feeds the whole input as a
/// single chunk, and finishes.
pub fn hash_all(bytes: &[u8]) -> (r: HashResult)
    ensures
        is_digests_of(r, bytes@),
{
    let set = AlgorithmSet::all();
    let mut session = match Session::open(&set) {
        Ok(s) => s,
        Err(_) => unreached(),
    };
    let _ = session.feed(bytes);
    let digests = match session.finish() {
        Ok(d) => d,
        Err(_) => unreached(),
    };
    into_hash_result(digests, Ghost(bytes@))
}

/// Computes the default-set digests of an input presented as a sequence of
/// chunks of arbitrary sizes, feeding each chunk in turn.  The result is
/// that of `hash_all` on the concatenation of the chunks: how the input is
/// split cannot change any digest.
pub fn hash_chunked(chunks: &Vec<Vec<u8>>) -> (r: HashResult)
    ensures
        is_digests_of(r, concat_chunks(chunks@)),
{
    let ghost to_bytes = |c: Vec<u8>| c@;
    let set = AlgorithmSet::all();
    let mut session = match Session::open(&set) {
        Ok(s) => s,
        Err(_) => unreached(),
    };
    let n = chunks.len();
    let mut i: usize = 0;
    proof {
        assert(chunks@.subrange(0, 0).map_values(to_bytes) =~= Seq::<Seq<u8>>::empty());
        assert(session.fed() =~= chunks@.subrange(0, 0).map_values(to_bytes).flatten());
    }
    while i < n
        invariant
            n == chunks@.len(),
            i <= n,
            session.wf(),
            !session.is_finished(),
            session.algorithms() == default_algorithms(),
            session.fed() == chunks@.subrange(0, i as int).map_values(to_bytes).flatten(),
            to_bytes == (|c: Vec<u8>| c@),
        decreases n - i,
    {
        let ghost prefix = chunks@.subrange(0, i as int).map_values(to_bytes);
        let _ = session.feed(chunks[i].as_slice());
        proof {
            prefix.lemma_flatten_push(chunks@[i as int]@);
            assert(chunks@.subrange(0, i + 1 as int).map_values(to_bytes) =~= prefix.push(
                chunks@[i as int]@,
            ));
        }
        i += 1;
    }
    proof {
        assert(chunks@.subrange(0, n as int) =~= chunks@);
    }
    let digests = match session.finish() {
        Ok(d) => d,
        Err(_) => unreached(),
    };
    into_hash_result(digests, Ghost(concat_chunks(chunks@)))
}

/// Computes the default-set digests of a text, hashing its UTF-8 bytes.
pub fn hash_text(text: &str) -> (r: HashResult)
    ensures
        is_digests_of(r, text.spec_bytes()),
{
    hash_all(text.as_bytes())
}

/// The lowercase hex MD5 digest of a text's UTF-8 bytes.
pub fn md5_hash(value: &str) -> (r: String)
    ensures
        r@ == hex_of(md5_digest(value.spec_bytes())),
        r@.len() == 32,
{
    let mut h = md5_new();
    md5_update(&mut h, value.as_bytes());
    let d = md5_finalize(h);
    proof {
        lemma_hex_of_len(d@);
    }
    hex_encode(d.as_slice())
}

/// The lowercase hex SHA-1 digest of a text's UTF-8 bytes.
pub fn sha1_hash(value: &str) -> (r: String)
    ensures
        r@ == hex_of(sha1_digest(value.spec_bytes())),
        r@.len() == 40,
{
    let mut h = sha1_new();
    sha1_update(&mut h, value.as_bytes());
    let d = sha1_finalize(h);
    proof {
        lemma_hex_of_len(d@);
    }
    hex_encode(d.as_slice())
}

/// The lowercase hex SHA-256 digest of a text's UTF-8 bytes.
pub fn sha256_hash(value: &str) -> (r: String)
    ensures
        r@ == hex_of(sha256_digest(value.spec_bytes())),
        r@.len() == 64,
{
    let mut h = sha256_new();
    sha256_update(&mut h, value.as_bytes());
    let d = sha256_finalize(h);
    proof {
        lemma_hex_of_len(d@);
    }
    hex_encode(d.as_slice())
}

/// The lowercase hex SHA-512 digest of a text's UTF-8 bytes.
pub fn sha512_hash(value: &str) -> (r: String)
    ensures
        r@ == hex_of(sha512_digest(value.spec_bytes())),
        r@.len() == 128,
{
    let mut h = sha512_new();
    sha512_update(&mut h, value.as_bytes());
    let d = sha512_finalize(h);
    proof {
        lemma_hex_of_len(d@);
    }
    hex_encode(d.as_slice())
}

/// The lowercase hex SM3 digest of a text's UTF-8 bytes.
pub fn sm3_hash(value: &str) -> (r: String)
    ensures
        r@ == hex_of(sm3_digest(value.spec_bytes())),
        r@.len() == 64,
{
    let mut h = sm3_new();
    sm3_update(&mut h, value.as_bytes());
    let d = sm3_finalize(h);
    proof {
        lemma_hex_of_len(d@);
    }
    hex_encode(d.as_slice())
}

/// Determinism: any two results that carry the digests of the same byte
/// sequence agree on every field.
pub proof fn lemma_determinism(r1: HashResult, r2: HashResult, bytes: Seq<u8>)
    requires
        is_digests_of(r1, bytes),
        is_digests_of(r2, bytes),
    ensures
        r1.md5@ == r2.md5@,
        r1.sha1@ == r2.sha1@,
        r1.sha256@ == r2.sha256@,
        r1.sha512@ == r2.sha512@,
        r1.sm3@ == r2.sm3@,
{
}

/// Chunk-invariance: a result computed from an input split into chunks
/// agrees, field for field, with a result computed from the whole input,
/// whenever the chunks concatenate to that input.
pub proof fn lemma_chunk_invariance(
    r1: HashResult,
    r2: HashResult,
    chunks: Seq<Vec<u8>>,
    whole: Seq<u8>,
)
    requires
        concat_chunks(chunks) == whole,
        is_digests_of(r1, concat_chunks(chunks)),
        is_digests_of(r2, whole),
    ensures
        r1.md5@ == r2.md5@,
        r1.sha1@ == r2.sha1@,
        r1.sha256@ == r2.sha256@,
        r1.sha512@ == r2.sha512@,
        r1.sm3@ == r2.sm3@,
{
}

/// Order preservation: in a well-formed digest listing the entry at each
/// position belongs to the algorithm requested at that position.
pub proof fn lemma_order_preserved(d: DigestResult, algs: Seq<Algorithm>, bytes: Seq<u8>, i: int)
    requires
        d.is_digests_for(algs, bytes),
        0 <= i < algs.len(),
    ensures
        d.entries@[i].algorithm == algs[i],
{
}

} // verus!

