//! Trusted layer over the outside hash crates.
//!
//! Each outside hasher type is declared so it can stand in fields and
//! signatures, and gets a name for the byte sequence it has absorbed so
//! far and a name for the digest its algorithm assigns to a byte sequence.
//! The wrappers around `new`, `update` and `finalize` state, over those
//! names, what the `digest::Digest` interface documents: a fresh hasher
//! has absorbed nothing, `update` appends the chunk to what was absorbed,
//! and `finalize` returns the fixed-size digest of the absorbed bytes.

use vstd::prelude::*;

verus! {

/// Declares the outside MD5 hasher type, opaque to the proofs.
#[verifier::external_type_specification]
#[verifier::external_body]
pub struct ExMd5(md5::Md5);

/// Declares the outside SHA-1 hasher type, opaque to the proofs.
#[verifier::external_type_specification]
#[verifier::external_body]
pub struct ExSha1(sha1::Sha1);

/// Declares the outside SHA-256 hasher type, opaque to the proofs.
#[verifier::external_type_specification]
#[verifier::external_body]
pub struct ExSha256(sha2::Sha256);

/// Declares the outside SHA-512 hasher type, opaque to the proofs.
#[verifier::external_type_specification]
#[verifier::external_body]
pub struct ExSha512(sha2::Sha512);

/// Declares the outside SM3 hasher type, opaque to the proofs.
#[verifier::external_type_specification]
#[verifier::external_body]
pub struct ExSm3(sm3::Sm3);

/// The bytes an MD5 hasher has absorbed since it was created.
pub uninterp spec fn md5_absorbed(h: md5::Md5) -> Seq<u8>;

/// The bytes a SHA-1 hasher has absorbed since it was created.
pub uninterp spec fn sha1_absorbed(h: sha1::Sha1) -> Seq<u8>;

/// The bytes a SHA-256 hasher has absorbed since it was created.
pub uninterp spec fn sha256_absorbed(h: sha2::Sha256) -> Seq<u8>;

/// The bytes a SHA-512 hasher has absorbed since it was created.
pub uninterp spec fn sha512_absorbed(h: sha2::Sha512) -> Seq<u8>;

/// The bytes an SM3 hasher has absorbed since it was created.
pub uninterp spec fn sm3_absorbed(h: sm3::Sm3) -> Seq<u8>;

/// The MD5 digest (RFC 1321) of a byte sequence.
pub uninterp spec fn md5_digest(bytes: Seq<u8>) -> Seq<u8>;

/// The SHA-1 digest (FIPS 180-4) of a byte sequence.
pub uninterp spec fn sha1_digest(bytes: Seq<u8>) -> Seq<u8>;

/// The SHA-256 digest (FIPS 180-4) of a byte sequence.
pub uninterp spec fn sha256_digest(bytes: Seq<u8>) -> Seq<u8>;

/// The SHA-512 digest (FIPS 180-4) of a byte sequence.
pub uninterp spec fn sha512_digest(bytes: Seq<u8>) -> Seq<u8>;

/// The SM3 digest (GB/T 32905-2016) of a byte sequence.
pub uninterp spec fn sm3_digest(bytes: Seq<u8>) -> Seq<u8>;

/// Relies on md5::Md5::new (digest::Digest): a fresh hasher has absorbed nothing.
#[verifier::external_body]
pub(crate) fn md5_new() -> (h: md5::Md5)
    ensures
        md5_absorbed(h) == Seq::<u8>::empty(),
{
    <md5::Md5 as md5::Digest>::new()
}

/// Relies on md5::Md5::update (digest::Digest): absorbs the chunk after what came before.
#[verifier::external_body]
pub(crate) fn md5_update(h: &mut md5::Md5, chunk: &[u8])
    ensures
        md5_absorbed(*final(h)) == md5_absorbed(*old(h)) + chunk@,
{
    <md5::Md5 as md5::Digest>::update(h, chunk);
}

/// Relies on md5::Md5::finalize (digest::Digest): the 16-byte MD5 digest
/// (RFC 1321) of the absorbed bytes, a function of those bytes alone.
#[verifier::external_body]
pub(crate) fn md5_finalize(h: md5::Md5) -> (d: Vec<u8>)
    ensures
        d@ == md5_digest(md5_absorbed(h)),
        d@.len() == 16,
{
    <md5::Md5 as md5::Digest>::finalize(h).to_vec()
}

/// Relies on sha1::Sha1::new (digest::Digest): a fresh hasher has absorbed nothing.
#[verifier::external_body]
pub(crate) fn sha1_new() -> (h: sha1::Sha1)
    ensures
        sha1_absorbed(h) == Seq::<u8>::empty(),
{
    <sha1::Sha1 as sha1::Digest>::new()
}

/// Relies on sha1::Sha1::update (digest::Digest): absorbs the chunk after what came before.
#[verifier::external_body]
pub(crate) fn sha1_update(h: &mut sha1::Sha1, chunk: &[u8])
    ensures
        sha1_absorbed(*final(h)) == sha1_absorbed(*old(h)) + chunk@,
{
    <sha1::Sha1 as sha1::Digest>::update(h, chunk);
}

/// Relies on sha1::Sha1::finalize (digest::Digest): the 20-byte SHA-1 digest
/// (FIPS 180-4) of the absorbed bytes, a function of those bytes alone.
#[verifier::external_body]
pub(crate) fn sha1_finalize(h: sha1::Sha1) -> (d: Vec<u8>)
    ensures
        d@ == sha1_digest(sha1_absorbed(h)),
        d@.len() == 20,
{
    <sha1::Sha1 as sha1::Digest>::finalize(h).to_vec()
}

/// Relies on sha2::Sha256::new (digest::Digest): a fresh hasher has absorbed nothing.
#[verifier::external_body]
pub(crate) fn sha256_new() -> (h: sha2::Sha256)
    ensures
        sha256_absorbed(h) == Seq::<u8>::empty(),
{
    <sha2::Sha256 as sha2::Digest>::new()
}

/// Relies on sha2::Sha256::update (digest::Digest): absorbs the chunk after what came before.
#[verifier::external_body]
pub(crate) fn sha256_update(h: &mut sha2::Sha256, chunk: &[u8])
    ensures
        sha256_absorbed(*final(h)) == sha256_absorbed(*old(h)) + chunk@,
{
    <sha2::Sha256 as sha2::Digest>::update(h, chunk);
}

/// Relies on sha2::Sha256::finalize (digest::Digest): the 32-byte SHA-256
/// digest (FIPS 180-4) of the absorbed bytes, a function of those bytes alone.
#[verifier::external_body]
pub(crate) fn sha256_finalize(h: sha2::Sha256) -> (d: Vec<u8>)
    ensures
        d@ == sha256_digest(sha256_absorbed(h)),
        d@.len() == 32,
{
    <sha2::Sha256 as sha2::Digest>::finalize(h).to_vec()
}

/// Relies on sha2::Sha512::new (digest::Digest): a fresh hasher has absorbed nothing.
#[verifier::external_body]
pub(crate) fn sha512_new() -> (h: sha2::Sha512)
    ensures
        sha512_absorbed(h) == Seq::<u8>::empty(),
{
    <sha2::Sha512 as sha2::Digest>::new()
}

/// Relies on sha2::Sha512::update (digest::Digest): absorbs the chunk after what came before.
#[verifier::external_body]
pub(crate) fn sha512_update(h: &mut sha2::Sha512, chunk: &[u8])
    ensures
        sha512_absorbed(*final(h)) == sha512_absorbed(*old(h)) + chunk@,
{
    <sha2::Sha512 as sha2::Digest>::update(h, chunk);
}

/// Relies on sha2::Sha512::finalize (digest::Digest): the 64-byte SHA-512
/// digest (FIPS 180-4) of the absorbed bytes, a function of those bytes alone.
#[verifier::external_body]
pub(crate) fn sha512_finalize(h: sha2::Sha512) -> (d: Vec<u8>)
    ensures
        d@ == sha512_digest(sha512_absorbed(h)),
        d@.len() == 64,
{
    <sha2::Sha512 as sha2::Digest>::finalize(h).to_vec()
}

/// Relies on sm3::Sm3::new (digest::Digest): a fresh hasher has absorbed nothing.
#[verifier::external_body]
pub(crate) fn sm3_new() -> (h: sm3::Sm3)
    ensures
        sm3_absorbed(h) == Seq::<u8>::empty(),
{
    <sm3::Sm3 as sm3::Digest>::new()
}

/// Relies on sm3::Sm3::update (digest::Digest): absorbs the chunk after what came before.
#[verifier::external_body]
pub(crate) fn sm3_update(h: &mut sm3::Sm3, chunk: &[u8])
    ensures
        sm3_absorbed(*final(h)) == sm3_absorbed(*old(h)) + chunk@,
{
    <sm3::Sm3 as sm3::Digest>::update(h, chunk);
}

/// Relies on sm3::Sm3::finalize (digest::Digest): the 32-byte SM3 digest
/// (GB/T 32905-2016) of the absorbed bytes, a function of those bytes alone.
#[verifier::external_body]
pub(crate) fn sm3_finalize(h: sm3::Sm3) -> (d: Vec<u8>)
    ensures
        d@ == sm3_digest(sm3_absorbed(h)),
        d@.len() == 32,
{
    <sm3::Sm3 as sm3::Digest>::finalize(h).to_vec()
}

} // verus!
