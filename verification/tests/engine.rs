use multidigest::{hash_all, hash_chunked, hash_text, md5_hash, sha1_hash, sha256_hash, sha512_hash, sm3_hash};
use multidigest::{Algorithm, AlgorithmSet, HashError, Session};

const EMPTY_MD5: &str = "d41d8cd98f00b204e9800998ecf8427e";
const EMPTY_SHA1: &str = "da39a3ee5e6b4b0d3255bfef95601890afd80709";
const EMPTY_SHA256: &str = "e3b0c44298fc1c149afbf4c8996fb92427ae41e4649b934ca495991b7852b855";
const EMPTY_SHA512: &str = "cf83e1357eefb8bdf1542850d66d8007d620e4050b5715dc83f4a921d36ce9ce47d0d13c5d85f2b0ff8318d2877eec2f63b931bd47417a81a538327af927da3e";
const EMPTY_SM3: &str = "1ab21d8355cfa17f8e61194831e81a8f22bec8c728fefb747ed035eb5082aa2b";

const ABC_MD5: &str = "900150983cd24fb0d6963f7d28e17f72";
const ABC_SHA1: &str = "a9993e364706816aba3e25717850c26c9cd0d89d";
const ABC_SHA256: &str = "ba7816bf8f01cfea414140de5dae2223b00361a396177a9cb410ff61f20015ad";
const ABC_SHA512: &str = "ddaf35a193617abacc417349ae20413112e6fa4e89a97ea20a9eeee64b55d39a2192992a274fc1a836ba3c23a3feebbd454d4423643ce80e2a9ac94fa54ca49f";
const ABC_SM3: &str = "66c7f0f462eeedd9d1f2d46bdc10e4e24167c4875cf2f7a2297da02b8f4ba8e0";

#[test]
fn empty_input_known_vectors() {
    let r = hash_all(b"");
    assert_eq!(r.md5, EMPTY_MD5);
    assert_eq!(r.sha1, EMPTY_SHA1);
    assert_eq!(r.sha256, EMPTY_SHA256);
    assert_eq!(r.sha512, EMPTY_SHA512);
    assert_eq!(r.sm3, EMPTY_SM3);
}

#[test]
fn abc_known_vectors() {
    let r = hash_all(b"abc");
    assert_eq!(r.md5, ABC_MD5);
    assert_eq!(r.sha1, ABC_SHA1);
    assert_eq!(r.sha256, ABC_SHA256);
    assert_eq!(r.sha512, ABC_SHA512);
    assert_eq!(r.sm3, ABC_SM3);
}

#[test]
fn single_algorithm_helpers_match_vectors() {
    assert_eq!(md5_hash("abc"), ABC_MD5);
    assert_eq!(sha1_hash("abc"), ABC_SHA1);
    assert_eq!(sha256_hash("abc"), ABC_SHA256);
    assert_eq!(sha512_hash("abc"), ABC_SHA512);
    assert_eq!(sm3_hash("abc"), ABC_SM3);
}

#[test]
fn hash_text_hashes_utf8_bytes() {
    let r1 = hash_text("abc");
    let r2 = hash_all(b"abc");
    assert_eq!(r1.md5, r2.md5);
    assert_eq!(r1.sha1, r2.sha1);
    assert_eq!(r1.sha256, r2.sha256);
    assert_eq!(r1.sha512, r2.sha512);
    assert_eq!(r1.sm3, r2.sm3);
    let u = hash_text("héllo wörld");
    let v = hash_all("héllo wörld".as_bytes());
    assert_eq!(u.sha256, v.sha256);
}

#[test]
fn determinism_same_input_same_result() {
    let input = b"the quick brown fox jumps over the lazy dog";
    let r1 = hash_all(input);
    let r2 = hash_all(input);
    assert_eq!(r1.md5, r2.md5);
    assert_eq!(r1.sha1, r2.sha1);
    assert_eq!(r1.sha256, r2.sha256);
    assert_eq!(r1.sha512, r2.sha512);
    assert_eq!(r1.sm3, r2.sm3);
}

#[test]
fn chunk_invariance_arbitrary_splits() {
    let whole: Vec<u8> = (0u8..=255).cycle().take(5000).collect();
    let one = hash_all(&whole);

    // single whole-input chunk
    let r = hash_chunked(&vec![whole.clone()]);
    assert_eq!(r.sha256, one.sha256);
    assert_eq!(r.sha512, one.sha512);

    // many one-byte chunks
    let bytes: Vec<Vec<u8>> = whole.iter().map(|b| vec![*b]).collect();
    let r = hash_chunked(&bytes);
    assert_eq!(r.md5, one.md5);
    assert_eq!(r.sha1, one.sha1);
    assert_eq!(r.sha256, one.sha256);
    assert_eq!(r.sha512, one.sha512);
    assert_eq!(r.sm3, one.sm3);

    // uneven split
    let r = hash_chunked(&vec![
        whole[..1].to_vec(),
        whole[1..1500].to_vec(),
        Vec::new(),
        whole[1500..4096].to_vec(),
        whole[4096..].to_vec(),
    ]);
    assert_eq!(r.md5, one.md5);
    assert_eq!(r.sm3, one.sm3);
}

#[test]
fn empty_chunk_list_is_empty_input() {
    let r = hash_chunked(&Vec::new());
    assert_eq!(r.md5, EMPTY_MD5);
    assert_eq!(r.sha512, EMPTY_SHA512);
}

#[test]
fn zero_length_feed_is_noop() {
    let set = AlgorithmSet::all();
    let mut session = Session::open(&set).unwrap();
    session.feed(b"").unwrap();
    session.feed(b"abc").unwrap();
    session.feed(b"").unwrap();
    let d = session.finish().unwrap();
    assert_eq!(*d.get(Algorithm::Sha256).unwrap(), ABC_SHA256);
}

#[test]
fn empty_set_rejected() {
    let set = AlgorithmSet::new();
    let r = Session::open(&set);
    assert!(matches!(r, Err(HashError::InvalidAlgorithmSet)));
}

#[test]
fn order_preserved_in_result() {
    let mut set = AlgorithmSet::new();
    set.add(Algorithm::Sm3);
    set.add(Algorithm::Md5);
    set.add(Algorithm::Sha1);
    let mut session = Session::open(&set).unwrap();
    session.feed(b"abc").unwrap();
    let d = session.finish().unwrap();
    assert_eq!(d.entries.len(), 3);
    assert_eq!(d.entries[0].algorithm, Algorithm::Sm3);
    assert_eq!(d.entries[1].algorithm, Algorithm::Md5);
    assert_eq!(d.entries[2].algorithm, Algorithm::Sha1);
    assert_eq!(d.entries[0].hex, ABC_SM3);
    assert_eq!(d.entries[1].hex, ABC_MD5);
    assert_eq!(d.entries[2].hex, ABC_SHA1);
    assert_eq!(d.entries[0].bytes.len(), 32);
    assert_eq!(d.entries[1].bytes.len(), 16);
    assert_eq!(d.entries[2].bytes.len(), 20);
    assert_eq!(hex::encode(&d.entries[1].bytes), ABC_MD5);
}

#[test]
fn algorithm_set_deduplicates() {
    let mut set = AlgorithmSet::new();
    set.add(Algorithm::Sha256);
    set.add(Algorithm::Sha256);
    set.add(Algorithm::Sha256);
    assert_eq!(set.len(), 1);
    let mut session = Session::open(&set).unwrap();
    session.feed(b"abc").unwrap();
    let d = session.finish().unwrap();
    assert_eq!(d.entries.len(), 1);
    assert_eq!(d.entries[0].hex, ABC_SHA256);
}

#[test]
fn finish_twice_is_misuse() {
    let set = AlgorithmSet::all();
    let mut session = Session::open(&set).unwrap();
    session.feed(b"abc").unwrap();
    let first = session.finish();
    assert!(first.is_ok());
    let second = session.finish();
    assert!(matches!(second, Err(HashError::SessionMisuse)));
}

#[test]
fn feed_after_finish_is_misuse() {
    let set = AlgorithmSet::all();
    let mut session = Session::open(&set).unwrap();
    session.finish().unwrap();
    let r = session.feed(b"abc");
    assert!(matches!(r, Err(HashError::SessionMisuse)));
}

#[test]
fn digest_result_lookup() {
    let mut set = AlgorithmSet::new();
    set.add(Algorithm::Md5);
    let mut session = Session::open(&set).unwrap();
    session.feed(b"abc").unwrap();
    let d = session.finish().unwrap();
    assert_eq!(*d.get(Algorithm::Md5).unwrap(), ABC_MD5);
    assert!(d.get(Algorithm::Sha512).is_none());
}

#[test]
fn digest_lengths() {
    assert_eq!(Algorithm::Md5.digest_len(), 16);
    assert_eq!(Algorithm::Sha1.digest_len(), 20);
    assert_eq!(Algorithm::Sha256.digest_len(), 32);
    assert_eq!(Algorithm::Sha512.digest_len(), 64);
    assert_eq!(Algorithm::Sm3.digest_len(), 32);
    let r = hash_all(b"xyz");
    assert_eq!(r.md5.len(), 32);
    assert_eq!(r.sha1.len(), 40);
    assert_eq!(r.sha256.len(), 64);
    assert_eq!(r.sha512.len(), 128);
    assert_eq!(r.sm3.len(), 64);
}
