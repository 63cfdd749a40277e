//! Multi-algorithm digest sessions.
//!
//! A session owns one accumulator per requested algorithm and feeds all of
//! them in lockstep with the same chunks, so one pass over the input yields
//! every requested digest.  A session is finished exactly once; feeding or
//! finishing it again is rejected with `SessionMisuse`.

use vstd::prelude::*;

verus! {

use crate::Algorithm;
use crate::HashError;
use crate::spec_digest;
use crate::backend::{md5_absorbed, sha1_absorbed, sha256_absorbed, sha512_absorbed, sm3_absorbed};
use crate::backend::{md5_new, sha1_new, sha256_new, sha512_new, sm3_new};
use crate::backend::{md5_update, sha1_update, sha256_update, sha512_update, sm3_update};
use crate::backend::{md5_finalize, sha1_finalize, sha256_finalize, sha512_finalize, sm3_finalize};
use crate::hexfmt::{hex_of, hex_encode};

/// No algorithm occurs twice in the sequence.
pub open spec fn distinct_algorithms(s: Seq<Algorithm>) -> bool {
    forall|i: int, j: int| 0 <= i < j < s.len() ==> s[i] != s[j]
}

/// An ordered, duplicate-free selection of algorithms for one computation.
pub struct AlgorithmSet {
    algs: Vec<Algorithm>,
}

impl View for AlgorithmSet {
    type V = Seq<Algorithm>;

    closed spec fn view(&self) -> Seq<Algorithm> {
        self.algs@
    }
}

impl AlgorithmSet {
    /// The set never holds the same algorithm twice.
    pub open spec fn wf(&self) -> bool {
        distinct_algorithms(self@)
    }

    /// An empty selection.
    pub fn new() -> (s: AlgorithmSet)
        ensures
            s@ == Seq::<Algorithm>::empty(),
            s.wf(),
    {
        AlgorithmSet { algs: Vec::new() }
    }

    /// Every supported algorithm, in the fixed default order.
    pub fn all() -> (s: AlgorithmSet)
        ensures
            s@ == default_algorithms(),
            s.wf(),
    {
        let mut algs: Vec<Algorithm> = Vec::new();
        algs.push(Algorithm::Md5);
        algs.push(Algorithm::Sha1);
        algs.push(Algorithm::Sha256);
        algs.push(Algorithm::Sha512);
        algs.push(Algorithm::Sm3);
        proof {
            assert(algs@ =~= default_algorithms());
        }
        AlgorithmSet { algs }
    }

    /// Appends an algorithm unless it is already selected, keeping the
    /// order of first requests.
    pub fn add(&mut self, a: Algorithm)
        requires
            old(self).wf(),
        ensures
            final(self).wf(),
            old(self)@.contains(a) ==> final(self)@ == old(self)@,
            !old(self)@.contains(a) ==> final(self)@ == old(self)@.push(a),
    {
        let n = self.algs.len();
        let mut i: usize = 0;
        while i < n
            invariant
                n == self.algs@.len(),
                i <= n,
                self@ == old(self)@,
                self.wf(),
                forall|k: int| 0 <= k < i ==> self.algs@[k] != a,
            decreases n - i,
        {
            if self.algs[i] == a {
                proof {
                    assert(self@.contains(a));
                }
                return ;
            }
            i += 1;
        }
        proof {
            assert(forall|k: int| 0 <= k < self.algs@.len() ==> self.algs@[k] != a);
            assert(!self@.contains(a));
        }
        self.algs.push(a);
    }

    /// How many algorithms are selected.
    pub fn len(&self) -> (n: usize)
        ensures
            n == self@.len(),
    {
        self.algs.len()
    }

    /// The algorithm at a position.
    pub fn get(&self, i: usize) -> (a: Algorithm)
        requires
            i < self@.len(),
        ensures
            a == self@[i as int],
    {
        self.algs[i]
    }
}

/// The fixed default algorithm order: MD5, SHA-1, SHA-256, SHA-512, SM3.
pub open spec fn default_algorithms() -> Seq<Algorithm> {
    seq![Algorithm::Md5, Algorithm::Sha1, Algorithm::Sha256, Algorithm::Sha512, Algorithm::Sm3]
}

/// Per-algorithm accumulator: the outside hasher state for one algorithm.
pub(crate) enum Accumulator {
    Md5(md5::Md5),
    Sha1(sha1::Sha1),
    Sha256(sha2::Sha256),
    Sha512(sha2::Sha512),
    Sm3(sm3::Sm3),
}

/// Which algorithm an accumulator runs.
pub(crate) open spec fn acc_alg(a: Accumulator) -> Algorithm {
    match a {
        Accumulator::Md5(_) => Algorithm::Md5,
        Accumulator::Sha1(_) => Algorithm::Sha1,
        Accumulator::Sha256(_) => Algorithm::Sha256,
        Accumulator::Sha512(_) => Algorithm::Sha512,
        Accumulator::Sm3(_) => Algorithm::Sm3,
    }
}

/// The bytes an accumulator has absorbed so far.
pub(crate) open spec fn acc_absorbed(a: Accumulator) -> Seq<u8> {
    match a {
        Accumulator::Md5(h) => md5_absorbed(h),
        Accumulator::Sha1(h) => sha1_absorbed(h),
        Accumulator::Sha256(h) => sha256_absorbed(h),
        Accumulator::Sha512(h) => sha512_absorbed(h),
        Accumulator::Sm3(h) => sm3_absorbed(h),
    }
}

/// A fresh accumulator for the given algorithm.
fn new_accumulator(a: Algorithm) -> (acc: Accumulator)
    ensures
        acc_alg(acc) == a,
        acc_absorbed(acc) == Seq::<u8>::empty(),
{
    match a {
        Algorithm::Md5 => Accumulator::Md5(md5_new()),
        Algorithm::Sha1 => Accumulator::Sha1(sha1_new()),
        Algorithm::Sha256 => Accumulator::Sha256(sha256_new()),
        Algorithm::Sha512 => Accumulator::Sha512(sha512_new()),
        Algorithm::Sm3 => Accumulator::Sm3(sm3_new()),
    }
}

/// Absorbs a chunk into one accumulator.
fn feed_accumulator(a: Accumulator, chunk: &[u8]) -> (r: Accumulator)
    ensures
        acc_alg(r) == acc_alg(a),
        acc_absorbed(r) == acc_absorbed(a) + chunk@,
{
    match a {
        Accumulator::Md5(mut h) => {
            md5_update(&mut h, chunk);
            Accumulator::Md5(h)
        },
        Accumulator::Sha1(mut h) => {
            sha1_update(&mut h, chunk);
            Accumulator::Sha1(h)
        },
        Accumulator::Sha256(mut h) => {
            sha256_update(&mut h, chunk);
            Accumulator::Sha256(h)
        },
        Accumulator::Sha512(mut h) => {
            sha512_update(&mut h, chunk);
            Accumulator::Sha512(h)
        },
        Accumulator::Sm3(mut h) => {
            sm3_update(&mut h, chunk);
            Accumulator::Sm3(h)
        },
    }
}

/// Finalizes one accumulator into its raw digest bytes.
fn finalize_accumulator(a: Accumulator) -> (d: Vec<u8>)
    ensures
        d@ == spec_digest(acc_alg(a), acc_absorbed(a)),
        d@.len() == acc_alg(a).spec_digest_len(),
{
    match a {
        Accumulator::Md5(h) => md5_finalize(h),
        Accumulator::Sha1(h) => sha1_finalize(h),
        Accumulator::Sha256(h) => sha256_finalize(h),
        Accumulator::Sha512(h) => sha512_finalize(h),
        Accumulator::Sm3(h) => sm3_finalize(h),
    }
}

/// One finished digest: the algorithm, its raw digest bytes, and their
/// lowercase hex encoding.
pub struct DigestEntry {
    /// The algorithm this digest came from.
    pub algorithm: Algorithm,
    /// The raw digest bytes, of the algorithm's fixed digest length.
    pub bytes: Vec<u8>,
    /// The digest bytes, rendered as lowercase hexadecimal.
    pub hex: String,
}

/// The digests of one computation, one entry per requested algorithm, in
/// the order the algorithms were requested.
pub struct DigestResult {
    /// The finished digests, in request order.
    pub entries: Vec<DigestEntry>,
}

impl DigestResult {
    /// The result carries exactly the digests of `input` under `algs`,
    /// entry `i` belonging to the `i`-th requested algorithm, its raw bytes
    /// of the algorithm's digest length and its hex field their encoding.
    pub open spec fn is_digests_for(self, algs: Seq<Algorithm>, input: Seq<u8>) -> bool {
        &&& self.entries@.len() == algs.len()
        &&& forall|i: int|
            0 <= i < algs.len() ==> (#[trigger] self.entries@[i]).algorithm == algs[i]
        &&& forall|i: int|
            0 <= i < algs.len() ==> (#[trigger] self.entries@[i]).bytes@ == spec_digest(
                algs[i],
                input,
            )
        &&& forall|i: int|
            0 <= i < algs.len() ==> (#[trigger] self.entries@[i]).bytes@.len()
                == algs[i].spec_digest_len()
        &&& forall|i: int|
            0 <= i < algs.len() ==> (#[trigger] self.entries@[i]).hex@ == hex_of(
                spec_digest(algs[i], input),
            )
    }

    /// The hex digest recorded for an algorithm, if that algorithm was
    /// requested.
    pub fn get(&self, a: Algorithm) -> (r: Option<&String>)
        ensures
            match r {
                Some(s) => exists|i: int|
                    0 <= i < self.entries@.len() && (#[trigger] self.entries@[i]).algorithm == a
                        && s@ == self.entries@[i].hex@,
                None => forall|i: int|
                    0 <= i < self.entries@.len() ==> (#[trigger] self.entries@[i]).algorithm != a,
            },
    {
        let n = self.entries.len();
        let mut i: usize = 0;
        while i < n
            invariant
                n == self.entries@.len(),
                i <= n,
                forall|k: int| 0 <= k < i ==> (#[trigger] self.entries@[k]).algorithm != a,
            decreases n - i,
        {
            if self.entries[i].algorithm == a {
                return Some(&self.entries[i].hex);
            }
            i += 1;
        }
        None
    }
}

/// One multi-algorithm computation: accumulators fed in lockstep from open
/// to finish.
pub struct Session {
    algs: Vec<Algorithm>,
    accs: Vec<Accumulator>,
    done: bool,
    fed: Ghost<Seq<u8>>,
}

impl Session {
    /// The algorithms this session computes, in request order.
    pub closed spec fn algorithms(self) -> Seq<Algorithm> {
        self.algs@
    }

    /// The bytes fed so far (the concatenation of all chunks).
    pub closed spec fn fed(self) -> Seq<u8> {
        self.fed@
    }

    /// Whether the session has already been finished.
    pub closed spec fn is_finished(self) -> bool {
        self.done
    }

    /// Well-formedness: a non-empty, duplicate-free algorithm list, and, as
    /// long as the session is live, one accumulator per algorithm, in the
    /// same order, all having absorbed exactly the bytes fed so far.
    pub closed spec fn wf(self) -> bool {
        &&& 0 < self.algs@.len()
        &&& distinct_algorithms(self.algs@)
        &&& !self.done ==> {
            &&& self.accs@.len() == self.algs@.len()
            &&& forall|i: int|
                0 <= i < self.accs@.len() ==> acc_alg(#[trigger] self.accs@[i]) == self.algs@[i]
            &&& forall|i: int|
                0 <= i < self.accs@.len() ==> acc_absorbed(#[trigger] self.accs@[i]) == self.fed@
        }
    }

    /// Opens a session with one fresh accumulator per requested algorithm.
    /// Fails exactly when the algorithm set is empty.
    pub fn open(set: &AlgorithmSet) -> (r: Result<Session, HashError>)
        requires
            set.wf(),
        ensures
            set@.len() == 0 ==> r == Result::<Session, HashError>::Err(
                HashError::InvalidAlgorithmSet,
            ),
            set@.len() > 0 ==> (r matches Ok(s) && s.wf() && s.algorithms() == set@ && s.fed()
                == Seq::<u8>::empty() && !s.is_finished()),
    {
        let n = set.len();
        if n == 0 {
            return Err(HashError::InvalidAlgorithmSet);
        }
        let mut algs: Vec<Algorithm> = Vec::new();
        let mut accs: Vec<Accumulator> = Vec::new();
        let mut i: usize = 0;
        while i < n
            invariant
                n == set@.len(),
                i <= n,
                algs@.len() == i,
                accs@.len() == i,
                forall|k: int| 0 <= k < i ==> algs@[k] == set@[k],
                forall|k: int| 0 <= k < i ==> acc_alg(#[trigger] accs@[k]) == set@[k],
                forall|k: int| 0 <= k < i ==> acc_absorbed(#[trigger] accs@[k]) == Seq::<u8>::empty(),
            decreases n - i,
        {
            let a = set.get(i);
            algs.push(a);
            accs.push(new_accumulator(a));
            i += 1;
        }
        proof {
            assert(algs@ =~= set@);
        }
        Ok(Session { algs, accs, done: false, fed: Ghost(Seq::empty()) })
    }

    /// Feeds one chunk to every accumulator, in the fixed algorithm order.
    /// A zero-length chunk is a no-op on the absorbed bytes.  Rejected with
    /// `SessionMisuse` once the session is finished.
    pub fn feed(&mut self, chunk: &[u8]) -> (r: Result<(), HashError>)
        requires
            old(self).wf(),
        ensures
            final(self).wf(),
            final(self).algorithms() == old(self).algorithms(),
            final(self).is_finished() == old(self).is_finished(),
            old(self).is_finished() ==> r == Result::<(), HashError>::Err(HashError::SessionMisuse)
                && final(self).fed() == old(self).fed(),
            !old(self).is_finished() ==> r == Result::<(), HashError>::Ok(()) && final(self).fed()
                == old(self).fed() + chunk@,
    {
        if self.done {
            return Err(HashError::SessionMisuse);
        }
        let ghost prior = self.fed@;
        let n = self.accs.len();
        let mut i: usize = 0;
        while i < n
            invariant
                n == self.accs@.len(),
                i <= n,
                self.algs@ == old(self).algs@,
                self.fed@ == prior,
                self.done == old(self).done,
                !self.done,
                self.accs@.len() == self.algs@.len(),
                forall|k: int|
                    0 <= k < n ==> acc_alg(#[trigger] self.accs@[k]) == self.algs@[k],
                forall|k: int| 0 <= k < i ==> acc_absorbed(#[trigger] self.accs@[k]) == prior + chunk@,
                forall|k: int| i <= k < n ==> acc_absorbed(#[trigger] self.accs@[k]) == prior,
            decreases n - i,
        {
            let acc = self.accs.remove(i);
            let acc = feed_accumulator(acc, chunk);
            self.accs.insert(i, acc);
            i += 1;
        }
        self.fed = Ghost(prior + chunk@);
        Ok(())
    }

    /// Finalizes every accumulator and returns one digest per requested
    /// algorithm, hex-encoded, in request order.  The first call finishes
    /// the session; any later call is rejected with `SessionMisuse`.
    pub fn finish(&mut self) -> (r: Result<DigestResult, HashError>)
        requires
            old(self).wf(),
        ensures
            final(self).wf(),
            final(self).algorithms() == old(self).algorithms(),
            final(self).fed() == old(self).fed(),
            final(self).is_finished(),
            old(self).is_finished() ==> (r matches Err(e) && e == HashError::SessionMisuse),
            !old(self).is_finished() ==> (r matches Ok(d) && d.is_digests_for(
                old(self).algorithms(),
                old(self).fed(),
            )),
    {
        if self.done {
            return Err(HashError::SessionMisuse);
        }
        self.done = true;
        let ghost total = self.fed@;
        let n = self.algs.len();
        let mut entries: Vec<DigestEntry> = Vec::new();
        let mut i: usize = 0;
        while i < n
            invariant
                n == self.algs@.len(),
                i <= n,
                self.algs@ == old(self).algs@,
                self.fed@ == total,
                self.done,
                self.accs@.len() == n - i,
                entries@.len() == i,
                forall|k: int|
                    0 <= k < self.accs@.len() ==> acc_alg(#[trigger] self.accs@[k]) == self.algs@[
                        k + i
                    ],
                forall|k: int|
                    0 <= k < self.accs@.len() ==> acc_absorbed(#[trigger] self.accs@[k]) == total,
                forall|k: int|
                    0 <= k < i ==> (#[trigger] entries@[k]).algorithm == self.algs@[k],
                forall|k: int|
                    0 <= k < i ==> (#[trigger] entries@[k]).bytes@ == spec_digest(
                        self.algs@[k],
                        total,
                    ),
                forall|k: int|
                    0 <= k < i ==> (#[trigger] entries@[k]).bytes@.len()
                        == self.algs@[k].spec_digest_len(),
                forall|k: int|
                    0 <= k < i ==> (#[trigger] entries@[k]).hex@ == hex_of(
                        spec_digest(self.algs@[k], total),
                    ),
            decreases n - i,
        {
            let acc = self.accs.remove(0);
            let algorithm = self.algs[i];
            let digest = finalize_accumulator(acc);
            let hex = hex_encode(digest.as_slice());
            entries.push(DigestEntry { algorithm, bytes: digest, hex });
            i += 1;
        }
        Ok(DigestResult { entries })
    }
}

} // verus!
