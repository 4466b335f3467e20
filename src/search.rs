//! The nonce search: try nonces from zero upwards until one hashes to the
//! job's target, the ceiling is passed, or the run flag is cleared.
use vstd::prelude::*;
use std::sync::Arc;
use std::sync::atomic::{AtomicBool, Ordering};
use crate::codec::{sha1_digest, sha1_of};
use crate::job::Job;
use crate::text::{dec_digits, decimal_bytes};

verus! {

/// How many nonces a unit of difficulty allows.
pub const NONCES_PER_DIFFICULTY: u64 = 100;

/// A shared on/off switch, read by every worker before each unit of work.
pub struct RunFlag {
    flag: Arc<AtomicBool>,
}

impl RunFlag {
    pub fn new(running: bool) -> (r: RunFlag) {
        RunFlag { flag: Arc::new(AtomicBool::new(running)) }
    }

    /// Another handle on the same switch.
    pub fn share(&self) -> (r: RunFlag) {
        RunFlag { flag: self.flag.clone() }
    }

    pub fn set(&self, running: bool) {
        self.flag.store(running, Ordering::SeqCst);
    }

    /// Whether the switch is on now; another handle may change it at any time.
    pub fn is_set(&self) -> (r: bool) {
        self.flag.load(Ordering::SeqCst)
    }
}

/// How a search ended.
pub enum SearchOutcome {
    /// This nonce hashes to the target, and no smaller one does.
    Found(u64),
    /// No nonce up to the ceiling hashes to the target.
    Exhausted,
    /// The run flag was found cleared before this nonce was tried.
    Stopped(u64),
}

/// The digest that nonce `n` gives for `seed`.
pub open spec fn digest_at(seed: Seq<u8>, n: nat) -> Seq<u8> {
    sha1_of(seed + dec_digits(n))
}

/// No nonce below `n` gives `target`.
pub open spec fn none_below(seed: Seq<u8>, target: Seq<u8>, n: nat) -> bool {
    forall|m: nat| m < n ==> #[trigger] digest_at(seed, m) != target
}

/// The largest nonce tried for a difficulty: `difficulty * 100 + 1`, held
/// at the largest `u64` where that does not fit.
pub open spec fn ceiling_of(difficulty: u64) -> u64 {
    if difficulty * NONCES_PER_DIFFICULTY + 1 <= u64::MAX {
        (difficulty * NONCES_PER_DIFFICULTY + 1) as u64
    } else {
        u64::MAX
    }
}

/// What a search up to `limit` may end with.
pub open spec fn search_result_ok(seed: Seq<u8>, target: Seq<u8>, limit: u64, r: SearchOutcome) -> bool {
    match r {
        SearchOutcome::Found(n) => n <= limit && digest_at(seed, n as nat) == target
            && none_below(seed, target, n as nat),
        SearchOutcome::Exhausted => none_below(seed, target, limit as nat + 1),
        SearchOutcome::Stopped(n) => n <= limit && none_below(seed, target, n as nat),
    }
}

pub fn nonce_ceiling(difficulty: u64) -> (r: u64)
    ensures
        r == ceiling_of(difficulty),
{
    match difficulty.checked_mul(NONCES_PER_DIFFICULTY) {
        Some(m) => if m < u64::MAX {
            m + 1
        } else {
            u64::MAX
        },
        None => u64::MAX,
    }
}

fn same_bytes(a: &[u8], b: &[u8]) -> (r: bool)
    ensures
        r == (a@ == b@),
{
    if a.len() != b.len() {
        return false;
    }
    let mut i: usize = 0;
    while i < a.len()
        invariant
            a.len() == b.len(),
            i <= a.len(),
            forall|k: int| 0 <= k < i ==> a@[k] == b@[k],
        decreases a.len() - i,
    {
        if a[i] != b[i] {
            return false;
        }
        i = i + 1;
    }
    assert(a@ =~= b@);
    true
}

/// The digest of `seed` followed by the decimal text of `nonce`.
pub fn nonce_digest(seed: &[u8], nonce: u64) -> (r: Vec<u8>)
    ensures
        r@ == digest_at(seed@, nonce as nat),
{
    let mut input: Vec<u8> = Vec::new();
    input.extend_from_slice(seed);
    let digits = decimal_bytes(nonce);
    input.extend_from_slice(digits.as_slice());
    assert(input@ =~= seed@ + dec_digits(nonce as nat));
    sha1_digest(input.as_slice())
}

/// One step of a search at nonce `n`, given the run flag as just read:
/// stop when it is off, else report a match, or the end at the limit, or
/// `None` to go on with the next nonce.
pub fn try_nonce(seed: &[u8], target: &[u8], n: u64, limit: u64, running: bool) -> (r: Option<SearchOutcome>)
    requires
        n <= limit,
    ensures
        !running ==> r == Some(SearchOutcome::Stopped(n)),
        running && digest_at(seed@, n as nat) == target@ ==> r == Some(SearchOutcome::Found(n)),
        running && digest_at(seed@, n as nat) != target@ && n == limit ==> r
            == Some(SearchOutcome::Exhausted),
        running && digest_at(seed@, n as nat) != target@ && n < limit ==> r is None,
{
    if !running {
        return Some(SearchOutcome::Stopped(n));
    }
    let d = nonce_digest(seed, n);
    if same_bytes(d.as_slice(), target) {
        Some(SearchOutcome::Found(n))
    } else if n == limit {
        Some(SearchOutcome::Exhausted)
    } else {
        None
    }
}

/// Tries nonces `0..=limit` in order, reading `flag` before each one.
pub fn search_up_to(seed: &[u8], target: &[u8], limit: u64, flag: &RunFlag) -> (r: SearchOutcome)
    ensures
        search_result_ok(seed@, target@, limit, r),
{
    let mut n: u64 = 0;
    loop
        invariant
            n <= limit,
            none_below(seed@, target@, n as nat),
        decreases limit - n,
    {
        let running = flag.is_set();
        match try_nonce(seed, target, n, limit, running) {
            Some(r) => {
                return r;
            },
            None => {},
        }
        n = n + 1;
    }
}

/// A search that runs to its end finds the least nonce that gives the
/// target, when there is one up to the limit; a stop can only come before it.
pub proof fn lemma_search_finds_least(seed: Seq<u8>, target: Seq<u8>, limit: u64, n: u64, r: SearchOutcome)
    requires
        search_result_ok(seed, target, limit, r),
        n <= limit,
        digest_at(seed, n as nat) == target,
        none_below(seed, target, n as nat),
    ensures
        r == SearchOutcome::Found(n) || (r is Stopped && r->Stopped_0 <= n),
{
    match r {
        SearchOutcome::Found(m) => {
            if m < n {
                assert(digest_at(seed, m as nat) != target);
            } else if m > n {
                assert(digest_at(seed, n as nat) != target);
            }
        },
        SearchOutcome::Exhausted => {
            assert(digest_at(seed, n as nat) != target);
        },
        SearchOutcome::Stopped(m) => {
            if m > n {
                assert(digest_at(seed, n as nat) != target);
            }
        },
    }
}

/// A search never reports a nonce past its limit, and finds nothing when no
/// nonce up to the limit gives the target.
pub proof fn lemma_search_bounded(seed: Seq<u8>, target: Seq<u8>, limit: u64, r: SearchOutcome)
    requires
        search_result_ok(seed, target, limit, r),
    ensures
        r is Found ==> r->Found_0 <= limit,
        r is Stopped ==> r->Stopped_0 <= limit,
        none_below(seed, target, limit as nat + 1) ==> !(r is Found),
{
    if r is Found && none_below(seed, target, limit as nat + 1) {
        assert(digest_at(seed, r->Found_0 as nat) != target);
    }
}

/// Searches a job's nonces up to the ceiling of its difficulty.
pub fn search(job: &Job, flag: &RunFlag) -> (r: SearchOutcome)
    ensures
        search_result_ok(job.seed@, job.target@, ceiling_of(job.difficulty), r),
{
    let limit = nonce_ceiling(job.difficulty);
    search_up_to(job.seed.as_slice(), job.target.as_slice(), limit, flag)
}

} // verus!
