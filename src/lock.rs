//! Decisions of the file-based lock.
//!
//! The lock is a marker file in the session directory, created exclusively by the acquirer,
//! which writes its owner token into it. This module decides what an acquirer does after each
//! attempt to create the marker, and whether a releaser may delete it; the caller does the
//! file work.
use vstd::prelude::*;
use crate::ids::valid_id8;
use crate::text::{chars_of, string_from_range};

verus! {

/// Retries an acquirer makes by default.
pub const DEFAULT_MAX_RETRIES: usize = 8;

/// First pause after a failed attempt, in milliseconds.
pub const INITIAL_BACKOFF_MS: u64 = 100;

/// Longest pause between attempts, in milliseconds.
pub const MAX_BACKOFF_MS: u64 = 6400;

/// Configuration of lock acquisition.
#[derive(Clone, Copy, Debug, PartialEq, Eq, Structural)]
pub struct LockConfig {
    /// Retries after the first attempt finds the marker present.
    pub max_retries: usize,
}

impl Default for LockConfig {
    fn default() -> (r: LockConfig)
        ensures
            r.max_retries == DEFAULT_MAX_RETRIES,
    {
        LockConfig { max_retries: DEFAULT_MAX_RETRIES }
    }
}

/// Where an acquirer stands: attempts made after the first, and the next pause.
#[derive(Clone, Copy, Debug, PartialEq, Eq, Structural)]
pub struct LockBackoff {
    /// Retries made so far.
    pub attempt: usize,
    /// Pause before the next retry, in milliseconds.
    pub wait_ms: u64,
}

/// What an attempt to create the marker came to.
#[derive(Clone, Copy, Debug, PartialEq, Eq, Structural)]
pub enum CreateOutcome {
    /// The marker was created, and the owner token written into it.
    Created,
    /// The marker was there already.
    AlreadyExists,
    /// Another failure of the file system.
    Failed,
}

/// What an acquirer does next.
#[derive(Clone, Copy, Debug, PartialEq, Eq, Structural)]
pub enum LockStep {
    /// The lock is held.
    Acquired,
    /// Pause `sleep_ms` milliseconds, then try again from `next`.
    Retry { sleep_ms: u64, next: LockBackoff },
    /// The retry budget is spent: the acquisition fails with a lock timeout.
    TimedOut,
    /// The failure is not contention: it is reported at once.
    Fatal,
}

/// The next pause: twice this one, capped.
pub open spec fn next_wait(wait_ms: u64) -> u64 {
    if wait_ms as int * 2 > MAX_BACKOFF_MS as int {
        MAX_BACKOFF_MS
    } else {
        (wait_ms * 2) as u64
    }
}

/// What an acquirer at `b` does after an attempt with outcome `o`.
pub open spec fn lock_step(b: LockBackoff, cfg: LockConfig, o: CreateOutcome) -> LockStep {
    match o {
        CreateOutcome::Created => LockStep::Acquired,
        CreateOutcome::Failed => LockStep::Fatal,
        CreateOutcome::AlreadyExists => if b.attempt >= cfg.max_retries {
            LockStep::TimedOut
        } else {
            LockStep::Retry {
                sleep_ms: b.wait_ms,
                next: LockBackoff { attempt: (b.attempt + 1) as usize, wait_ms: next_wait(b.wait_ms) },
            }
        },
    }
}

impl LockBackoff {
    /// The state before the first attempt.
    pub fn start() -> (r: LockBackoff)
        ensures
            r.attempt == 0,
            r.wait_ms == INITIAL_BACKOFF_MS,
    {
        LockBackoff { attempt: 0, wait_ms: INITIAL_BACKOFF_MS }
    }

    /// Decides what follows an attempt to create the marker.
    pub fn after_attempt(self, cfg: LockConfig, outcome: CreateOutcome) -> (r: LockStep)
        ensures
            r == lock_step(self, cfg, outcome),
    {
        match outcome {
            CreateOutcome::Created => LockStep::Acquired,
            CreateOutcome::Failed => LockStep::Fatal,
            CreateOutcome::AlreadyExists => {
                if self.attempt >= cfg.max_retries {
                    LockStep::TimedOut
                } else {
                    let wait = if self.wait_ms > MAX_BACKOFF_MS / 2 {
                        MAX_BACKOFF_MS
                    } else {
                        self.wait_ms * 2
                    };
                    LockStep::Retry {
                        sleep_ms: self.wait_ms,
                        next: LockBackoff { attempt: self.attempt + 1, wait_ms: wait },
                    }
                }
            },
        }
    }
}

/// `2^k`.
pub open spec fn two_to(k: nat) -> nat
    decreases k,
{
    if k == 0 {
        1
    } else {
        2 * two_to((k - 1) as nat)
    }
}

/// The acquirer's state after `k` retries from the start.
pub open spec fn backoff_after(k: nat) -> LockBackoff
    decreases k,
{
    if k == 0 {
        LockBackoff { attempt: 0, wait_ms: INITIAL_BACKOFF_MS }
    } else {
        let b = backoff_after((k - 1) as nat);
        LockBackoff { attempt: (b.attempt + 1) as usize, wait_ms: next_wait(b.wait_ms) }
    }
}

/// An acquirer that keeps finding the marker retries exactly `max_retries` times, pausing
/// `100 * 2^k` milliseconds before retry `k + 1`, capped at 6400, and then times out.
pub proof fn lemma_backoff_schedule(cfg: LockConfig, k: nat)
    requires
        k <= cfg.max_retries,
    ensures
        backoff_after(k).attempt == k,
        backoff_after(k).wait_ms as int == if k >= 6 { MAX_BACKOFF_MS as int } else { INITIAL_BACKOFF_MS as int * two_to(k) },
        k < cfg.max_retries ==> lock_step(backoff_after(k), cfg, CreateOutcome::AlreadyExists) == (LockStep::Retry {
            sleep_ms: backoff_after(k).wait_ms,
            next: backoff_after(k + 1),
        }),
        k == cfg.max_retries ==> lock_step(backoff_after(k), cfg, CreateOutcome::AlreadyExists) is TimedOut,
    decreases k,
{
    if k > 0 {
        lemma_backoff_schedule(cfg, (k - 1) as nat);
        assert(two_to(k) == 2 * two_to((k - 1) as nat));
        reveal_with_fuel(two_to, 7);
    }
}

/// Whether `c` is white space (the Unicode `White_Space` property, as `char::is_whitespace`).
pub open spec fn is_white_space(c: char) -> bool {
    let u = c as u32;
    (0x09 <= u && u <= 0x0d) || u == 0x20 || u == 0x85 || u == 0xa0 || u == 0x1680 || (0x2000 <= u
        && u <= 0x200a) || u == 0x2028 || u == 0x2029 || u == 0x202f || u == 0x205f || u == 0x3000
}

/// `s` without trailing white space.
pub open spec fn end_trimmed(s: Seq<char>) -> Seq<char>
    decreases s.len(),
{
    if s.len() > 0 && is_white_space(s.last()) {
        end_trimmed(s.drop_last())
    } else {
        s
    }
}

fn white_space(c: char) -> (r: bool)
    ensures
        r == is_white_space(c),
{
    let u = c as u32;
    (0x09 <= u && u <= 0x0d) || u == 0x20 || u == 0x85 || u == 0xa0 || u == 0x1680 || (0x2000 <= u
        && u <= 0x200a) || u == 0x2028 || u == 0x2029 || u == 0x202f || u == 0x205f || u == 0x3000
}

/// `s` without trailing white space.
pub fn trim_end(s: &str) -> (r: String)
    ensures
        r@ == end_trimmed(s@),
{
    let chars = chars_of(s);
    let mut n: usize = chars.len();
    assert(chars@.take(n as int) =~= s@);
    while n > 0 && white_space(chars[n - 1])
        invariant
            chars@ == s@,
            n <= chars@.len(),
            end_trimmed(s@) == end_trimmed(chars@.take(n as int)),
        decreases n,
    {
        assert(chars@.take(n as int).drop_last() =~= chars@.take(n - 1));
        n = n - 1;
    }
    string_from_range(&chars, 0, n)
}

/// Whether a releaser holding `owner` may delete a marker whose body is `contents`.
pub open spec fn may_release(contents: Seq<char>, owner: Seq<char>) -> bool {
    end_trimmed(contents) == owner
}

/// Whether a releaser holding `owner` may delete a marker whose body is `contents`: only
/// where the token in it, without trailing white space, is its own.
pub fn release_allowed(contents: &str, owner: &str) -> (r: bool)
    ensures
        r == may_release(contents@, owner@),
{
    trim_end(contents) == owner.to_owned()
}

/// The body an acquirer writes into the marker: its token and a line feed.
pub open spec fn marker_body(owner: Seq<char>) -> Seq<char> {
    owner.push('\n')
}

/// The marker after an exclusive creation by `owner`, and whether the creation succeeded.
pub open spec fn create_exclusive(marker: Option<Seq<char>>, owner: Seq<char>) -> (Option<Seq<char>>, bool) {
    match marker {
        None => (Some(marker_body(owner)), true),
        Some(m) => (Some(m), false),
    }
}

/// The marker after a release by `owner`.
pub open spec fn released(marker: Option<Seq<char>>, owner: Seq<char>) -> Option<Seq<char>> {
    match marker {
        Some(m) => if may_release(m, owner) { None } else { Some(m) },
        None => None,
    }
}

/// Of two acquirers with distinct well-formed tokens and no retries, on a directory without a
/// marker: the first gets the lock, the second times out and cannot delete the first's
/// marker; once the first releases, the second's next attempt gets the lock.
pub proof fn lemma_lock_mutual_exclusion(a: Seq<char>, b: Seq<char>)
    requires
        valid_id8(a),
        valid_id8(b),
        a != b,
    ensures
        ({
            let cfg = LockConfig { max_retries: 0 };
            let (m1, ok1) = create_exclusive(None, a);
            let (m2, ok2) = create_exclusive(m1, b);
            let m3 = released(m2, b);
            let m4 = released(m3, a);
            let (m5, ok5) = create_exclusive(m4, b);
            &&& ok1 && lock_step(LockBackoff { attempt: 0, wait_ms: INITIAL_BACKOFF_MS }, cfg, CreateOutcome::Created) is Acquired
            &&& !ok2 && lock_step(LockBackoff { attempt: 0, wait_ms: INITIAL_BACKOFF_MS }, cfg, CreateOutcome::AlreadyExists) is TimedOut
            &&& m3 == m2
            &&& m4 is None
            &&& ok5 && m5 == Some(marker_body(b))
        }),
{
    let ab = marker_body(a);
    assert(ab.drop_last() =~= a);
    assert(end_trimmed(a) == a);
}

} // verus!
