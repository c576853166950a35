//! Decisions of the polling wait: whether the watched entries are all terminal, and how
//! long to pause before looking again.
use vstd::prelude::*;
use crate::model::{ReviewEntry, SessionFile};

verus! {

/// First pause of the wait, in milliseconds.
pub const INITIAL_WAIT_MS: u64 = 1000;

/// Longest pause of the wait, in milliseconds.
pub const MAX_WAIT_MS: u64 = 60000;

/// What a waiter does after looking at the session.
#[derive(Clone, Copy, Debug, PartialEq, Eq, Structural)]
pub enum WaitStep {
    /// Nothing is left to wait for.
    Done,
    /// Pause `sleep_ms` milliseconds, then look again with `next_delay_ms` as the pause.
    Sleep { sleep_ms: u64, next_delay_ms: u64 },
}

/// Whether the wait filters admit `e`.
pub open spec fn watched(e: ReviewEntry, target_ref: Option<Seq<char>>, session_id: Option<Seq<char>>) -> bool {
    (target_ref matches Some(t) ==> e.target_ref@ == t) && (session_id matches Some(s) ==> e.session_id@ == s)
}

/// Whether some watched entry of `rs` is not terminal.
pub open spec fn pending(rs: Seq<ReviewEntry>, target_ref: Option<Seq<char>>, session_id: Option<Seq<char>>) -> bool {
    exists|i: int| 0 <= i < rs.len() && watched(#[trigger] rs[i], target_ref, session_id) && !rs[i].status.terminal()
}

/// The pause after `delay_ms`: twice it, capped.
pub open spec fn next_delay(delay_ms: u64) -> u64 {
    if delay_ms as int * 2 > MAX_WAIT_MS as int {
        MAX_WAIT_MS
    } else {
        (delay_ms * 2) as u64
    }
}

fn opt_view(s: Option<&str>) -> (r: Option<String>)
    ensures
        match r {
            Some(t) => s matches Some(u) && t@ == u@,
            None => s is None,
        },
{
    match s {
        Some(u) => Some(u.to_owned()),
        None => None,
    }
}

/// Whether some entry of `doc` that the filters admit is not terminal.
pub fn has_pending(doc: &SessionFile, target_ref: Option<&str>, session_id: Option<&str>) -> (r: bool)
    ensures
        r == pending(
            doc.reviews@,
            match target_ref { Some(t) => Some(t@), None => None },
            match session_id { Some(s) => Some(s@), None => None },
        ),
{
    let ghost tr = match target_ref { Some(t) => Some(t@), None => None };
    let ghost sr = match session_id { Some(s) => Some(s@), None => None };
    let t = opt_view(target_ref);
    let s = opt_view(session_id);
    let mut i: usize = 0;
    while i < doc.reviews.len()
        invariant
            i <= doc.reviews@.len(),
            tr == match target_ref { Some(t) => Some(t@), None => None::<Seq<char>> },
            sr == match session_id { Some(s) => Some(s@), None => None::<Seq<char>> },
            match t { Some(x) => tr == Some(x@), None => tr is None },
            match s { Some(x) => sr == Some(x@), None => sr is None },
            forall|j: int| 0 <= j < i ==> !(watched(#[trigger] doc.reviews@[j], tr, sr) && !doc.reviews@[j].status.terminal()),
        decreases doc.reviews@.len() - i,
    {
        let e = &doc.reviews[i];
        let target_ok = match &t {
            Some(x) => e.target_ref == *x,
            None => true,
        };
        let session_ok = match &s {
            Some(x) => e.session_id == *x,
            None => true,
        };
        if target_ok && session_ok && !e.status.is_terminal() {
            return true;
        }
        i = i + 1;
    }
    false
}

/// Decides what a waiter does after reading the session: `doc` is `None` where the session
/// document does not exist yet. Without filters a missing document means nothing to wait
/// for; with filters the session may not have started, so the waiter keeps waiting. A present
/// document is waited on while some watched entry is not terminal.
pub fn wait_step(doc: Option<&SessionFile>, target_ref: Option<&str>, session_id: Option<&str>, delay_ms: u64) -> (r: WaitStep)
    ensures
        ({
            let tr = match target_ref { Some(t) => Some(t@), None => None };
            let sr = match session_id { Some(s) => Some(s@), None => None };
            let waits = match doc {
                None => target_ref is Some || session_id is Some,
                Some(d) => pending(d.reviews@, tr, sr),
            };
            if waits {
                r == WaitStep::Sleep { sleep_ms: delay_ms, next_delay_ms: next_delay(delay_ms) }
            } else {
                r is Done
            }
        }),
        doc matches Some(d) && target_ref is None && session_id is None && (forall|i: int|
            0 <= i < d.reviews@.len() ==> (#[trigger] d.reviews@[i]).status.terminal()) ==> r is Done,
        doc matches Some(d) && (exists|i: int| 0 <= i < d.reviews@.len() && !(#[trigger] d.reviews@[i]).status.terminal()
            && target_ref is None && session_id is None) ==> r is Sleep,
{
    let waits = match doc {
        None => target_ref.is_some() || session_id.is_some(),
        Some(d) => has_pending(d, target_ref, session_id),
    };
    if waits {
        let next = if delay_ms > MAX_WAIT_MS / 2 {
            MAX_WAIT_MS
        } else {
            delay_ms * 2
        };
        WaitStep::Sleep { sleep_ms: delay_ms, next_delay_ms: next }
    } else {
        WaitStep::Done
    }
}

} // verus!
