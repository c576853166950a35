//! The session document: registered agents, review entries and their notes.
use vstd::prelude::*;
use crate::names::{ReviewerStatus, InitiatorStatus, ReviewPhase, ReviewVerdict, NoteRole, NoteType, ReportsView};

verus! {

impl ReviewerStatus {
    /// Whether no further progress is expected from this status.
    pub open spec fn terminal(self) -> bool {
        self is Finished || self is Cancelled || self is Error
    }

    /// Whether no further progress is expected from this status.
    pub fn is_terminal(self) -> (r: bool)
        ensures
            r == self.terminal(),
    {
        match self {
            ReviewerStatus::Finished | ReviewerStatus::Cancelled | ReviewerStatus::Error => true,
            _ => false,
        }
    }
}

impl ReportsView {
    /// Whether an entry with `status` belongs to this view.
    pub open spec fn selects(self, status: ReviewerStatus) -> bool {
        match self {
            ReportsView::Open => !status.terminal(),
            ReportsView::Closed => status.terminal(),
            ReportsView::InProgress => status is InProgress,
        }
    }

    /// Whether an entry with `status` belongs to this view.
    pub fn matches_status(self, status: ReviewerStatus) -> (r: bool)
        ensures
            r == self.selects(status),
    {
        match self {
            ReportsView::Open => !status.is_terminal(),
            ReportsView::Closed => status.is_terminal(),
            ReportsView::InProgress => status == ReviewerStatus::InProgress,
        }
    }
}

/// Severity tallies of a review report.
#[derive(Clone, Copy, Debug, PartialEq, Eq, Structural)]
pub struct SeverityCounts {
    /// Number of blocker findings.
    pub blocker: u64,
    /// Number of major findings.
    pub major: u64,
    /// Number of minor findings.
    pub minor: u64,
    /// Number of nit findings.
    pub nit: u64,
}

impl SeverityCounts {
    /// A tally with every count at zero.
    pub open spec fn zeroed() -> SeverityCounts {
        SeverityCounts { blocker: 0, major: 0, minor: 0, nit: 0 }
    }

    /// A tally with every count at zero.
    pub fn zero() -> (r: SeverityCounts)
        ensures
            r == SeverityCounts::zeroed(),
    {
        SeverityCounts { blocker: 0, major: 0, minor: 0, nit: 0 }
    }
}

/// A note appended to a review entry's log.
#[derive(Clone, Debug)]
pub struct SessionNote {
    /// Who wrote the note.
    pub role: NoteRole,
    /// RFC 3339 time at which the note was recorded.
    pub timestamp: String,
    /// Structured type of the note.
    pub note_type: NoteType,
    /// The note's content, as JSON text.
    pub content: String,
}

/// One reviewing agent's record within a session document.
#[derive(Clone, Debug)]
pub struct ReviewEntry {
    /// 8-character id of the reviewing agent.
    pub reviewer_id: String,
    /// 8-character session id.
    pub session_id: String,
    /// Reference under review; fixed once the entry exists.
    pub target_ref: String,
    /// Applicator-owned state.
    pub initiator_status: InitiatorStatus,
    /// State owned by the reviewing agent.
    pub status: ReviewerStatus,
    /// Id of the agent this one took over from, if any.
    pub parent_id: Option<String>,
    /// RFC 3339 time of registration.
    pub started_at: String,
    /// RFC 3339 time of the last change.
    pub updated_at: String,
    /// RFC 3339 time of finalization.
    pub finished_at: Option<String>,
    /// Workflow marker owned by the reviewing agent.
    pub current_phase: Option<ReviewPhase>,
    /// Verdict, set at finalization.
    pub verdict: Option<ReviewVerdict>,
    /// Severity counts, set at finalization.
    pub counts: SeverityCounts,
    /// Report path, relative to the repository root where it could be made so; set once.
    pub report_file: Option<String>,
    /// Append-only log of notes.
    pub notes: Vec<SessionNote>,
}

/// The document kept in a session directory.
#[derive(Clone, Debug)]
pub struct SessionFile {
    /// Version of the document's layout.
    pub schema_version: String,
    /// Session date in `YYYY-MM-DD` form.
    pub session_date: String,
    /// Absolute path of the repository root.
    pub repo_root: String,
    /// Distinct ids of the agents that have registered.
    pub reviewers: Vec<String>,
    /// Review entries, in registration order.
    pub reviews: Vec<ReviewEntry>,
}

/// The text of an optional string.
pub open spec fn opt_text(s: Option<String>) -> Option<Seq<char>> {
    match s {
        Some(t) => Some(t@),
        None => None,
    }
}

/// Whether `e` is the entry of `(reviewer_id, session_id)`.
pub open spec fn entry_has_key(e: ReviewEntry, reviewer_id: Seq<char>, session_id: Seq<char>) -> bool {
    e.reviewer_id@ == reviewer_id && e.session_id@ == session_id
}

/// Whether the list of registered agents holds `id`.
pub open spec fn lists_reviewer(reviewers: Seq<String>, id: Seq<char>) -> bool {
    exists|i: int| 0 <= i < reviewers.len() && (#[trigger] reviewers[i])@ == id
}

/// Whether some entry of `rs` belongs to the agent `id`.
pub open spec fn has_entry_of(rs: Seq<ReviewEntry>, id: Seq<char>) -> bool {
    exists|k: int| 0 <= k < rs.len() && (#[trigger] rs[k]).reviewer_id@ == id
}

/// Index of the first entry at or after `i` that satisfies `p`.
pub open spec fn first_from(rs: Seq<ReviewEntry>, p: spec_fn(ReviewEntry) -> bool, i: int) -> Option<int>
    decreases rs.len() - i,
{
    if i < 0 || i >= rs.len() {
        None
    } else if p(rs[i]) {
        Some(i)
    } else {
        first_from(rs, p, i + 1)
    }
}

/// Index of the first entry that satisfies `p`.
pub open spec fn first_index(rs: Seq<ReviewEntry>, p: spec_fn(ReviewEntry) -> bool) -> Option<int> {
    first_from(rs, p, 0)
}

/// Selects the entry of `(reviewer_id, session_id)`.
pub open spec fn key_is(reviewer_id: Seq<char>, session_id: Seq<char>) -> spec_fn(ReviewEntry) -> bool {
    |e: ReviewEntry| entry_has_key(e, reviewer_id, session_id)
}

/// Selects the open entries of `target_ref`.
pub open spec fn open_for(target_ref: Seq<char>) -> spec_fn(ReviewEntry) -> bool {
    |e: ReviewEntry| e.target_ref@ == target_ref && !e.status.terminal()
}

/// Selects the open entries of `target_ref` in `session_id`.
pub open spec fn open_in_session(target_ref: Seq<char>, session_id: Seq<char>) -> spec_fn(ReviewEntry) -> bool {
    |e: ReviewEntry| e.target_ref@ == target_ref && e.session_id@ == session_id && !e.status.terminal()
}

/// Skipping an entry that `p` rejects does not change what `first_from` finds.
pub proof fn lemma_first_from_skip(rs: Seq<ReviewEntry>, p: spec_fn(ReviewEntry) -> bool, i: int)
    requires
        0 <= i < rs.len(),
        !p(rs[i]),
    ensures
        first_from(rs, p, i) == first_from(rs, p, i + 1),
{
}

/// Finds the first entry of `(reviewer_id, session_id)`.
pub fn find_entry(reviews: &Vec<ReviewEntry>, reviewer_id: &str, session_id: &str) -> (r: Option<usize>)
    ensures
        match r {
            Some(i) => first_index(reviews@, key_is(reviewer_id@, session_id@)) == Some(i as int),
            None => first_index(reviews@, key_is(reviewer_id@, session_id@)) is None,
        },
        r is None <==> forall|j: int| 0 <= j < reviews@.len() ==> !entry_has_key(#[trigger] reviews@[j], reviewer_id@, session_id@),
        r matches Some(i) ==> i < reviews@.len() && entry_has_key(reviews@[i as int], reviewer_id@, session_id@),
{
    let ghost p = key_is(reviewer_id@, session_id@);
    let rid = reviewer_id.to_owned();
    let sid = session_id.to_owned();
    let mut i: usize = 0;
    while i < reviews.len()
        invariant
            rid@ == reviewer_id@,
            sid@ == session_id@,
            p == key_is(reviewer_id@, session_id@),
            i <= reviews@.len(),
            first_index(reviews@, p) == first_from(reviews@, p, i as int),
            forall|j: int| 0 <= j < i ==> !entry_has_key(#[trigger] reviews@[j], reviewer_id@, session_id@),
        decreases reviews@.len() - i,
    {
        let e = &reviews[i];
        if e.reviewer_id == rid && e.session_id == sid {
            return Some(i);
        }
        proof {
            lemma_first_from_skip(reviews@, p, i as int);
        }
        i = i + 1;
    }
    None
}


/// `first_from` on a sequence with one more entry at the end.
pub proof fn lemma_first_from_push(rs: Seq<ReviewEntry>, e: ReviewEntry, p: spec_fn(ReviewEntry) -> bool, i: int)
    requires
        0 <= i <= rs.len(),
    ensures
        first_from(rs.push(e), p, i) == match first_from(rs, p, i) {
            Some(k) => Some(k),
            None => if p(e) { Some(rs.len() as int) } else { None },
        },
    decreases rs.len() - i,
{
    if i < rs.len() {
        assert(rs.push(e)[i] == rs[i]);
        lemma_first_from_push(rs, e, p, i + 1);
    } else {
        assert(rs.push(e)[i] == e);
        assert(first_from(rs.push(e), p, i + 1) is None);
    }
}

/// `first_from` agrees on two sequences whose entries `p` judges alike.
pub proof fn lemma_first_from_same_judgement(
    a: Seq<ReviewEntry>,
    b: Seq<ReviewEntry>,
    p: spec_fn(ReviewEntry) -> bool,
    i: int,
)
    requires
        0 <= i,
        a.len() == b.len(),
        forall|j: int| 0 <= j < a.len() ==> p(#[trigger] a[j]) == p(b[j]),
    ensures
        first_from(a, p, i) == first_from(b, p, i),
    decreases a.len() - i,
{
    if i < a.len() {
        lemma_first_from_same_judgement(a, b, p, i + 1);
    }
}


/// Whether two entries have the same `(reviewer_id, session_id)` key.
pub open spec fn same_key(a: ReviewEntry, b: ReviewEntry) -> bool {
    a.reviewer_id@ == b.reviewer_id@ && a.session_id@ == b.session_id@
}

impl SessionFile {
    /// The document's invariant: the registered agents are distinct and are exactly the agents
    /// that have entries, and no two entries share a key.
    pub open spec fn wf(&self) -> bool {
        &&& forall|i: int, j: int|
            0 <= i < j < self.reviewers@.len() ==> (#[trigger] self.reviewers@[i])@ != (#[trigger] self.reviewers@[j])@
        &&& forall|i: int|
            0 <= i < self.reviewers@.len() ==> has_entry_of(self.reviews@, (#[trigger] self.reviewers@[i])@)
        &&& forall|k: int|
            0 <= k < self.reviews@.len() ==> lists_reviewer(self.reviewers@, (#[trigger] self.reviews@[k]).reviewer_id@)
        &&& forall|k: int, l: int|
            0 <= k < l < self.reviews@.len() ==> !same_key(#[trigger] self.reviews@[k], #[trigger] self.reviews@[l])
    }

    /// A document with no registered agents and no entries.
    pub fn new_document(session_date: &str, repo_root: &str) -> (r: SessionFile)
        ensures
            r.schema_version@ == "1.0.0"@,
            r.session_date@ == session_date@,
            r.repo_root@ == repo_root@,
            r.reviewers@.len() == 0,
            r.reviews@.len() == 0,
            r.wf(),
    {
        SessionFile {
            schema_version: "1.0.0".to_owned(),
            session_date: session_date.to_owned(),
            repo_root: repo_root.to_owned(),
            reviewers: Vec::new(),
            reviews: Vec::new(),
        }
    }
}


/// Where `first_from` finds nothing, no entry from `i` on satisfies `p`.
pub proof fn lemma_first_from_none(rs: Seq<ReviewEntry>, p: spec_fn(ReviewEntry) -> bool, i: int)
    requires
        0 <= i,
        first_from(rs, p, i) is None,
    ensures
        forall|j: int| i <= j < rs.len() ==> !p(#[trigger] rs[j]),
    decreases rs.len() - i,
{
    if i < rs.len() {
        lemma_first_from_none(rs, p, i + 1);
    }
}

/// What `first_from` finds satisfies `p`, and nothing before it does.
pub proof fn lemma_first_from_some(rs: Seq<ReviewEntry>, p: spec_fn(ReviewEntry) -> bool, i: int)
    requires
        0 <= i,
        first_from(rs, p, i) is Some,
    ensures
        i <= first_from(rs, p, i)->0 < rs.len(),
        p(rs[first_from(rs, p, i)->0]),
        forall|j: int| i <= j < first_from(rs, p, i)->0 ==> !p(#[trigger] rs[j]),
    decreases rs.len() - i,
{
    if i < rs.len() && !p(rs[i]) {
        lemma_first_from_some(rs, p, i + 1);
    }
}

/// The invariant survives a change that keeps the agent list and every entry's key.
pub proof fn lemma_wf_same_keys(old: SessionFile, new: SessionFile)
    requires
        old.wf(),
        new.reviewers@ == old.reviewers@,
        new.reviews@.len() == old.reviews@.len(),
        forall|k: int| 0 <= k < old.reviews@.len() ==> same_key(#[trigger] new.reviews@[k], old.reviews@[k]),
    ensures
        new.wf(),
{
    assert forall|i: int| 0 <= i < new.reviewers@.len() implies has_entry_of(new.reviews@, (#[trigger] new.reviewers@[i])@) by {
        let k = choose|k: int| 0 <= k < old.reviews@.len() && (#[trigger] old.reviews@[k]).reviewer_id@ == old.reviewers@[i]@;
        assert(same_key(new.reviews@[k], old.reviews@[k]));
    }
    assert forall|k: int| 0 <= k < new.reviews@.len() implies lists_reviewer(new.reviewers@, (#[trigger] new.reviews@[k]).reviewer_id@) by {
        assert(same_key(new.reviews@[k], old.reviews@[k]));
        assert(lists_reviewer(old.reviewers@, old.reviews@[k].reviewer_id@));
    }
    assert forall|k: int, l: int| 0 <= k < l < new.reviews@.len() implies !same_key(#[trigger] new.reviews@[k], #[trigger] new.reviews@[l]) by {
        assert(same_key(new.reviews@[k], old.reviews@[k]));
        assert(same_key(new.reviews@[l], old.reviews@[l]));
        assert(!same_key(old.reviews@[k], old.reviews@[l]));
    }
}

} // verus!
