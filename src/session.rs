//! The coordination operations, as changes of an in-memory session document.
//!
//! Each operation validates its identifiers before touching the document, and leaves the
//! document exactly as it was whenever it fails.
use vstd::prelude::*;
use crate::error::ReviewError;
use crate::ids::{id_check, opt_id_check, valid_id8, validate_id8, validate_opt_id8};
use crate::model::{
    find_entry, first_from, first_index, has_entry_of, key_is, lemma_first_from_none, lemma_first_from_skip, lemma_first_from_some, lemma_wf_same_keys, same_key, lemma_first_from_push, lemma_first_from_same_judgement, lists_reviewer, open_for, open_in_session,
    opt_text, ReviewEntry, SessionFile, SessionNote, SeverityCounts,
};
use crate::clock::{clock_formattable, clock_text, rfc3339_reading, Timestamp};
use crate::paths::{joined, report_file_name, report_name_text, SessionLocator};
use crate::names::{InitiatorStatus, NoteRole, NoteType, ReviewPhase, ReviewVerdict, ReviewerStatus};

verus! {

/// The session an entry registered for `target_ref` joins: the given one, else the session of
/// the first open entry of `target_ref`, else `fresh`.
pub open spec fn chosen_session(
    rs: Seq<ReviewEntry>,
    target_ref: Seq<char>,
    session_id: Option<Seq<char>>,
    fresh: Seq<char>,
) -> Seq<char> {
    match session_id {
        Some(s) => s,
        None => match first_index(rs, open_for(target_ref)) {
            Some(i) => rs[i].session_id@,
            None => fresh,
        },
    }
}

/// The applicator state a new entry starts with: that of the first open entry of the same
/// target ref and session, else `Requesting`.
pub open spec fn inherited_status(rs: Seq<ReviewEntry>, target_ref: Seq<char>, session_id: Seq<char>) -> InitiatorStatus {
    match first_index(rs, open_in_session(target_ref, session_id)) {
        Some(i) => rs[i].initiator_status,
        None => InitiatorStatus::Requesting,
    }
}

/// Whether `new` is `old` with `id` listed (it is unchanged where `id` was listed already).
pub open spec fn reviewers_after(old: Seq<String>, new: Seq<String>, id: Seq<char>) -> bool {
    if lists_reviewer(old, id) {
        new == old
    } else {
        new.len() == old.len() + 1 && new.take(old.len() as int) == old && new.last()@ == id
    }
}

/// Whether `e` is the entry that registration creates.
pub open spec fn is_new_entry(
    e: ReviewEntry,
    target_ref: Seq<char>,
    reviewer_id: Seq<char>,
    session_id: Seq<char>,
    parent_id: Option<Seq<char>>,
    now: Seq<char>,
    initiator_status: InitiatorStatus,
) -> bool {
    &&& e.reviewer_id@ == reviewer_id
    &&& e.session_id@ == session_id
    &&& e.target_ref@ == target_ref
    &&& e.initiator_status == initiator_status
    &&& e.status == ReviewerStatus::Initializing
    &&& opt_text(e.parent_id) == parent_id
    &&& e.started_at@ == now
    &&& e.updated_at@ == now
    &&& e.finished_at is None
    &&& e.current_phase is None
    &&& e.verdict is None
    &&& e.counts == SeverityCounts::zeroed()
    &&& e.report_file is None
    &&& e.notes@.len() == 0
}

/// Whether the header fields of two documents agree.
pub open spec fn same_header(a: SessionFile, b: SessionFile) -> bool {
    a.schema_version == b.schema_version && a.session_date == b.session_date && a.repo_root
        == b.repo_root
}

/// Why a registration that contradicts an existing entry's target ref is refused.
pub open spec fn target_mismatch_message() -> Seq<char> {
    "review entry already exists for reviewer_id/session_id but target_ref differs"@
}

/// Why an operation on a missing entry is refused.
pub open spec fn not_found_message() -> Seq<char> {
    "review entry not found for reviewer_id/session_id"@
}

/// Why a second finalization is refused.
pub open spec fn report_set_message() -> Seq<char> {
    "report_file already set; refusing to overwrite"@
}

/// What registration does: `old` becomes `new` and `r` is returned. Malformed identifiers are
/// refused in the order `reviewer_id`, `parent_id`, `session_id`, with a message naming the first one.
pub open spec fn registered(
    old: SessionFile,
    new: SessionFile,
    target_ref: Seq<char>,
    reviewer_id: Seq<char>,
    session_id: Option<Seq<char>>,
    parent_id: Option<Seq<char>>,
    now: Seq<char>,
    fresh: Seq<char>,
    r: Result<String, ReviewError>,
) -> bool {
    let sid = chosen_session(old.reviews@, target_ref, session_id, fresh);
    let found = first_index(old.reviews@, key_is(reviewer_id, sid));
    let id_error = id_check(
        reviewer_id,
        "reviewer_id"@,
        opt_id_check(parent_id, "parent_id"@, opt_id_check(session_id, "session_id"@, None)),
    );
    if id_error is Some {
        (r matches Err(ReviewError::InvalidId(e)) && e@ == id_error->0) && new == old
    } else if found matches Some(i) && old.reviews@[i].target_ref@ != target_ref {
        (r matches Err(ReviewError::Conflict(e)) && e@ == target_mismatch_message()) && new == old
    } else {
        &&& r matches Ok(s) && s@ == sid
        &&& same_header(old, new)
        &&& reviewers_after(old.reviewers@, new.reviewers@, reviewer_id)
        &&& if found is Some {
            new.reviews@ == old.reviews@
        } else {
            &&& new.reviews@.len() == old.reviews@.len() + 1
            &&& new.reviews@.take(old.reviews@.len() as int) == old.reviews@
            &&& is_new_entry(
                new.reviews@.last(),
                target_ref,
                reviewer_id,
                sid,
                parent_id,
                now,
                inherited_status(old.reviews@, target_ref, sid),
            )
        }
    }
}

/// Finds the first open entry of `target_ref`.
fn find_open_for(reviews: &Vec<ReviewEntry>, target_ref: &str) -> (r: Option<usize>)
    ensures
        match r {
            Some(i) => i < reviews@.len() && first_index(reviews@, open_for(target_ref@)) == Some(i as int),
            None => first_index(reviews@, open_for(target_ref@)) is None,
        },
{
    let ghost p = open_for(target_ref@);
    let t = target_ref.to_owned();
    let mut i: usize = 0;
    while i < reviews.len()
        invariant
            t@ == target_ref@,
            p == open_for(target_ref@),
            i <= reviews@.len(),
            first_index(reviews@, p) == first_from(reviews@, p, i as int),
        decreases reviews@.len() - i,
    {
        let e = &reviews[i];
        if e.target_ref == t && !e.status.is_terminal() {
            return Some(i);
        }
        proof {
            lemma_first_from_skip(reviews@, p, i as int);
        }
        i = i + 1;
    }
    None
}

/// Finds the first open entry of `target_ref` in `session_id`.
fn find_open_in_session(reviews: &Vec<ReviewEntry>, target_ref: &str, session_id: &str) -> (r: Option<usize>)
    ensures
        match r {
            Some(i) => i < reviews@.len() && first_index(reviews@, open_in_session(target_ref@, session_id@)) == Some(i as int),
            None => first_index(reviews@, open_in_session(target_ref@, session_id@)) is None,
        },
{
    let ghost p = open_in_session(target_ref@, session_id@);
    let t = target_ref.to_owned();
    let s = session_id.to_owned();
    let mut i: usize = 0;
    while i < reviews.len()
        invariant
            t@ == target_ref@,
            s@ == session_id@,
            p == open_in_session(target_ref@, session_id@),
            i <= reviews@.len(),
            first_index(reviews@, p) == first_from(reviews@, p, i as int),
        decreases reviews@.len() - i,
    {
        let e = &reviews[i];
        if e.target_ref == t && e.session_id == s && !e.status.is_terminal() {
            return Some(i);
        }
        proof {
            lemma_first_from_skip(reviews@, p, i as int);
        }
        i = i + 1;
    }
    None
}

/// Whether the list of registered agents holds `id`.
pub fn has_reviewer(reviewers: &Vec<String>, id: &str) -> (r: bool)
    ensures
        r == lists_reviewer(reviewers@, id@),
{
    let target = id.to_owned();
    let mut i: usize = 0;
    while i < reviewers.len()
        invariant
            target@ == id@,
            i <= reviewers@.len(),
            forall|j: int| 0 <= j < i ==> (#[trigger] reviewers@[j])@ != id@,
        decreases reviewers@.len() - i,
    {
        if reviewers[i] == target {
            return true;
        }
        i = i + 1;
    }
    false
}

/// Lists `id` among the registered agents unless it is there already.
fn list_reviewer(reviewers: &mut Vec<String>, id: &str)
    ensures
        reviewers_after(old(reviewers)@, final(reviewers)@, id@),
{
    if !has_reviewer(reviewers, id) {
        let ghost before = reviewers@;
        reviewers.push(id.to_owned());
        assert(reviewers@.take(before.len() as int) =~= before);
    }
}

/// The rule of `register_entry`, without the invariant.
fn register_in(
    doc: &mut SessionFile,
    target_ref: &str,
    reviewer_id: &str,
    session_id: Option<&str>,
    parent_id: Option<&str>,
    now: &str,
    fresh_session_id: &str,
) -> (r: Result<String, ReviewError>)
    ensures
        registered(
            *old(doc),
            *final(doc),
            target_ref@,
            reviewer_id@,
            match session_id { Some(s) => Some(s@), None => None },
            match parent_id { Some(p) => Some(p@), None => None },
            now@,
            fresh_session_id@,
            r,
        ),
{
    validate_id8(reviewer_id, "reviewer_id")?;
    validate_opt_id8(parent_id, "parent_id")?;
    validate_opt_id8(session_id, "session_id")?;

    let sid: String = match session_id {
        Some(s) => s.to_owned(),
        None => match find_open_for(&doc.reviews, target_ref) {
            Some(i) => doc.reviews[i].session_id.clone(),
            None => fresh_session_id.to_owned(),
        },
    };

    match find_entry(&doc.reviews, reviewer_id, sid.as_str()) {
        Some(i) => {
            if doc.reviews[i].target_ref != target_ref.to_owned() {
                return Err(
                    ReviewError::Conflict(
                        "review entry already exists for reviewer_id/session_id but target_ref differs".to_owned(),
                    ),
                );
            }
            list_reviewer(&mut doc.reviewers, reviewer_id);
            Ok(sid)
        },
        None => {
            let initiator_status = match find_open_in_session(&doc.reviews, target_ref, sid.as_str()) {
                Some(j) => doc.reviews[j].initiator_status,
                None => InitiatorStatus::Requesting,
            };
            let entry = ReviewEntry {
                reviewer_id: reviewer_id.to_owned(),
                session_id: sid.clone(),
                target_ref: target_ref.to_owned(),
                initiator_status,
                status: ReviewerStatus::Initializing,
                parent_id: match parent_id {
                    Some(p) => Some(p.to_owned()),
                    None => None,
                },
                started_at: now.to_owned(),
                updated_at: now.to_owned(),
                finished_at: None,
                current_phase: None,
                verdict: None,
                counts: SeverityCounts::zero(),
                report_file: None,
                notes: Vec::new(),
            };
            list_reviewer(&mut doc.reviewers, reviewer_id);
            let ghost before = doc.reviews@;
            doc.reviews.push(entry);
            assert(doc.reviews@.take(before.len() as int) =~= before);
            Ok(sid)
        },
    }
}


/// Registers `reviewer_id` for `target_ref`.
///
/// Without `session_id` the agent joins the session of the first open entry of
/// `target_ref`, or `fresh_session_id` where there is none. Where the entry of
/// `(reviewer_id, session)` exists already, its target ref must be `target_ref` (else the call
/// fails with `Conflict`) and only the list of registered agents may change; otherwise a new entry is
/// appended with status `Initializing`. Returns the session id.
pub fn register_entry(
    doc: &mut SessionFile,
    target_ref: &str,
    reviewer_id: &str,
    session_id: Option<&str>,
    parent_id: Option<&str>,
    now: &str,
    fresh_session_id: &str,
) -> (r: Result<String, ReviewError>)
    ensures
        registered(
            *old(doc),
            *final(doc),
            target_ref@,
            reviewer_id@,
            match session_id { Some(s) => Some(s@), None => None },
            match parent_id { Some(p) => Some(p@), None => None },
            now@,
            fresh_session_id@,
            r,
        ),
        old(doc).wf() ==> final(doc).wf(),
{
    let ghost d0 = *doc;
    let r = register_in(doc, target_ref, reviewer_id, session_id, parent_id, now, fresh_session_id);
    proof {
        if d0.wf() {
            lemma_register_keeps_wf(
                d0,
                *doc,
                target_ref@,
                reviewer_id@,
                match session_id { Some(s) => Some(s@), None => None },
                match parent_id { Some(p) => Some(p@), None => None },
                now@,
                fresh_session_id@,
                r,
            );
        }
    }
    r
}

/// Registering an agent whose entry `(reviewer_id, session_id)` already exists for the same
/// target ref, in a document that keeps its invariant, succeeds with that session id, leaves
/// every entry as it was, and only lists the agent where it was not listed.
pub proof fn lemma_register_existing_entry(
    old: SessionFile,
    new: SessionFile,
    k: int,
    target_ref: Seq<char>,
    reviewer_id: Seq<char>,
    session_id: Seq<char>,
    parent_id: Option<Seq<char>>,
    now: Seq<char>,
    fresh: Seq<char>,
    r: Result<String, ReviewError>,
)
    requires
        old.wf(),
        0 <= k < old.reviews@.len(),
        old.reviews@[k].reviewer_id@ == reviewer_id,
        old.reviews@[k].session_id@ == session_id,
        old.reviews@[k].target_ref@ == target_ref,
        valid_id8(reviewer_id),
        valid_id8(session_id),
        parent_id matches Some(p) ==> valid_id8(p),
        registered(old, new, target_ref, reviewer_id, Some(session_id), parent_id, now, fresh, r),
    ensures
        r matches Ok(s) && s@ == session_id,
        new.reviews@ == old.reviews@,
        reviewers_after(old.reviewers@, new.reviewers@, reviewer_id),
        same_header(old, new),
{
    let p = key_is(reviewer_id, session_id);
    assert(p(old.reviews@[k]));
    if first_index(old.reviews@, p) is None {
        lemma_first_from_none(old.reviews@, p, 0);
    }
    lemma_first_from_some(old.reviews@, p, 0);
    let j = first_index(old.reviews@, p)->0;
    if j != k {
        if j < k {
            assert(!same_key(old.reviews@[j], old.reviews@[k]));
        } else {
            assert(!p(old.reviews@[k]));
        }
    }
}

/// Registering twice with the same arguments and an explicit session id: the second call
/// returns the same session id and leaves the document as the first call left it; the first
/// call leaves every existing entry as it was.
pub proof fn lemma_register_idempotent(
    d0: SessionFile,
    d1: SessionFile,
    d2: SessionFile,
    target_ref: Seq<char>,
    reviewer_id: Seq<char>,
    session_id: Seq<char>,
    parent_id: Option<Seq<char>>,
    now: Seq<char>,
    fresh1: Seq<char>,
    fresh2: Seq<char>,
    r1: Result<String, ReviewError>,
    r2: Result<String, ReviewError>,
)
    requires
        registered(d0, d1, target_ref, reviewer_id, Some(session_id), parent_id, now, fresh1, r1),
        r1 is Ok,
        registered(d1, d2, target_ref, reviewer_id, Some(session_id), parent_id, now, fresh2, r2),
    ensures
        r2 matches Ok(s) && s@ == session_id,
        d2.reviews@ == d1.reviews@,
        d2.reviewers@ == d1.reviewers@,
        same_header(d1, d2),
        d1.reviews@.take(d0.reviews@.len() as int) == d0.reviews@,
        lists_reviewer(d1.reviewers@, reviewer_id),
{
    let p = key_is(reviewer_id, session_id);
    let found0 = first_index(d0.reviews@, p);
    assert(d0.reviews@.take(d0.reviews@.len() as int) =~= d0.reviews@);
    if !lists_reviewer(d0.reviewers@, reviewer_id) {
        assert(d1.reviewers@[d1.reviewers@.len() - 1]@ == reviewer_id);
    }
    if found0 is Some {
        assert(first_index(d1.reviews@, p) == found0);
    } else {
        let e = d1.reviews@.last();
        assert(d1.reviews@ =~= d0.reviews@.push(e));
        lemma_first_from_push(d0.reviews@, e, p, 0);
        assert(first_index(d1.reviews@, p) == Some(d0.reviews@.len() as int));
    }
}


/// Whether `b` keeps the identity and the finalization record of `a`.
pub open spec fn keeps_record(a: ReviewEntry, b: ReviewEntry) -> bool {
    &&& b.reviewer_id == a.reviewer_id
    &&& b.session_id == a.session_id
    &&& b.target_ref == a.target_ref
    &&& b.parent_id == a.parent_id
    &&& b.started_at == a.started_at
    &&& b.finished_at == a.finished_at
    &&& b.verdict == a.verdict
    &&& b.counts == a.counts
    &&& b.report_file == a.report_file
}

/// Whether `new` differs from `old` at most in entry `i`, and the rest of the document agrees.
pub open spec fn only_entry_changed(old: SessionFile, new: SessionFile, i: int) -> bool {
    &&& same_header(old, new)
    &&& new.reviewers@ == old.reviewers@
    &&& new.reviews@.len() == old.reviews@.len()
    &&& 0 <= i < old.reviews@.len()
    &&& forall|j: int| 0 <= j < old.reviews@.len() && j != i ==> new.reviews@[j] == old.reviews@[j]
}

/// The outcome shared by the operations on one existing entry: malformed identifiers (with
/// `id_error`, the message of the first failing check) and a missing entry are refused and
/// leave the document alone; otherwise `changed` holds of the
/// entry that was found.
pub open spec fn entry_operation(
    old: SessionFile,
    new: SessionFile,
    id_error: Option<Seq<char>>,
    reviewer_id: Seq<char>,
    session_id: Seq<char>,
    r: Result<(), ReviewError>,
    changed: spec_fn(ReviewEntry, ReviewEntry) -> bool,
) -> bool {
    if id_error is Some {
        (r matches Err(ReviewError::InvalidId(e)) && e@ == id_error->0) && new == old
    } else {
        match first_index(old.reviews@, key_is(reviewer_id, session_id)) {
            None => (r matches Err(ReviewError::NotFound(e)) && e@ == not_found_message()) && new == old,
            Some(i) => r is Ok && only_entry_changed(old, new, i) && changed(
                old.reviews@[i],
                new.reviews@[i],
            ),
        }
    }
}

/// The change made by `update_entry` to the fields the reviewing agent owns.
pub open spec fn updated_fields(
    status: Option<ReviewerStatus>,
    phase: Option<Option<ReviewPhase>>,
    now: Seq<char>,
) -> spec_fn(ReviewEntry, ReviewEntry) -> bool {
    |a: ReviewEntry, b: ReviewEntry|
        {
            &&& keeps_record(a, b)
            &&& b.notes == a.notes
            &&& b.initiator_status == a.initiator_status
            &&& b.status == (match status {
                Some(s) => s,
                None => a.status,
            })
            &&& b.current_phase == (match phase {
                Some(p) => p,
                None => a.current_phase,
            })
            &&& b.updated_at@ == now
        }
}

/// The applicator-owned change made by `set_initiator_status_entry`.
pub open spec fn initiator_set(status: InitiatorStatus, now: Seq<char>) -> spec_fn(ReviewEntry, ReviewEntry) -> bool {
    |a: ReviewEntry, b: ReviewEntry|
        {
            &&& keeps_record(a, b)
            &&& b.notes == a.notes
            &&& b.status == a.status
            &&& b.current_phase == a.current_phase
            &&& b.initiator_status == status
            &&& b.updated_at@ == now
        }
}

/// The change made by `append_note_entry`: one note at the end of the log.
pub open spec fn note_appended(
    role: NoteRole,
    note_type: NoteType,
    content: Seq<char>,
    now: Seq<char>,
) -> spec_fn(ReviewEntry, ReviewEntry) -> bool {
    |a: ReviewEntry, b: ReviewEntry|
        {
            &&& keeps_record(a, b)
            &&& b.status == a.status
            &&& b.current_phase == a.current_phase
            &&& b.initiator_status == a.initiator_status
            &&& b.notes@.len() == a.notes@.len() + 1
            &&& b.notes@.take(a.notes@.len() as int) == a.notes@
            &&& b.notes@.last().role == role
            &&& b.notes@.last().note_type == note_type
            &&& b.notes@.last().content@ == content
            &&& b.notes@.last().timestamp@ == now
            &&& b.updated_at@ == now
        }
}

/// Applies a partial update of the fields the reviewing agent owns to the entry of `(reviewer_id, session_id)`:
/// `status` and `phase` change only where given (`Some(None)` clears the phase), and
/// `updated_at` becomes `now`.
pub fn update_entry(
    doc: &mut SessionFile,
    reviewer_id: &str,
    session_id: &str,
    status: Option<ReviewerStatus>,
    phase: Option<Option<ReviewPhase>>,
    now: &str,
) -> (r: Result<(), ReviewError>)
    ensures
        entry_operation(
            *old(doc),
            *final(doc),
            id_check(reviewer_id@, "reviewer_id"@, id_check(session_id@, "session_id"@, None)),
            reviewer_id@,
            session_id@,
            r,
            updated_fields(status, phase, now@),
        ),
        old(doc).wf() ==> final(doc).wf(),
{
    let ghost d0 = *doc;
    validate_id8(reviewer_id, "reviewer_id")?;
    validate_id8(session_id, "session_id")?;
    let i = match find_entry(&doc.reviews, reviewer_id, session_id) {
        Some(i) => i,
        None => {
            return Err(ReviewError::NotFound("review entry not found for reviewer_id/session_id".to_owned()));
        },
    };
    if let Some(s) = status {
        doc.reviews[i].status = s;
    }
    if let Some(p) = phase {
        doc.reviews[i].current_phase = p;
    }
    doc.reviews[i].updated_at = now.to_owned();
    proof {
        if d0.wf() {
            lemma_entry_operation_keeps_wf(d0, *doc, i as int);
        }
    }
    Ok(())
}


/// Sets the applicator-owned state of the entry of `(reviewer_id, session_id)`; the
/// fields owned by the reviewing agent are left alone. `lock_owner` must be a well-formed identifier.
pub fn set_initiator_status_entry(
    doc: &mut SessionFile,
    reviewer_id: &str,
    session_id: &str,
    initiator_status: InitiatorStatus,
    now: &str,
    lock_owner: &str,
) -> (r: Result<(), ReviewError>)
    ensures
        entry_operation(
            *old(doc),
            *final(doc),
            id_check(
                reviewer_id@,
                "reviewer_id"@,
                id_check(session_id@, "session_id"@, id_check(lock_owner@, "lock_owner"@, None)),
            ),
            reviewer_id@,
            session_id@,
            r,
            initiator_set(initiator_status, now@),
        ),
        old(doc).wf() ==> final(doc).wf(),
{
    let ghost d0 = *doc;
    validate_id8(reviewer_id, "reviewer_id")?;
    validate_id8(session_id, "session_id")?;
    validate_id8(lock_owner, "lock_owner")?;
    let i = match find_entry(&doc.reviews, reviewer_id, session_id) {
        Some(i) => i,
        None => {
            return Err(ReviewError::NotFound("review entry not found for reviewer_id/session_id".to_owned()));
        },
    };
    doc.reviews[i].initiator_status = initiator_status;
    doc.reviews[i].updated_at = now.to_owned();
    proof {
        if d0.wf() {
            lemma_entry_operation_keeps_wf(d0, *doc, i as int);
        }
    }
    Ok(())
}

/// Appends a note to the log of the entry of `(reviewer_id, session_id)`; existing notes are
/// kept as they are. `content` is the note's JSON text; `lock_owner` must be a well-formed
/// identifier.
pub fn append_note_entry(
    doc: &mut SessionFile,
    reviewer_id: &str,
    session_id: &str,
    role: NoteRole,
    note_type: NoteType,
    content: &str,
    now: &str,
    lock_owner: &str,
) -> (r: Result<(), ReviewError>)
    ensures
        entry_operation(
            *old(doc),
            *final(doc),
            id_check(
                reviewer_id@,
                "reviewer_id"@,
                id_check(session_id@, "session_id"@, id_check(lock_owner@, "lock_owner"@, None)),
            ),
            reviewer_id@,
            session_id@,
            r,
            note_appended(role, note_type, content@, now@),
        ),
        old(doc).wf() ==> final(doc).wf(),
{
    let ghost d0 = *doc;
    validate_id8(reviewer_id, "reviewer_id")?;
    validate_id8(session_id, "session_id")?;
    validate_id8(lock_owner, "lock_owner")?;
    let i = match find_entry(&doc.reviews, reviewer_id, session_id) {
        Some(i) => i,
        None => {
            return Err(ReviewError::NotFound("review entry not found for reviewer_id/session_id".to_owned()));
        },
    };
    let note = SessionNote {
        role,
        timestamp: now.to_owned(),
        note_type,
        content: content.to_owned(),
    };
    let ghost before = doc.reviews@[i as int].notes@;
    doc.reviews[i].notes.push(note);
    assert(doc.reviews@[i as int].notes@.take(before.len() as int) =~= before);
    doc.reviews[i].updated_at = now.to_owned();
    proof {
        if d0.wf() {
            lemma_entry_operation_keeps_wf(d0, *doc, i as int);
        }
    }
    Ok(())
}

/// What the locked check before a finalization decides: malformed identifiers, a missing
/// entry, and an entry whose report is already recorded are refused; otherwise the index of
/// the entry is returned.
pub open spec fn finalize_check(doc: SessionFile, reviewer_id: Seq<char>, session_id: Seq<char>, r: Result<usize, ReviewError>) -> bool {
    let id_error = id_check(reviewer_id, "reviewer_id"@, id_check(session_id, "session_id"@, None));
    if id_error is Some {
        r matches Err(ReviewError::InvalidId(e)) && e@ == id_error->0
    } else {
        match first_index(doc.reviews@, key_is(reviewer_id, session_id)) {
            None => r matches Err(ReviewError::NotFound(e)) && e@ == not_found_message(),
            Some(i) => if doc.reviews@[i].report_file is Some {
                r matches Err(ReviewError::Conflict(e)) && e@ == report_set_message()
            } else {
                r matches Ok(k) && k == i
            },
        }
    }
}

/// The check made under the lock before a report is written: the entry must exist and must
/// not have a report yet. Returns the entry's index.
pub fn check_finalizable(doc: &SessionFile, reviewer_id: &str, session_id: &str) -> (r: Result<usize, ReviewError>)
    ensures
        finalize_check(*doc, reviewer_id@, session_id@, r),
        r matches Ok(i) ==> i < doc.reviews@.len(),
{
    validate_id8(reviewer_id, "reviewer_id")?;
    validate_id8(session_id, "session_id")?;
    let i = match find_entry(&doc.reviews, reviewer_id, session_id) {
        Some(i) => i,
        None => {
            return Err(ReviewError::NotFound("review entry not found for reviewer_id/session_id".to_owned()));
        },
    };
    if doc.reviews[i].report_file.is_some() {
        return Err(ReviewError::Conflict("report_file already set; refusing to overwrite".to_owned()));
    }
    Ok(i)
}

/// The change made by `record_finalization`.
pub open spec fn finalized_fields(
    verdict: ReviewVerdict,
    counts: SeverityCounts,
    report_file: Seq<char>,
    now: Seq<char>,
) -> spec_fn(ReviewEntry, ReviewEntry) -> bool {
    |a: ReviewEntry, b: ReviewEntry|
        {
            &&& b.reviewer_id == a.reviewer_id
            &&& b.session_id == a.session_id
            &&& b.target_ref == a.target_ref
            &&& b.parent_id == a.parent_id
            &&& b.started_at == a.started_at
            &&& b.initiator_status == a.initiator_status
            &&& b.notes == a.notes
            &&& b.status == ReviewerStatus::Finished
            &&& b.current_phase == Some(ReviewPhase::ReportWriting)
            &&& b.verdict == Some(verdict)
            &&& b.counts == counts
            &&& opt_text(b.report_file) == Some(report_file)
            &&& opt_text(b.finished_at) == Some(now)
            &&& b.updated_at@ == now
        }
}

/// What `record_finalization` does: it refuses as the check before finalization does, and
/// leaves the document alone then; otherwise `changed` holds of the entry.
pub open spec fn finalization_recorded(
    old: SessionFile,
    new: SessionFile,
    reviewer_id: Seq<char>,
    session_id: Seq<char>,
    changed: spec_fn(ReviewEntry, ReviewEntry) -> bool,
    r: Result<(), ReviewError>,
) -> bool {
    let id_error = id_check(reviewer_id, "reviewer_id"@, id_check(session_id, "session_id"@, None));
    if id_error is Some {
        (r matches Err(ReviewError::InvalidId(e)) && e@ == id_error->0) && new == old
    } else {
        match first_index(old.reviews@, key_is(reviewer_id, session_id)) {
            None => (r matches Err(ReviewError::NotFound(e)) && e@ == not_found_message()) && new == old,
            Some(i) => if old.reviews@[i].report_file is Some {
                (r matches Err(ReviewError::Conflict(e)) && e@ == report_set_message()) && new == old
            } else {
                r is Ok && only_entry_changed(old, new, i) && changed(old.reviews@[i], new.reviews@[i])
            },
        }
    }
}

/// Records a written report in the entry of `(reviewer_id, session_id)`, after re-checking
/// under the lock that the entry still exists and still has no report: the status becomes
/// `Finished`, the phase `ReportWriting`, and verdict, counts, report file and times are set.
pub fn record_finalization(
    doc: &mut SessionFile,
    reviewer_id: &str,
    session_id: &str,
    verdict: ReviewVerdict,
    counts: SeverityCounts,
    report_file: &str,
    now: &str,
) -> (r: Result<(), ReviewError>)
    ensures
        finalization_recorded(
            *old(doc),
            *final(doc),
            reviewer_id@,
            session_id@,
            finalized_fields(verdict, counts, report_file@, now@),
            r,
        ),
        old(doc).wf() ==> final(doc).wf(),
{
    let ghost d0 = *doc;
    let i = check_finalizable(doc, reviewer_id, session_id)?;
    doc.reviews[i].status = ReviewerStatus::Finished;
    doc.reviews[i].current_phase = Some(ReviewPhase::ReportWriting);
    doc.reviews[i].verdict = Some(verdict);
    doc.reviews[i].counts = counts;
    doc.reviews[i].report_file = Some(report_file.to_owned());
    doc.reviews[i].finished_at = Some(now.to_owned());
    doc.reviews[i].updated_at = now.to_owned();
    proof {
        if d0.wf() {
            lemma_entry_operation_keeps_wf(d0, *doc, i as int);
        }
    }
    Ok(())
}


/// Once a finalization is recorded, finalizing the same entry again is refused with
/// `Conflict`, both by the check before the report is written and by the recording itself,
/// which then leaves the document, and so the recorded report file, as it was.
pub proof fn lemma_finalize_refused_after_success(
    d0: SessionFile,
    d1: SessionFile,
    d2: SessionFile,
    reviewer_id: Seq<char>,
    session_id: Seq<char>,
    verdict: ReviewVerdict,
    counts: SeverityCounts,
    report_file: Seq<char>,
    now: Seq<char>,
    r1: Result<(), ReviewError>,
    check: Result<usize, ReviewError>,
    again: spec_fn(ReviewEntry, ReviewEntry) -> bool,
    r2: Result<(), ReviewError>,
)
    requires
        finalization_recorded(d0, d1, reviewer_id, session_id, finalized_fields(verdict, counts, report_file, now), r1),
        r1 is Ok,
        finalize_check(d1, reviewer_id, session_id, check),
        finalization_recorded(d1, d2, reviewer_id, session_id, again, r2),
    ensures
        check matches Err(ReviewError::Conflict(_)),
        r2 matches Err(ReviewError::Conflict(_)),
        d2 == d1,
        first_index(d1.reviews@, key_is(reviewer_id, session_id)) matches Some(i)
            && opt_text(d1.reviews@[i].report_file) == Some(report_file),
{
    let p = key_is(reviewer_id, session_id);
    let i = first_index(d0.reviews@, p)->0;
    assert forall|j: int| 0 <= j < d0.reviews@.len() implies p(#[trigger] d0.reviews@[j]) == p(d1.reviews@[j]) by {
        if j != i {
            assert(d1.reviews@[j] == d0.reviews@[j]);
        }
    }
    lemma_first_from_same_judgement(d0.reviews@, d1.reviews@, p, 0);
}


/// The report file name of entry `i`, from its registration time, target ref and agent id.
pub fn planned_report_name(doc: &SessionFile, i: usize) -> (r: Result<String, ReviewError>)
    requires
        i < doc.reviews@.len(),
    ensures
        ({
            let e = doc.reviews@[i as int];
            match r {
                Ok(s) => rfc3339_reading(e.started_at@) matches Some(t) && s@ == report_name_text(
                    clock_text(t.0, t.1, t.2),
                    e.target_ref@,
                    e.reviewer_id@,
                ),
                Err(err) => err is Parse,
            }
        }),
        rfc3339_reading(doc.reviews@[i as int].started_at@) is None ==> r is Err,
        rfc3339_reading(doc.reviews@[i as int].started_at@) matches Some(t) && clock_formattable(t) ==> r is Ok,
{
    let e = &doc.reviews[i];
    let started = Timestamp::parse_rfc3339(e.started_at.as_str())?;
    report_file_name(&started, e.target_ref.as_str(), e.reviewer_id.as_str())
}


/// What registration reports back.
#[derive(Clone, Debug)]
pub struct RegisterReviewerResult {
    /// Id of the registered agent.
    pub reviewer_id: String,
    /// Session joined or started.
    pub session_id: String,
    /// The session directory.
    pub session_dir: String,
    /// Path of the session document.
    pub session_file: String,
}

impl RegisterReviewerResult {
    /// The result for an agent registered in `session_id` of the session at `locator`.
    pub fn new(reviewer_id: String, session_id: String, locator: &SessionLocator) -> (r: RegisterReviewerResult)
        ensures
            r.reviewer_id == reviewer_id,
            r.session_id == session_id,
            r.session_dir@ == locator.session_dir@,
            r.session_file@ == joined(locator.session_dir@, "_session.json"@),
    {
        RegisterReviewerResult {
            reviewer_id,
            session_id,
            session_dir: locator.session_dir.clone(),
            session_file: locator.session_file(),
        }
    }
}

/// What finalization reports back.
#[derive(Clone, Debug)]
pub struct FinalizeReviewResult {
    /// The report file as recorded in the entry.
    pub report_file: String,
    /// Where the report file was written.
    pub report_path: String,
}


proof fn lemma_wf_list_existing(old: SessionFile, new: SessionFile, id: Seq<char>)
    requires
        old.wf(),
        new.reviews@ == old.reviews@,
        reviewers_after(old.reviewers@, new.reviewers@, id),
        has_entry_of(old.reviews@, id),
    ensures
        new.wf(),
{
    if !lists_reviewer(old.reviewers@, id) {
        let n = old.reviewers@.len() as int;
        assert forall|i: int| 0 <= i < n implies new.reviewers@[i] == old.reviewers@[i] by {
            assert(new.reviewers@.take(n)[i] == new.reviewers@[i]);
        }
        assert forall|k: int| 0 <= k < new.reviews@.len() implies lists_reviewer(new.reviewers@, (#[trigger] new.reviews@[k]).reviewer_id@) by {
            let i = choose|i: int| 0 <= i < old.reviewers@.len() && (#[trigger] old.reviewers@[i])@ == old.reviews@[k].reviewer_id@;
            assert(new.reviewers@[i] == old.reviewers@[i]);
        }
    }
}

proof fn lemma_wf_append(old: SessionFile, new: SessionFile, id: Seq<char>, e: ReviewEntry)
    requires
        old.wf(),
        new.reviews@ == old.reviews@.push(e),
        e.reviewer_id@ == id,
        reviewers_after(old.reviewers@, new.reviewers@, id),
        forall|j: int| 0 <= j < old.reviews@.len() ==> !same_key(#[trigger] old.reviews@[j], e),
    ensures
        new.wf(),
{
    let n = old.reviewers@.len() as int;
    let m = old.reviews@.len() as int;
    assert forall|k: int| 0 <= k < m implies new.reviews@[k] == old.reviews@[k] by {}
    assert(new.reviews@[m] == e);
    if !lists_reviewer(old.reviewers@, id) {
        assert forall|i: int| 0 <= i < n implies new.reviewers@[i] == old.reviewers@[i] by {
            assert(new.reviewers@.take(n)[i] == new.reviewers@[i]);
        }
        assert(new.reviewers@[n]@ == id);
    }
    assert(lists_reviewer(new.reviewers@, id)) by {
        if lists_reviewer(old.reviewers@, id) {
        } else {
            assert(new.reviewers@[n]@ == id);
        }
    }
    assert forall|i: int| 0 <= i < new.reviewers@.len() implies has_entry_of(new.reviews@, (#[trigger] new.reviewers@[i])@) by {
        if i < n {
            let k = choose|k: int| 0 <= k < m && (#[trigger] old.reviews@[k]).reviewer_id@ == old.reviewers@[i]@;
            assert(new.reviews@[k] == old.reviews@[k]);
        } else {
            assert(new.reviews@[m].reviewer_id@ == id);
        }
    }
    assert forall|k: int| 0 <= k < new.reviews@.len() implies lists_reviewer(new.reviewers@, (#[trigger] new.reviews@[k]).reviewer_id@) by {
        if k < m {
            let i = choose|i: int| 0 <= i < n && (#[trigger] old.reviewers@[i])@ == old.reviews@[k].reviewer_id@;
            assert(new.reviewers@[i] == old.reviewers@[i]);
        }
    }
    assert forall|k: int, l: int| 0 <= k < l < new.reviews@.len() implies !same_key(#[trigger] new.reviews@[k], #[trigger] new.reviews@[l]) by {
        if l == m {
            assert(!same_key(old.reviews@[k], e));
        }
    }
}

/// Registration keeps the document's invariant.
pub proof fn lemma_register_keeps_wf(
    old: SessionFile,
    new: SessionFile,
    target_ref: Seq<char>,
    reviewer_id: Seq<char>,
    session_id: Option<Seq<char>>,
    parent_id: Option<Seq<char>>,
    now: Seq<char>,
    fresh: Seq<char>,
    r: Result<String, ReviewError>,
)
    requires
        old.wf(),
        registered(old, new, target_ref, reviewer_id, session_id, parent_id, now, fresh, r),
    ensures
        new.wf(),
{
    let sid = chosen_session(old.reviews@, target_ref, session_id, fresh);
    let p = key_is(reviewer_id, sid);
    if r is Ok {
        match first_index(old.reviews@, p) {
            Some(i) => {
                lemma_first_from_some(old.reviews@, p, 0);
                assert(old.reviews@[i].reviewer_id@ == reviewer_id);
                lemma_wf_list_existing(old, new, reviewer_id);
            },
            None => {
                lemma_first_from_none(old.reviews@, p, 0);
                let e = new.reviews@.last();
                assert(new.reviews@ =~= old.reviews@.push(e));
                assert forall|j: int| 0 <= j < old.reviews@.len() implies !same_key(#[trigger] old.reviews@[j], e) by {
                    assert(!p(old.reviews@[j]));
                }
                lemma_wf_append(old, new, reviewer_id, e);
            },
        }
    }
}

/// Updating, setting the applicator state, appending a note and recording a finalization keep
/// the document's invariant: none of them changes the agent list or an entry's key.
pub proof fn lemma_entry_operation_keeps_wf(
    old: SessionFile,
    new: SessionFile,
    i: int,
)
    requires
        old.wf(),
        only_entry_changed(old, new, i),
        same_key(new.reviews@[i], old.reviews@[i]),
    ensures
        new.wf(),
{
    assert forall|k: int| 0 <= k < old.reviews@.len() implies same_key(#[trigger] new.reviews@[k], old.reviews@[k]) by {
        if k != i {
            assert(new.reviews@[k] == old.reviews@[k]);
        }
    }
    lemma_wf_same_keys(old, new);
}

} // verus!
