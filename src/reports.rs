//! Report listings: which entries a view and a set of filters select, and their summaries.
use vstd::prelude::*;
use crate::model::{opt_text, ReviewEntry, SessionFile, SessionNote, SeverityCounts};
use crate::names::{InitiatorStatus, ReportsView, ReviewPhase, ReviewVerdict, ReviewerStatus};
use crate::paths::{joined, report_location, resolve_report_file_path, SessionLocator};

verus! {

/// Filters applied on top of a view; all that are given must hold.
#[derive(Clone, Debug)]
pub struct ReportsFilters {
    /// Only entries of this target ref.
    pub target_ref: Option<String>,
    /// Only entries of this session.
    pub session_id: Option<String>,
    /// Only entries of this agent.
    pub reviewer_id: Option<String>,
    /// Only entries with one of these lifecycle states (no restriction where empty).
    pub reviewer_statuses: Vec<ReviewerStatus>,
    /// Only entries with one of these applicator states (no restriction where empty).
    pub initiator_statuses: Vec<InitiatorStatus>,
    /// Only entries with one of these verdicts (no restriction where empty).
    pub verdicts: Vec<ReviewVerdict>,
    /// Only entries with one of these phases (no restriction where empty).
    pub phases: Vec<ReviewPhase>,
    /// Only entries that have a report file.
    pub only_with_report: bool,
    /// Only entries with at least one note.
    pub only_with_notes: bool,
}

/// What a listing includes besides the summary fields.
#[derive(Clone, Copy, Debug, PartialEq, Eq, Structural)]
pub struct ReportsOptions {
    /// Include every entry's notes.
    pub include_notes: bool,
    /// Include the contents of each report file (read by the caller).
    pub include_report_contents: bool,
}

impl Default for ReportsOptions {
    fn default() -> (r: ReportsOptions)
        ensures
            !r.include_notes && !r.include_report_contents,
    {
        ReportsOptions { include_notes: false, include_report_contents: false }
    }
}

/// Whether a text filter admits `value`.
pub open spec fn text_filter_admits(filter: Option<String>, value: Seq<char>) -> bool {
    filter matches Some(t) ==> value == t@
}

/// Whether `filters` admit the entry `e`.
pub open spec fn filters_admit(f: ReportsFilters, e: ReviewEntry) -> bool {
    &&& text_filter_admits(f.target_ref, e.target_ref@)
    &&& text_filter_admits(f.session_id, e.session_id@)
    &&& text_filter_admits(f.reviewer_id, e.reviewer_id@)
    &&& (f.reviewer_statuses@.len() > 0 ==> f.reviewer_statuses@.contains(e.status))
    &&& (f.initiator_statuses@.len() > 0 ==> f.initiator_statuses@.contains(e.initiator_status))
    &&& (f.verdicts@.len() > 0 ==> (e.verdict matches Some(v) && f.verdicts@.contains(v)))
    &&& (f.phases@.len() > 0 ==> (e.current_phase matches Some(p) && f.phases@.contains(p)))
    &&& (f.only_with_report ==> e.report_file is Some)
    &&& (f.only_with_notes ==> e.notes@.len() > 0)
}

/// Whether a listing with `view` and `filters` selects the entry `e`.
pub open spec fn selected(view: ReportsView, f: ReportsFilters, e: ReviewEntry) -> bool {
    filters_admit(f, e) && view.selects(e.status)
}

/// The entries of `rs` that a listing with `view` and `filters` selects, in order.
pub open spec fn selection(rs: Seq<ReviewEntry>, view: ReportsView, f: ReportsFilters) -> Seq<ReviewEntry> {
    rs.filter(|e: ReviewEntry| selected(view, f, e))
}

fn holds_reviewer_status(items: &Vec<ReviewerStatus>, x: ReviewerStatus) -> (r: bool)
    ensures
        r == items@.contains(x),
{
    let mut i: usize = 0;
    while i < items.len()
        invariant
            i <= items@.len(),
            forall|j: int| 0 <= j < i ==> items@[j] != x,
        decreases items@.len() - i,
    {
        if items[i] == x {
            assert(items@[i as int] == x);
            return true;
        }
        i = i + 1;
    }
    false
}

fn holds_initiator_status(items: &Vec<InitiatorStatus>, x: InitiatorStatus) -> (r: bool)
    ensures
        r == items@.contains(x),
{
    let mut i: usize = 0;
    while i < items.len()
        invariant
            i <= items@.len(),
            forall|j: int| 0 <= j < i ==> items@[j] != x,
        decreases items@.len() - i,
    {
        if items[i] == x {
            assert(items@[i as int] == x);
            return true;
        }
        i = i + 1;
    }
    false
}

fn holds_verdict(items: &Vec<ReviewVerdict>, x: ReviewVerdict) -> (r: bool)
    ensures
        r == items@.contains(x),
{
    let mut i: usize = 0;
    while i < items.len()
        invariant
            i <= items@.len(),
            forall|j: int| 0 <= j < i ==> items@[j] != x,
        decreases items@.len() - i,
    {
        if items[i] == x {
            assert(items@[i as int] == x);
            return true;
        }
        i = i + 1;
    }
    false
}

fn holds_phase(items: &Vec<ReviewPhase>, x: ReviewPhase) -> (r: bool)
    ensures
        r == items@.contains(x),
{
    let mut i: usize = 0;
    while i < items.len()
        invariant
            i <= items@.len(),
            forall|j: int| 0 <= j < i ==> items@[j] != x,
        decreases items@.len() - i,
    {
        if items[i] == x {
            assert(items@[i as int] == x);
            return true;
        }
        i = i + 1;
    }
    false
}

impl Default for ReportsFilters {
    /// Filters that admit every entry.
    fn default() -> (r: ReportsFilters)
        ensures
            forall|e: ReviewEntry| filters_admit(r, e),
    {
        ReportsFilters {
            target_ref: None,
            session_id: None,
            reviewer_id: None,
            reviewer_statuses: Vec::new(),
            initiator_statuses: Vec::new(),
            verdicts: Vec::new(),
            phases: Vec::new(),
            only_with_report: false,
            only_with_notes: false,
        }
    }
}

fn text_filter_matches(filter: &Option<String>, value: &String) -> (r: bool)
    ensures
        r == text_filter_admits(*filter, value@),
{
    match filter {
        Some(t) => *value == *t,
        None => true,
    }
}

impl ReportsFilters {
    /// Whether these filters admit `entry`.
    pub fn matches(&self, entry: &ReviewEntry) -> (r: bool)
        ensures
            r == filters_admit(*self, *entry),
    {
        if !text_filter_matches(&self.target_ref, &entry.target_ref) {
            return false;
        }
        if !text_filter_matches(&self.session_id, &entry.session_id) {
            return false;
        }
        if !text_filter_matches(&self.reviewer_id, &entry.reviewer_id) {
            return false;
        }
        if self.reviewer_statuses.len() > 0 && !holds_reviewer_status(&self.reviewer_statuses, entry.status) {
            return false;
        }
        if self.initiator_statuses.len() > 0 && !holds_initiator_status(&self.initiator_statuses, entry.initiator_status) {
            return false;
        }
        if self.verdicts.len() > 0 {
            match entry.verdict {
                Some(v) => {
                    if !holds_verdict(&self.verdicts, v) {
                        return false;
                    }
                },
                None => {
                    return false;
                },
            }
        }
        if self.phases.len() > 0 {
            match entry.current_phase {
                Some(p) => {
                    if !holds_phase(&self.phases, p) {
                        return false;
                    }
                },
                None => {
                    return false;
                },
            }
        }
        if self.only_with_report && entry.report_file.is_none() {
            return false;
        }
        if self.only_with_notes && entry.notes.len() == 0 {
            return false;
        }
        true
    }
}


/// Summary of one entry in a report listing.
#[derive(Clone, Debug)]
pub struct ReviewSummary {
    /// Id of the reviewing agent.
    pub reviewer_id: String,
    /// Session id.
    pub session_id: String,
    /// Target ref under review.
    pub target_ref: String,
    /// Applicator-owned state.
    pub initiator_status: InitiatorStatus,
    /// State owned by the reviewing agent.
    pub status: ReviewerStatus,
    /// Id of the agent this one took over from.
    pub parent_id: Option<String>,
    /// Registration time.
    pub started_at: String,
    /// Time of the last change.
    pub updated_at: String,
    /// Finalization time.
    pub finished_at: Option<String>,
    /// Workflow marker.
    pub current_phase: Option<ReviewPhase>,
    /// Verdict.
    pub verdict: Option<ReviewVerdict>,
    /// Severity counts.
    pub counts: SeverityCounts,
    /// Recorded report file.
    pub report_file: Option<String>,
    /// Where the report file is read.
    pub report_path: Option<String>,
    /// The report's contents, where they were asked for and could be read.
    pub report_contents: Option<String>,
    /// Why the report could not be read, where its contents were asked for.
    pub report_error: Option<String>,
    /// Number of notes of the entry.
    pub notes_count: usize,
    /// The entry's notes, where they were asked for.
    pub notes: Option<Vec<SessionNote>>,
}

/// Whether `b` is a copy of the note `a`.
pub open spec fn note_copy(a: SessionNote, b: SessionNote) -> bool {
    b.role == a.role && b.note_type == a.note_type && b.timestamp@ == a.timestamp@ && b.content@
        == a.content@
}

/// Whether `b` holds a copy of each note of `a`, in order.
pub open spec fn notes_copy(a: Seq<SessionNote>, b: Seq<SessionNote>) -> bool {
    a.len() == b.len() && forall|i: int| 0 <= i < a.len() ==> note_copy(#[trigger] a[i], b[i])
}

/// Whether `s` summarizes the entry `e` of a session kept under `repo_root` in `session_dir`.
pub open spec fn summarizes(s: ReviewSummary, e: ReviewEntry, repo_root: Seq<char>, session_dir: Seq<char>, options: ReportsOptions) -> bool {
    &&& s.reviewer_id@ == e.reviewer_id@
    &&& s.session_id@ == e.session_id@
    &&& s.target_ref@ == e.target_ref@
    &&& s.initiator_status == e.initiator_status
    &&& s.status == e.status
    &&& opt_text(s.parent_id) == opt_text(e.parent_id)
    &&& s.started_at@ == e.started_at@
    &&& s.updated_at@ == e.updated_at@
    &&& opt_text(s.finished_at) == opt_text(e.finished_at)
    &&& s.current_phase == e.current_phase
    &&& s.verdict == e.verdict
    &&& s.counts == e.counts
    &&& opt_text(s.report_file) == opt_text(e.report_file)
    &&& opt_text(s.report_path) == match e.report_file {
        Some(f) => Some(report_location(repo_root, session_dir, f@)),
        None => None,
    }
    &&& s.report_contents is None
    &&& s.report_error is None
    &&& s.notes_count == e.notes@.len()
    &&& if options.include_notes {
        s.notes matches Some(n) && notes_copy(e.notes@, n@)
    } else {
        s.notes is None
    }
}

fn copy_text(s: &Option<String>) -> (r: Option<String>)
    ensures
        opt_text(r) == opt_text(*s),
{
    match s {
        Some(t) => Some(t.clone()),
        None => None,
    }
}

impl SessionNote {
    /// A copy of this note.
    pub fn copy(&self) -> (r: SessionNote)
        ensures
            note_copy(*self, r),
    {
        SessionNote {
            role: self.role,
            timestamp: self.timestamp.clone(),
            note_type: self.note_type,
            content: self.content.clone(),
        }
    }
}

fn copy_notes(notes: &Vec<SessionNote>) -> (r: Vec<SessionNote>)
    ensures
        notes_copy(notes@, r@),
{
    let mut out: Vec<SessionNote> = Vec::new();
    let mut i: usize = 0;
    while i < notes.len()
        invariant
            i <= notes@.len(),
            out@.len() == i,
            forall|j: int| 0 <= j < i ==> note_copy(#[trigger] notes@[j], out@[j]),
        decreases notes@.len() - i,
    {
        out.push(notes[i].copy());
        i = i + 1;
    }
    out
}

impl ReviewEntry {
    /// The summary of this entry in a listing; the report contents are left for the caller
    /// to read.
    pub fn summary(&self, repo_root: &str, session_dir: &str, options: ReportsOptions) -> (r: ReviewSummary)
        ensures
            summarizes(r, *self, repo_root@, session_dir@, options),
    {
        let report_path = match &self.report_file {
            Some(f) => Some(resolve_report_file_path(repo_root, session_dir, f.as_str())),
            None => None,
        };
        let notes = if options.include_notes {
            Some(copy_notes(&self.notes))
        } else {
            None
        };
        ReviewSummary {
            reviewer_id: self.reviewer_id.clone(),
            session_id: self.session_id.clone(),
            target_ref: self.target_ref.clone(),
            initiator_status: self.initiator_status,
            status: self.status,
            parent_id: copy_text(&self.parent_id),
            started_at: self.started_at.clone(),
            updated_at: self.updated_at.clone(),
            finished_at: copy_text(&self.finished_at),
            current_phase: self.current_phase,
            verdict: self.verdict,
            counts: self.counts,
            report_file: copy_text(&self.report_file),
            report_path,
            report_contents: None,
            report_error: None,
            notes_count: self.notes.len(),
            notes,
        }
    }
}

/// A report listing.
#[derive(Clone, Debug)]
pub struct ReportsResult {
    /// The session directory.
    pub session_dir: String,
    /// Path of the session document.
    pub session_file: String,
    /// The view used.
    pub view: ReportsView,
    /// The filters used.
    pub filters: ReportsFilters,
    /// The options used.
    pub options: ReportsOptions,
    /// Number of entries in the session.
    pub total_reviews: usize,
    /// Number of entries selected.
    pub matching_reviews: usize,
    /// Summaries of the selected entries, in document order.
    pub reviews: Vec<ReviewSummary>,
}

/// Whether `r` lists the entries of `doc` that `view` and `filters` select.
pub open spec fn lists(r: ReportsResult, doc: SessionFile, session_dir: Seq<char>, view: ReportsView, options: ReportsOptions) -> bool {
    let sel = selection(doc.reviews@, view, r.filters);
    &&& r.session_dir@ == session_dir
    &&& r.session_file@ == joined(session_dir, "_session.json"@)
    &&& r.view == view
    &&& r.options == options
    &&& r.total_reviews == doc.reviews@.len()
    &&& r.matching_reviews == sel.len()
    &&& r.reviews@.len() == sel.len()
    &&& forall|i: int| 0 <= i < sel.len() ==> summarizes(#[trigger] r.reviews@[i], sel[i], doc.repo_root@, session_dir, options)
}

/// Lists the entries of `session` that `view` and `filters` select, in document order.
pub fn collect_reports(
    session: &SessionFile,
    locator: &SessionLocator,
    view: ReportsView,
    filters: ReportsFilters,
    options: ReportsOptions,
) -> (r: ReportsResult)
    ensures
        lists(r, *session, locator.session_dir@, view, options),
        r.filters == filters,
{
    let ghost pred = |e: ReviewEntry| selected(view, filters, e);
    let mut reviews: Vec<ReviewSummary> = Vec::new();
    let mut i: usize = 0;
    while i < session.reviews.len()
        invariant
            i <= session.reviews@.len(),
            pred == (|e: ReviewEntry| selected(view, filters, e)),
            reviews@.len() == session.reviews@.take(i as int).filter(pred).len(),
            forall|k: int| 0 <= k < reviews@.len() ==> summarizes(
                #[trigger] reviews@[k],
                session.reviews@.take(i as int).filter(pred)[k],
                session.repo_root@,
                locator.session_dir@,
                options,
            ),
        decreases session.reviews@.len() - i,
    {
        let entry = &session.reviews[i];
        proof {
            reveal(Seq::filter);
            assert(session.reviews@.take(i + 1).drop_last() =~= session.reviews@.take(i as int));
        }
        if filters.matches(entry) && view.matches_status(entry.status) {
            reviews.push(entry.summary(session.repo_root.as_str(), locator.session_dir(), options));
        }
        i = i + 1;
    }
    assert(session.reviews@.take(i as int) =~= session.reviews@);
    let matching_reviews = reviews.len();
    ReportsResult {
        session_dir: locator.session_dir.clone(),
        session_file: locator.session_file(),
        view,
        filters,
        options,
        total_reviews: session.reviews.len(),
        matching_reviews,
        reviews,
    }
}


/// An entry that is `Blocked` is listed in the open view and not in the closed one; an entry
/// that is `Finished` is listed in the closed view and in neither the open nor the in-progress
/// one (in each case among entries that the filters admit).
pub proof fn lemma_view_classification(rs: Seq<ReviewEntry>, f: ReportsFilters, i: int)
    requires
        0 <= i < rs.len(),
        filters_admit(f, rs[i]),
    ensures
        rs[i].status is Blocked ==> selection(rs, ReportsView::Open, f).contains(rs[i])
            && !selection(rs, ReportsView::Closed, f).contains(rs[i]),
        rs[i].status is Finished ==> selection(rs, ReportsView::Closed, f).contains(rs[i])
            && !selection(rs, ReportsView::Open, f).contains(rs[i])
            && !selection(rs, ReportsView::InProgress, f).contains(rs[i]),
{
    let e = rs[i];
    let open = |x: ReviewEntry| selected(ReportsView::Open, f, x);
    let closed = |x: ReviewEntry| selected(ReportsView::Closed, f, x);
    let active = |x: ReviewEntry| selected(ReportsView::InProgress, f, x);
    if open(e) {
        rs.lemma_filter_contains(open, i);
    }
    if closed(e) {
        rs.lemma_filter_contains(closed, i);
    }
    if selection(rs, ReportsView::Closed, f).contains(e) {
        let k = choose|k: int| 0 <= k < rs.filter(closed).len() && rs.filter(closed)[k] == e;
        rs.lemma_filter_pred(closed, k);
    }
    if selection(rs, ReportsView::Open, f).contains(e) {
        let k = choose|k: int| 0 <= k < rs.filter(open).len() && rs.filter(open)[k] == e;
        rs.lemma_filter_pred(open, k);
    }
    if selection(rs, ReportsView::InProgress, f).contains(e) {
        let k = choose|k: int| 0 <= k < rs.filter(active).len() && rs.filter(active)[k] == e;
        rs.lemma_filter_pred(active, k);
    }
}

} // verus!
