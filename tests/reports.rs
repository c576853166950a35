use mpcr::model::{ReviewEntry, SessionFile, SessionNote, SeverityCounts};
use mpcr::names::{InitiatorStatus, NoteRole, NoteType, ReportsView, ReviewPhase, ReviewVerdict, ReviewerStatus};
use mpcr::paths::SessionLocator;
use mpcr::reports::{collect_reports, ReportsFilters, ReportsOptions};

fn note() -> SessionNote {
    SessionNote {
        role: NoteRole::Reviewer,
        timestamp: "2026-01-11T01:30:00Z".to_string(),
        note_type: NoteType::Question,
        content: "\"need context\"".to_string(),
    }
}

fn fixture() -> (SessionLocator, SessionFile) {
    let session_locator = SessionLocator::new("/tmp/session".to_string());
    let started_at = "2026-01-11T00:00:00Z".to_string();
    let updated_at = "2026-01-11T01:00:00Z".to_string();
    let in_progress = ReviewEntry {
        reviewer_id: "deadbeef".to_string(),
        session_id: "sess0001".to_string(),
        target_ref: "refs/heads/main".to_string(),
        initiator_status: InitiatorStatus::Requesting,
        status: ReviewerStatus::InProgress,
        parent_id: None,
        started_at: started_at.clone(),
        updated_at: updated_at.clone(),
        finished_at: None,
        current_phase: Some(ReviewPhase::Ingestion),
        verdict: None,
        counts: SeverityCounts::zero(),
        report_file: None,
        notes: vec![note()],
    };
    let blocked = ReviewEntry {
        reviewer_id: "cafebabe".to_string(),
        session_id: "sess0002".to_string(),
        target_ref: "refs/heads/dev".to_string(),
        initiator_status: InitiatorStatus::Observing,
        status: ReviewerStatus::Blocked,
        parent_id: None,
        started_at: started_at.clone(),
        updated_at: updated_at.clone(),
        finished_at: None,
        current_phase: None,
        verdict: None,
        counts: SeverityCounts::zero(),
        report_file: None,
        notes: Vec::new(),
    };
    let finished = ReviewEntry {
        reviewer_id: "feedface".to_string(),
        session_id: "sess0003".to_string(),
        target_ref: "refs/heads/main".to_string(),
        initiator_status: InitiatorStatus::Received,
        status: ReviewerStatus::Finished,
        parent_id: None,
        started_at: started_at.clone(),
        updated_at: updated_at.clone(),
        finished_at: Some("2026-01-11T02:00:00Z".to_string()),
        current_phase: Some(ReviewPhase::ReportWriting),
        verdict: Some(ReviewVerdict::Approve),
        counts: SeverityCounts { blocker: 0, major: 1, minor: 0, nit: 0 },
        report_file: Some("12-00-00-000_refs_heads_main_feedface.md".to_string()),
        notes: Vec::new(),
    };
    let session = SessionFile {
        schema_version: "1.0.0".to_string(),
        session_date: "2026-01-11".to_string(),
        repo_root: "/repo".to_string(),
        reviewers: vec!["deadbeef".to_string(), "cafebabe".to_string(), "feedface".to_string()],
        reviews: vec![in_progress, blocked, finished],
    };
    (session_locator, session)
}

fn filters() -> ReportsFilters {
    ReportsFilters::default()
}

fn count(view: ReportsView, f: ReportsFilters) -> usize {
    let (locator, session) = fixture();
    collect_reports(&session, &locator, view, f, ReportsOptions::default()).matching_reviews
}

#[test]
fn reports_filters_match_status_phase_verdict() {
    let (_, session) = fixture();
    let entry = &session.reviews[2];
    let mut f = filters();
    f.reviewer_statuses = vec![ReviewerStatus::Finished];
    f.initiator_statuses = vec![InitiatorStatus::Received];
    f.verdicts = vec![ReviewVerdict::Approve];
    f.phases = vec![ReviewPhase::ReportWriting];
    f.only_with_report = true;
    let mut with_note = entry.clone();
    with_note.notes.push(note());
    f.only_with_notes = true;
    assert!(f.matches(&with_note));

    let mut mismatched = filters();
    mismatched.reviewer_statuses = vec![ReviewerStatus::Blocked];
    assert!(!mismatched.matches(entry));
}

#[test]
fn reports_views_and_filters() {
    let (locator, session) = fixture();
    let open = collect_reports(&session, &locator, ReportsView::Open, filters(), ReportsOptions::default());
    assert_eq!(open.total_reviews, 3);
    assert_eq!(open.matching_reviews, 2);
    assert_eq!(count(ReportsView::Closed, filters()), 1);
    assert_eq!(count(ReportsView::InProgress, filters()), 1);

    let mut f = filters();
    f.target_ref = Some("refs/heads/main".to_string());
    assert_eq!(count(ReportsView::Open, f), 1);
    let mut f = filters();
    f.reviewer_statuses = vec![ReviewerStatus::Blocked];
    assert_eq!(count(ReportsView::Open, f), 1);
    let mut f = filters();
    f.initiator_statuses = vec![InitiatorStatus::Observing];
    assert_eq!(count(ReportsView::Open, f), 1);
    let mut f = filters();
    f.verdicts = vec![ReviewVerdict::Approve];
    assert_eq!(count(ReportsView::Closed, f), 1);
    let mut f = filters();
    f.phases = vec![ReviewPhase::Ingestion];
    assert_eq!(count(ReportsView::Open, f), 1);

    let mut f = filters();
    f.only_with_notes = true;
    let only_notes = collect_reports(&session, &locator, ReportsView::Open, f, ReportsOptions { include_notes: true, include_report_contents: false });
    assert_eq!(only_notes.matching_reviews, 1);
    assert!(only_notes.reviews[0].notes.as_ref().is_some(), "expected notes to be included");

    let mut f = filters();
    f.only_with_report = true;
    let only_reports = collect_reports(&session, &locator, ReportsView::Closed, f, ReportsOptions::default());
    assert_eq!(only_reports.matching_reviews, 1);
    assert!(only_reports.reviews[0].report_path.is_some(), "expected report_path to be populated");
}

#[test]
fn reports_view_counts() {
    assert_eq!(count(ReportsView::Open, filters()), 2);
    assert_eq!(count(ReportsView::Closed, filters()), 1);
    assert_eq!(count(ReportsView::InProgress, filters()), 1);
    let (locator, session) = fixture();
    assert_eq!(collect_reports(&session, &locator, ReportsView::Open, filters(), ReportsOptions::default()).total_reviews, 3);
}

#[test]
fn reports_filters_basic_fields() {
    let mut f = filters();
    f.target_ref = Some("refs/heads/main".to_string());
    assert_eq!(count(ReportsView::Open, f), 1);
    let mut f = filters();
    f.reviewer_statuses = vec![ReviewerStatus::Blocked];
    assert_eq!(count(ReportsView::Open, f), 1);
    let mut f = filters();
    f.initiator_statuses = vec![InitiatorStatus::Observing];
    assert_eq!(count(ReportsView::Open, f), 1);
    let mut f = filters();
    f.verdicts = vec![ReviewVerdict::Approve];
    assert_eq!(count(ReportsView::Closed, f), 1);
    let mut f = filters();
    f.phases = vec![ReviewPhase::Ingestion];
    assert_eq!(count(ReportsView::Open, f), 1);
}

#[test]
fn reports_filters_only_notes_and_report() {
    let (locator, session) = fixture();
    let mut f = filters();
    f.only_with_notes = true;
    let only_notes = collect_reports(&session, &locator, ReportsView::Open, f, ReportsOptions { include_notes: true, include_report_contents: false });
    assert_eq!(only_notes.matching_reviews, 1);
    let notes_entry = only_notes.reviews.first().expect("expected review entry");
    let notes = notes_entry.notes.as_ref().expect("expected notes to be included");
    assert_eq!(notes.len(), 1);
    assert_eq!(notes[0].content, "\"need context\"");

    let mut f = filters();
    f.only_with_report = true;
    let only_report = collect_reports(&session, &locator, ReportsView::Closed, f, ReportsOptions::default());
    assert_eq!(only_report.matching_reviews, 1);
    let report_entry = only_report.reviews.first().expect("expected review entry");
    assert_eq!(report_entry.report_path.as_deref(), Some("/tmp/session/12-00-00-000_refs_heads_main_feedface.md"));
    assert!(report_entry.notes.is_none());
}

#[test]
fn blocked_is_open_and_finished_is_closed() {
    let (locator, session) = fixture();
    let open = collect_reports(&session, &locator, ReportsView::Open, filters(), ReportsOptions::default());
    let closed = collect_reports(&session, &locator, ReportsView::Closed, filters(), ReportsOptions::default());
    let active = collect_reports(&session, &locator, ReportsView::InProgress, filters(), ReportsOptions::default());
    assert!(open.reviews.iter().any(|r| r.status == ReviewerStatus::Blocked));
    assert!(!closed.reviews.iter().any(|r| r.status == ReviewerStatus::Blocked));
    assert!(closed.reviews.iter().any(|r| r.status == ReviewerStatus::Finished));
    assert!(!open.reviews.iter().any(|r| r.status == ReviewerStatus::Finished));
    assert!(!active.reviews.iter().any(|r| r.status == ReviewerStatus::Finished));
    assert_eq!(open.session_file, "/tmp/session/_session.json");
}

#[test]
fn reports_on_empty_session() {
    let locator = SessionLocator::new("dir".to_string());
    let session = SessionFile::new_document("2026-01-11", "/repo");
    let r = collect_reports(&session, &locator, ReportsView::Open, filters(), ReportsOptions::default());
    assert_eq!(r.total_reviews, 0);
    assert_eq!(r.matching_reviews, 0);
    assert!(r.reviews.is_empty());
}

#[test]
fn report_path_resolution_by_form() {
    let (locator, mut session) = fixture();
    session.reviews[2].report_file = Some(".local/reports/code_reviews/2026-01-11/x.md".to_string());
    let r = collect_reports(&session, &locator, ReportsView::Closed, filters(), ReportsOptions::default());
    assert_eq!(r.reviews[0].report_path.as_deref(), Some("/repo/.local/reports/code_reviews/2026-01-11/x.md"));
    session.reviews[2].report_file = Some("/abs/x.md".to_string());
    let r = collect_reports(&session, &locator, ReportsView::Closed, filters(), ReportsOptions::default());
    assert_eq!(r.reviews[0].report_path.as_deref(), Some("/abs/x.md"));
}

#[test]
fn enum_names_parse_ignoring_case() {
    assert_eq!(ReviewerStatus::parse("in_progress"), Some(ReviewerStatus::InProgress));
    assert_eq!(ReviewerStatus::parse("BLOCKED"), Some(ReviewerStatus::Blocked));
    assert_eq!(ReviewerStatus::parse("nope"), None);
    assert_eq!(InitiatorStatus::parse("Applied"), Some(InitiatorStatus::Applied));
    assert_eq!(ReviewPhase::parse("report_writing"), Some(ReviewPhase::ReportWriting));
    assert_eq!(NoteType::parse("CLARIFICATION_NEEDED"), Some(NoteType::ClarificationNeeded));
    assert_eq!(NoteType::parse("acknowledged"), Some(NoteType::Acknowledged));
    assert_eq!(ReportsView::parse("in_progress"), Some(ReportsView::InProgress));
    assert_eq!(ReviewerStatus::InProgress.as_str(), "IN_PROGRESS");
    assert_eq!(NoteType::ErrorDetail.as_str(), "error_detail");
    assert_eq!(ReviewerStatus::values().len(), 6);
    assert_eq!(NoteType::values().len(), 12);
    assert!(ReviewerStatus::Error.is_terminal());
    assert!(!ReviewerStatus::Blocked.is_terminal());
}
