use mpcr::clock::Timestamp;
use mpcr::error::ReviewError;
use mpcr::model::{ReviewEntry, SessionFile, SessionNote, SeverityCounts};
use mpcr::names::{InitiatorStatus, NoteRole, NoteType, ReviewPhase, ReviewVerdict, ReviewerStatus};
use mpcr::session::{
    append_note_entry, check_finalizable, planned_report_name, record_finalization, register_entry,
    set_initiator_status_entry, update_entry,
};

const NOW: &str = "2026-01-11T12:34:56.789Z";

fn empty_doc() -> SessionFile {
    SessionFile::new_document("2026-01-11", "/repo")
}

fn entry(reviewer_id: &str, session_id: &str, status: ReviewerStatus, report_file: Option<&str>) -> ReviewEntry {
    ReviewEntry {
        reviewer_id: reviewer_id.to_string(),
        session_id: session_id.to_string(),
        target_ref: "refs/heads/main".to_string(),
        initiator_status: InitiatorStatus::Requesting,
        status,
        parent_id: None,
        started_at: "2026-01-11T00:00:00Z".to_string(),
        updated_at: "2026-01-11T01:00:00Z".to_string(),
        finished_at: None,
        current_phase: None,
        verdict: None,
        counts: SeverityCounts::zero(),
        report_file: report_file.map(|s| s.to_string()),
        notes: Vec::new(),
    }
}

fn doc_with(entries: Vec<ReviewEntry>) -> SessionFile {
    let mut doc = empty_doc();
    for e in &entries {
        doc.reviewers.push(e.reviewer_id.clone());
    }
    doc.reviews = entries;
    doc
}

fn finalize(doc: &mut SessionFile, reviewer_id: &str, session_id: &str, verdict: ReviewVerdict, counts: SeverityCounts) -> Result<String, ReviewError> {
    let i = check_finalizable(doc, reviewer_id, session_id)?;
    let name = planned_report_name(doc, i)?;
    record_finalization(doc, reviewer_id, session_id, verdict, counts, &name, NOW)?;
    Ok(name)
}

#[test]
fn register_reviewer_errors_on_target_mismatch() {
    let mut doc = empty_doc();
    register_entry(&mut doc, "refs/heads/main", "deadbeef", Some("sess0001"), None, NOW, "ffff0000").unwrap();
    let result = register_entry(&mut doc, "refs/heads/other", "deadbeef", Some("sess0001"), None, NOW, "ffff0000");
    let Err(err) = result else {
        panic!("mismatched target_ref should fail");
    };
    assert!(matches!(err, ReviewError::Conflict(_)));
    assert!(err.message().contains("target_ref"));
    assert_eq!(err.message(), "review entry already exists for reviewer_id/session_id but target_ref differs");
    assert_eq!(doc.reviews.len(), 1);
    assert_eq!(doc.reviews[0].target_ref, "refs/heads/main");
}

#[test]
fn update_review_missing_entry() {
    let mut doc = empty_doc();
    let Err(err) = update_entry(&mut doc, "deadbeef", "sess0001", Some(ReviewerStatus::InProgress), None, NOW) else {
        panic!("missing entry should error");
    };
    assert!(matches!(err, ReviewError::NotFound(_)));
    assert!(err.message().contains("review entry not found"));
}

#[test]
fn finalize_review_refuses_overwrite() {
    let mut e = entry("deadbeef", "sess0001", ReviewerStatus::Finished, Some("existing.md"));
    e.verdict = Some(ReviewVerdict::Approve);
    let mut doc = doc_with(vec![e]);
    let Err(err) = finalize(&mut doc, "deadbeef", "sess0001", ReviewVerdict::Approve, SeverityCounts::zero()) else {
        panic!("should refuse overwrite");
    };
    assert!(matches!(err, ReviewError::Conflict(_)));
    assert!(err.message().contains("report_file already set"));
    assert_eq!(doc.reviews[0].report_file.as_deref(), Some("existing.md"));
}

#[test]
fn append_note_rejects_bad_lock_owner() {
    let mut doc = doc_with(vec![entry("deadbeef", "sess0001", ReviewerStatus::Initializing, None)]);
    let Err(err) = append_note_entry(&mut doc, "deadbeef", "sess0001", NoteRole::Reviewer, NoteType::Question, "\"why?\"", NOW, "bad") else {
        panic!("bad lock_owner should error");
    };
    assert!(matches!(err, ReviewError::InvalidId(_)));
    assert!(err.message().contains("lock_owner"));
    assert!(doc.reviews[0].notes.is_empty());
}

#[test]
fn mp_code_review_register_and_finalize_writes_report_and_updates_session() {
    let now = Timestamp::parse_rfc3339(NOW).unwrap();
    let now_text = now.to_rfc3339().unwrap();
    let mut doc = empty_doc();
    let sid = register_entry(&mut doc, "refs/heads/main", "deadbeef", Some("sess0001"), None, &now_text, "ffff0000").unwrap();
    assert_eq!(sid, "sess0001");
    assert_eq!(doc.reviewers, vec!["deadbeef".to_string()]);
    assert_eq!(doc.reviews.len(), 1);
    assert_eq!(doc.reviews[0].reviewer_id, "deadbeef");
    assert_eq!(doc.reviews[0].session_id, "sess0001");
    assert_eq!(doc.reviews[0].target_ref, "refs/heads/main");

    let counts = SeverityCounts { blocker: 0, major: 1, minor: 2, nit: 3 };
    let name = finalize(&mut doc, "deadbeef", "sess0001", ReviewVerdict::Approve, counts).unwrap();
    assert_eq!(name, "12-34-56-789_refs_heads_main_deadbeef.md".to_string());
    let e = &doc.reviews[0];
    assert_eq!(e.report_file.as_deref(), Some("12-34-56-789_refs_heads_main_deadbeef.md"));
    assert!(e.finished_at.is_some());
    assert_eq!(e.status, ReviewerStatus::Finished);
    assert_eq!(e.current_phase, Some(ReviewPhase::ReportWriting));
    assert_eq!(e.counts, counts);
}

#[test]
fn mp_code_review_register_reviewer_does_not_inherit_initiator_status_from_old_session() {
    let mut doc = empty_doc();
    register_entry(&mut doc, "refs/heads/main", "deadbeef", Some("sess0001"), None, NOW, "ffff0000").unwrap();
    set_initiator_status_entry(&mut doc, "deadbeef", "sess0001", InitiatorStatus::Applied, NOW, "lock0001").unwrap();
    finalize(&mut doc, "deadbeef", "sess0001", ReviewVerdict::Approve, SeverityCounts::zero()).unwrap();
    register_entry(&mut doc, "refs/heads/main", "cafebabe", Some("sess0002"), None, NOW, "ffff0000").unwrap();
    let e = doc.reviews.iter().find(|r| r.reviewer_id == "cafebabe").expect("cafebabe entry should exist");
    assert_eq!(e.initiator_status, InitiatorStatus::Requesting);
}

#[test]
fn mp_code_review_applicator_lock_owner_must_be_id8() {
    let mut doc = empty_doc();
    register_entry(&mut doc, "refs/heads/main", "deadbeef", Some("sess0001"), None, NOW, "ffff0000").unwrap();
    let err = set_initiator_status_entry(&mut doc, "deadbeef", "sess0001", InitiatorStatus::Reviewed, NOW, "not/ok")
        .expect_err("invalid lock_owner should be rejected");
    assert!(err.message().contains("lock_owner"), "unexpected error: {err:?}");
    assert_eq!(doc.reviews[0].initiator_status, InitiatorStatus::Requesting);
}

#[test]
fn mp_code_review_register_reviewer_is_idempotent_for_same_reviewer_and_session() {
    let mut doc = empty_doc();
    register_entry(&mut doc, "refs/heads/main", "deadbeef", Some("sess0001"), None, NOW, "ffff0000").unwrap();
    let first_updated = doc.reviews[0].updated_at.clone();
    let sid = register_entry(&mut doc, "refs/heads/main", "deadbeef", Some("sess0001"), None, "2026-01-12T00:00:00Z", "ffff0001").unwrap();
    assert_eq!(sid, "sess0001");
    assert_eq!(doc.reviews.len(), 1);
    assert_eq!(doc.reviewers.len(), 1);
    assert_eq!(doc.reviews[0].updated_at, first_updated);
    assert_eq!(doc.reviews[0].status, ReviewerStatus::Initializing);
}

#[test]
fn register_adds_missing_reviewer_on_existing_entry() {
    let mut doc = doc_with(vec![entry("deadbeef", "sess0001", ReviewerStatus::InProgress, None)]);
    doc.reviewers.clear();
    let sid = register_entry(&mut doc, "refs/heads/main", "deadbeef", Some("sess0001"), None, NOW, "ffff0000").unwrap();
    assert_eq!(sid, "sess0001");
    assert_eq!(doc.reviewers, vec!["deadbeef".to_string()]);
    assert_eq!(doc.reviews.len(), 1);
    assert_eq!(doc.reviews[0].status, ReviewerStatus::InProgress);
}

#[test]
fn register_joins_open_session_and_finalize_twice_conflicts() {
    let mut doc = empty_doc();
    let first = register_entry(&mut doc, "main", "aaaaaaaa", None, None, NOW, "5e551011").unwrap();
    assert_eq!(first, "5e551011");
    assert_eq!(doc.reviews[0].status, ReviewerStatus::Initializing);
    let second = register_entry(&mut doc, "main", "bbbbbbbb", None, None, NOW, "5e551022").unwrap();
    assert_eq!(second, first);
    assert_eq!(doc.reviews.len(), 2);
    assert_eq!(doc.reviewers.len(), 2);

    let name = finalize(&mut doc, "aaaaaaaa", &first, ReviewVerdict::Approve, SeverityCounts::zero()).unwrap();
    assert_eq!(name, "12-34-56-789_main_aaaaaaaa.md");
    assert_eq!(doc.reviews[0].status, ReviewerStatus::Finished);
    assert_eq!(doc.reviews[0].report_file.as_deref(), Some(name.as_str()));

    let err = finalize(&mut doc, "aaaaaaaa", &first, ReviewVerdict::Block, SeverityCounts::zero()).unwrap_err();
    assert!(matches!(err, ReviewError::Conflict(_)));
    assert_eq!(doc.reviews[0].report_file.as_deref(), Some(name.as_str()));
    assert_eq!(doc.reviews[0].verdict, Some(ReviewVerdict::Approve));
}

#[test]
fn register_mints_session_when_only_closed_entries_exist() {
    let mut doc = doc_with(vec![entry("deadbeef", "sess0001", ReviewerStatus::Finished, Some("r.md"))]);
    let sid = register_entry(&mut doc, "refs/heads/main", "cafebabe", None, None, NOW, "5e551033").unwrap();
    assert_eq!(sid, "5e551033");
    assert_eq!(doc.reviews[1].initiator_status, InitiatorStatus::Requesting);
}

#[test]
fn register_inherits_initiator_status_from_open_entry_of_same_session() {
    let mut open = entry("deadbeef", "sess0001", ReviewerStatus::InProgress, None);
    open.initiator_status = InitiatorStatus::Observing;
    let mut doc = doc_with(vec![open]);
    register_entry(&mut doc, "refs/heads/main", "cafebabe", Some("sess0001"), Some("deadbeef"), NOW, "ffff0000").unwrap();
    let e = &doc.reviews[1];
    assert_eq!(e.initiator_status, InitiatorStatus::Observing);
    assert_eq!(e.parent_id.as_deref(), Some("deadbeef"));
    assert_eq!(e.started_at, NOW);
    assert_eq!(e.updated_at, NOW);
}

#[test]
fn register_rejects_malformed_identifiers() {
    let mut doc = empty_doc();
    let err = register_entry(&mut doc, "main", "short", None, None, NOW, "ffff0000").unwrap_err();
    assert!(matches!(err, ReviewError::InvalidId(_)));
    assert!(err.message().contains("reviewer_id"));
    let err = register_entry(&mut doc, "main", "deadbeef", Some("sess-001"), None, NOW, "ffff0000").unwrap_err();
    assert!(err.message().contains("session_id"));
    let err = register_entry(&mut doc, "main", "deadbeef", None, Some("par/ent1"), NOW, "ffff0000").unwrap_err();
    assert!(err.message().contains("parent_id"));
    assert!(doc.reviews.is_empty());
    assert!(doc.reviewers.is_empty());
}

#[test]
fn update_applies_only_given_fields_and_clears_phase() {
    let mut doc = doc_with(vec![entry("deadbeef", "sess0001", ReviewerStatus::Initializing, None)]);
    update_entry(&mut doc, "deadbeef", "sess0001", Some(ReviewerStatus::InProgress), Some(Some(ReviewPhase::Ingestion)), NOW).unwrap();
    assert_eq!(doc.reviews[0].status, ReviewerStatus::InProgress);
    assert_eq!(doc.reviews[0].current_phase, Some(ReviewPhase::Ingestion));
    assert_eq!(doc.reviews[0].updated_at, NOW);
    update_entry(&mut doc, "deadbeef", "sess0001", None, Some(None), "2026-01-11T13:00:00Z").unwrap();
    assert_eq!(doc.reviews[0].status, ReviewerStatus::InProgress);
    assert_eq!(doc.reviews[0].current_phase, None);
    assert_eq!(doc.reviews[0].initiator_status, InitiatorStatus::Requesting);
}

#[test]
fn set_initiator_status_leaves_reviewer_fields() {
    let mut doc = doc_with(vec![entry("deadbeef", "sess0001", ReviewerStatus::Blocked, None)]);
    set_initiator_status_entry(&mut doc, "deadbeef", "sess0001", InitiatorStatus::Received, NOW, "lock0001").unwrap();
    assert_eq!(doc.reviews[0].initiator_status, InitiatorStatus::Received);
    assert_eq!(doc.reviews[0].status, ReviewerStatus::Blocked);
    assert_eq!(doc.reviews[0].updated_at, NOW);
}

#[test]
fn append_note_keeps_earlier_notes() {
    let mut e = entry("deadbeef", "sess0001", ReviewerStatus::InProgress, None);
    e.notes.push(SessionNote {
        role: NoteRole::Reviewer,
        timestamp: "2026-01-11T01:30:00Z".to_string(),
        note_type: NoteType::Question,
        content: "\"first\"".to_string(),
    });
    let mut doc = doc_with(vec![e]);
    append_note_entry(&mut doc, "deadbeef", "sess0001", NoteRole::Applicator, NoteType::Applied, "{\"key\":1}", NOW, "lock0001").unwrap();
    let notes = &doc.reviews[0].notes;
    assert_eq!(notes.len(), 2);
    assert_eq!(notes[0].content, "\"first\"");
    assert_eq!(notes[1].role, NoteRole::Applicator);
    assert_eq!(notes[1].note_type, NoteType::Applied);
    assert_eq!(notes[1].content, "{\"key\":1}");
    assert_eq!(notes[1].timestamp, NOW);
}

#[test]
fn timestamps_format_and_parse() {
    let t = Timestamp { unix_seconds: 0, nanosecond: 5_000_000, offset_seconds: 3600 };
    assert_eq!(t.to_rfc3339().unwrap(), "1970-01-01T01:00:00.005+01:00");
    assert_eq!(t.clock_prefix().unwrap(), "01-00-00-005");
    let p = Timestamp::parse_rfc3339("2026-01-11T12:34:56.789Z").unwrap();
    assert_eq!(p.nanosecond, 789_000_000);
    assert_eq!(p.offset_seconds, 0);
    assert_eq!(p.clock_prefix().unwrap(), "12-34-56-789");
    assert!(matches!(Timestamp::parse_rfc3339("not a time"), Err(ReviewError::Parse(_))));
    let odd_offset = Timestamp { unix_seconds: 0, nanosecond: 0, offset_seconds: 90 };
    assert!(matches!(odd_offset.to_rfc3339(), Err(ReviewError::Parse(_))));
    assert_eq!(odd_offset.clock_prefix().unwrap(), "00-01-30-000");
    let late = Timestamp { unix_seconds: 253402214400, nanosecond: 999_999_999, offset_seconds: 86340 };
    assert_eq!(late.to_rfc3339().unwrap(), "9999-12-31T23:59:00.999999999+23:59");
    assert_eq!(late.clock_prefix().unwrap(), "23-59-00-999");
}
