use mpcr::lock::{release_allowed, trim_end, CreateOutcome, LockBackoff, LockConfig, LockStep};
use mpcr::model::{ReviewEntry, SessionFile, SeverityCounts};
use mpcr::names::{InitiatorStatus, ReviewVerdict, ReviewerStatus};
use mpcr::wait::{has_pending, wait_step, WaitStep};

#[test]
fn mp_code_review_lock_acquire_blocks_until_timeout_then_release() {
    let cfg = LockConfig { max_retries: 0 };
    assert_eq!(LockBackoff::start().after_attempt(cfg, CreateOutcome::Created), LockStep::Acquired);
    assert_eq!(LockBackoff::start().after_attempt(cfg, CreateOutcome::AlreadyExists), LockStep::TimedOut);
    assert!(!release_allowed("deadbeef\n", "cafebabe"));
    assert!(release_allowed("deadbeef\n", "deadbeef"));
    assert_eq!(LockBackoff::start().after_attempt(cfg, CreateOutcome::Created), LockStep::Acquired);
}

#[test]
fn release_lock_handles_missing_and_mismatch() {
    assert!(!release_allowed("owner-a\n", "owner-b"));
    assert!(release_allowed("owner-a\n", "owner-a"));
    assert!(release_allowed("owner-a \t\r\n", "owner-a"));
    assert!(!release_allowed("", "owner-a"));
    assert_eq!(trim_end("abc \u{3000}\n"), "abc");
}

#[test]
fn lock_backoff_doubles_and_caps() {
    let cfg = LockConfig::default();
    assert_eq!(cfg.max_retries, 8);
    let mut b = LockBackoff::start();
    let mut sleeps = Vec::new();
    loop {
        match b.after_attempt(cfg, CreateOutcome::AlreadyExists) {
            LockStep::Retry { sleep_ms, next } => {
                sleeps.push(sleep_ms);
                b = next;
            }
            LockStep::TimedOut => break,
            other => panic!("unexpected step {other:?}"),
        }
    }
    assert_eq!(sleeps, vec![100, 200, 400, 800, 1600, 3200, 6400, 6400]);
    assert_eq!(b.after_attempt(cfg, CreateOutcome::Failed), LockStep::Fatal);
}

fn entry(target_ref: &str, session_id: &str, status: ReviewerStatus) -> ReviewEntry {
    ReviewEntry {
        reviewer_id: "deadbeef".to_string(),
        session_id: session_id.to_string(),
        target_ref: target_ref.to_string(),
        initiator_status: InitiatorStatus::Received,
        status,
        parent_id: None,
        started_at: "2026-01-11T00:00:00Z".to_string(),
        updated_at: "2026-01-11T01:00:00Z".to_string(),
        finished_at: None,
        current_phase: None,
        verdict: Some(ReviewVerdict::Approve),
        counts: SeverityCounts::zero(),
        report_file: Some("report.md".to_string()),
        notes: Vec::new(),
    }
}

#[test]
fn main_wait_for_reviews_returns_when_terminal() {
    let mut doc = SessionFile::new_document("2026-01-11", "/repo");
    doc.reviews.push(entry("refs/heads/main", "sess0001", ReviewerStatus::Finished));
    assert_eq!(wait_step(Some(&doc), None, None, 1000), WaitStep::Done);
}

#[test]
fn wait_blocks_on_open_entry_and_backs_off() {
    let mut doc = SessionFile::new_document("2026-01-11", "/repo");
    doc.reviews.push(entry("refs/heads/main", "sess0001", ReviewerStatus::Finished));
    doc.reviews.push(entry("refs/heads/dev", "sess0002", ReviewerStatus::InProgress));
    assert_eq!(wait_step(Some(&doc), None, None, 1000), WaitStep::Sleep { sleep_ms: 1000, next_delay_ms: 2000 });
    assert_eq!(wait_step(Some(&doc), None, None, 40000), WaitStep::Sleep { sleep_ms: 40000, next_delay_ms: 60000 });
    assert_eq!(wait_step(Some(&doc), Some("refs/heads/main"), None, 1000), WaitStep::Done);
    assert!(has_pending(&doc, Some("refs/heads/dev"), Some("sess0002")));
    assert!(!has_pending(&doc, Some("refs/heads/dev"), Some("sess0001")));
    doc.reviews[1].status = ReviewerStatus::Cancelled;
    assert_eq!(wait_step(Some(&doc), None, None, 1000), WaitStep::Done);
}

#[test]
fn wait_without_document() {
    assert_eq!(wait_step(None, None, None, 1000), WaitStep::Done);
    assert_eq!(wait_step(None, Some("main"), None, 1000), WaitStep::Sleep { sleep_ms: 1000, next_delay_ms: 2000 });
    assert_eq!(wait_step(None, None, Some("sess0001"), 60000), WaitStep::Sleep { sleep_ms: 60000, next_delay_ms: 60000 });
}

