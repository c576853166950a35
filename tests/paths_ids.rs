use mpcr::text::sh_single_quote;
use mpcr::id::{hex_digit, hex_encode, random_hex_id, random_id8};
use mpcr::ids::validate_id8;
use mpcr::paths::{
    ensure_trailing_newline, join_path, lock_file_path, sanitize_ref, session_paths, strip_root,
    SessionDate, SessionLocator,
};

fn is_lower_hex(c: char) -> bool {
    matches!(c, '0'..='9' | 'a'..='f')
}

#[test]
fn mp_code_review_id8_is_8_lower_hex_chars() {
    let id = random_id8().unwrap();
    assert_eq!(id.len(), 8);
    assert!(id.chars().all(is_lower_hex));
}

#[test]
fn hex_digit_and_random_id_shape() {
    assert_eq!(hex_digit(0), b'0');
    assert_eq!(hex_digit(9), b'9');
    assert_eq!(hex_digit(10), b'a');
    assert_eq!(hex_digit(15), b'f');
    assert_eq!(hex_digit(16), b'0');
    let empty = random_hex_id(0).unwrap();
    assert_eq!(empty, "");
    let one = random_hex_id(1).unwrap();
    assert_eq!(one.len(), 2);
    assert!(one.chars().all(is_lower_hex));
    let id8 = random_id8().unwrap();
    assert_eq!(id8.len(), 8);
    assert!(id8.chars().all(is_lower_hex));
}

#[test]
fn hex_encode_exact() {
    assert_eq!(hex_encode(&vec![0x00, 0x7f, 0xa5, 0xff]), "007fa5ff");
    assert_eq!(hex_encode(&Vec::new()), "");
}

#[test]
fn session_paths_and_sanitize_ref() {
    let date = SessionDate::from_calendar_date(2026, 1, 11).unwrap();
    assert_eq!(date.text(), "2026-01-11");
    let paths = session_paths("/repo/root", &date);
    assert!(paths.session_dir.ends_with(".local/reports/code_reviews/2026-01-11"));
    assert_eq!(paths.session_dir, "/repo/root/.local/reports/code_reviews/2026-01-11");
    assert_eq!(paths.session_file, join_path(&paths.session_dir, "_session.json"));

    assert_eq!(sanitize_ref("refs/heads/main"), "refs_heads_main");
    assert_eq!(sanitize_ref("___"), "ref");
    assert_eq!(sanitize_ref("a.b-c_d"), "a.b-c_d");
    let long = "x".repeat(64 + 10);
    assert_eq!(sanitize_ref(&long).len(), 64);
}

#[test]
fn sanitize_ref_edge_cases() {
    assert_eq!(sanitize_ref("!@#$%^&*()"), "ref");
    assert_eq!(sanitize_ref(""), "ref");
    assert_eq!(sanitize_ref("/feature/x/"), "feature_x");
    assert_eq!(sanitize_ref("héllo wörld"), "h_llo_w_rld");
    let long = format!("__{}", "ab".repeat(40));
    assert_eq!(sanitize_ref(&long), "ab".repeat(32));
}

#[test]
fn invalid_session_date_is_refused() {
    assert!(SessionDate::from_calendar_date(2026, 13, 1).is_err());
    assert!(SessionDate::from_calendar_date(2026, 2, 30).is_err());
    assert_eq!(SessionDate::from_calendar_date(2024, 2, 29).unwrap().text(), "2024-02-29");
    assert!(SessionDate::from_calendar_date(1900, 2, 29).is_err());
    assert_eq!(SessionDate::from_calendar_date(2000, 2, 29).unwrap().text(), "2000-02-29");
    assert_eq!(SessionDate::from_calendar_date(-1, 1, 1).unwrap().text(), "-0001-01-01");
    assert_eq!(SessionDate::from_calendar_date(7, 12, 31).unwrap().text(), "0007-12-31");
    assert!(SessionDate::from_calendar_date(10000, 1, 1).is_err());
    assert!(SessionDate::from_calendar_date(2026, 4, 31).is_err());
    assert!(SessionDate::from_calendar_date(2026, 0, 1).is_err());
}

#[test]
fn locator_and_lock_paths() {
    let loc = SessionLocator::new("/s/dir".to_string());
    assert_eq!(loc.session_dir(), "/s/dir");
    assert_eq!(loc.session_file(), "/s/dir/_session.json");
    assert_eq!(lock_file_path("/s/dir/"), "/s/dir/_session.json.lock");
    assert_eq!(lock_file_path(""), "_session.json.lock");
    let date = SessionDate::from_calendar_date(2026, 1, 11).unwrap();
    assert_eq!(SessionLocator::from_repo_root("/r", &date).session_dir, "/r/.local/reports/code_reviews/2026-01-11");
}

#[test]
fn strip_root_relative_paths() {
    assert_eq!(strip_root("/repo", "/repo/.local/a.md").as_deref(), Some(".local/a.md"));
    assert_eq!(strip_root("/repo/", "/repo/a.md").as_deref(), Some("a.md"));
    assert_eq!(strip_root("/repo", "/repository/a.md"), None);
    assert_eq!(strip_root("/other", "/repo/a.md"), None);
    assert_eq!(strip_root("/", "/a/b").as_deref(), Some("a/b"));
}

#[test]
fn trailing_newline_added_once() {
    assert_eq!(ensure_trailing_newline("hello".to_string()), "hello\n");
    assert_eq!(ensure_trailing_newline("hello\n".to_string()), "hello\n");
    assert_eq!(ensure_trailing_newline(String::new()), "\n");
}

#[test]
fn id8_validation() {
    assert!(validate_id8("deadbeef", "reviewer_id").is_ok());
    assert!(validate_id8("DEAD0001", "reviewer_id").is_ok());
    let err = validate_id8("dead", "reviewer_id").unwrap_err();
    assert_eq!(err.message(), "reviewer_id must be 8 characters");
    let err = validate_id8("dead/eef", "lock_owner").unwrap_err();
    assert_eq!(err.message(), "lock_owner must be ASCII alphanumeric");
    assert!(validate_id8("déadbeef", "x").is_err());
}

#[test]
fn sh_single_quote_words() {
    assert_eq!(sh_single_quote(""), "''");
    assert_eq!(sh_single_quote("abc"), "'abc'");
    assert_eq!(sh_single_quote("it's"), "'it'\"'\"'s'");
}
