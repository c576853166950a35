//! Names of the files kept in a session directory, and of report files.
use vstd::prelude::*;
use vstd::string::*;
use crate::clock::{clock_formattable, clock_text, padded_digits, Timestamp};
use crate::error::ReviewError;
use crate::text::{chars_of, is_ascii_alnum, push_char, string_from_range};

verus! {

/// Longest sanitized target ref kept in a report file name.
pub const MAX_REF_LEN: usize = 64;

/// What a target-ref character becomes in a file name.
pub open spec fn sanitize_char(c: char) -> char {
    if is_ascii_alnum(c) || c == '.' || c == '-' || c == '_' {
        c
    } else {
        '_'
    }
}

/// Every character of `s`, sanitized.
pub open spec fn sanitized_chars(s: Seq<char>) -> Seq<char> {
    s.map_values(|c: char| sanitize_char(c))
}

/// `s` without its leading underscores.
pub open spec fn trim_leading_underscores(s: Seq<char>) -> Seq<char>
    decreases s.len(),
{
    if s.len() > 0 && s[0] == '_' {
        trim_leading_underscores(s.drop_first())
    } else {
        s
    }
}

/// `s` without its trailing underscores.
pub open spec fn trim_trailing_underscores(s: Seq<char>) -> Seq<char>
    decreases s.len(),
{
    if s.len() > 0 && s.last() == '_' {
        trim_trailing_underscores(s.drop_last())
    } else {
        s
    }
}

/// The file-name form of a target ref: sanitized, trimmed of underscores on both ends,
/// `"ref"` where nothing is left, and at most `MAX_REF_LEN` characters.
pub open spec fn sanitized_ref(s: Seq<char>) -> Seq<char> {
    let t = trim_trailing_underscores(trim_leading_underscores(sanitized_chars(s)));
    if t.len() == 0 {
        "ref"@
    } else if t.len() > MAX_REF_LEN {
        t.take(MAX_REF_LEN as int)
    } else {
        t
    }
}

proof fn lemma_trim_leading_step(m: Seq<char>, lo: int)
    requires
        0 <= lo < m.len(),
        m[lo] == '_',
    ensures
        trim_leading_underscores(m.subrange(lo, m.len() as int))
            == trim_leading_underscores(m.subrange(lo + 1, m.len() as int)),
{
    let sub = m.subrange(lo, m.len() as int);
    assert(sub.drop_first() =~= m.subrange(lo + 1, m.len() as int));
}

proof fn lemma_trim_trailing_step(m: Seq<char>, lo: int, hi: int)
    requires
        0 <= lo < hi <= m.len(),
        m[hi - 1] == '_',
    ensures
        trim_trailing_underscores(m.subrange(lo, hi))
            == trim_trailing_underscores(m.subrange(lo, hi - 1)),
{
    let sub = m.subrange(lo, hi);
    assert(sub.drop_last() =~= m.subrange(lo, hi - 1));
}

/// Sanitize a target ref for use in file names.
///
/// ASCII letters and digits and `.`, `-`, `_` are kept; every other character becomes `_`.
/// Underscores are then trimmed from both ends, an empty result becomes `"ref"`, and the
/// result is capped to `MAX_REF_LEN` characters.
pub fn sanitize_ref(input: &str) -> (r: String)
    ensures
        r@ == sanitized_ref(input@),
        r@.len() <= MAX_REF_LEN,
        r@.len() > 0,
        (forall|i: int| 0 <= i < input@.len() ==> sanitize_char(#[trigger] input@[i]) == '_')
            ==> r@ == "ref"@,
        forall|i: int| 0 <= i < r@.len() ==> sanitize_char(#[trigger] r@[i]) == r@[i],
{
    let chars = chars_of(input);
    let mut m: Vec<char> = Vec::new();
    let mut k: usize = 0;
    while k < chars.len()
        invariant
            chars@ == input@,
            k <= chars@.len(),
            m@ == sanitized_chars(input@).take(k as int),
        decreases chars@.len() - k,
    {
        let c = chars[k];
        let kept = (('a' <= c && c <= 'z') || ('A' <= c && c <= 'Z') || ('0' <= c && c <= '9'))
            || c == '.' || c == '-' || c == '_';
        if kept {
            m.push(c);
        } else {
            m.push('_');
        }
        k = k + 1;
        assert(m@ =~= sanitized_chars(input@).take(k as int));
    }
    assert(m@ =~= sanitized_chars(input@));
    let ghost ms = m@;

    let mut lo: usize = 0;
    while lo < m.len() && m[lo] == '_'
        invariant
            m@ == ms,
            lo <= ms.len(),
            trim_leading_underscores(ms) == trim_leading_underscores(ms.subrange(lo as int, ms.len() as int)),
            forall|j: int| 0 <= j < lo ==> ms[j] == '_',
        decreases ms.len() - lo,
    {
        proof {
            lemma_trim_leading_step(ms, lo as int);
        }
        lo = lo + 1;
    }
    proof {
        assert(ms.subrange(0, ms.len() as int) =~= ms);
        let sub = ms.subrange(lo as int, ms.len() as int);
        assert(trim_leading_underscores(sub) == sub);
    }

    let mut hi: usize = m.len();
    while hi > lo && m[hi - 1] == '_'
        invariant
            m@ == ms,
            lo <= hi <= ms.len(),
            trim_leading_underscores(ms) == ms.subrange(lo as int, ms.len() as int),
            trim_trailing_underscores(ms.subrange(lo as int, ms.len() as int))
                == trim_trailing_underscores(ms.subrange(lo as int, hi as int)),
            lo < ms.len() ==> ms[lo as int] != '_',
            forall|j: int| hi <= j < ms.len() ==> ms[j] == '_',
        decreases hi - lo,
    {
        proof {
            lemma_trim_trailing_step(ms, lo as int, hi as int);
        }
        hi = hi - 1;
    }
    let ghost t = ms.subrange(lo as int, hi as int);
    proof {
        assert(trim_trailing_underscores(t) == t);
        assert(forall|i: int| 0 <= i < ms.len() ==> sanitize_char(#[trigger] ms[i]) == ms[i]);
    }

    if lo == hi {
        proof {
            reveal_strlit("ref");
        }
        return "ref".to_owned();
    }
    let end: usize = if hi - lo > MAX_REF_LEN { lo + MAX_REF_LEN } else { hi };
    let r = string_from_range(&m, lo, end);
    proof {
        if hi - lo > MAX_REF_LEN {
            assert(r@ =~= t.take(MAX_REF_LEN as int));
        } else {
            assert(r@ =~= t);
        }
        if forall|i: int| 0 <= i < input@.len() ==> sanitize_char(#[trigger] input@[i]) == '_' {
            assert(ms[lo as int] == sanitize_char(input@[lo as int]));
        }
    }
    r
}


/// The name of the report file of a review: `{HH-MM-SS-mmm}_{sanitized ref}_{agent id}.md`.
pub open spec fn report_name_text(clock: Seq<char>, target_ref: Seq<char>, reviewer_id: Seq<char>) -> Seq<char> {
    clock + "_"@ + sanitized_ref(target_ref) + "_"@ + reviewer_id + ".md"@
}

/// The report file name for a review registered at `started_at`.
pub fn report_file_name(started_at: &Timestamp, target_ref: &str, reviewer_id: &str) -> (r: Result<String, ReviewError>)
    ensures
        r matches Ok(s) ==> s@ == report_name_text(
            clock_text(started_at.parts().0, started_at.parts().1, started_at.parts().2),
            target_ref@,
            reviewer_id@,
        ),
        r matches Err(e) ==> e is Parse,
        clock_formattable(started_at.parts()) ==> r is Ok,
{
    let prefix = started_at.clock_prefix()?;
    let sanitized = sanitize_ref(target_ref);
    Ok(prefix.concat("_").concat(sanitized.as_str()).concat("_").concat(reviewer_id).concat(".md"))
}

/// `report` with a line feed appended unless it ends with one.
pub open spec fn with_final_newline(report: Seq<char>) -> Seq<char> {
    if report.len() > 0 && report.last() == '\n' {
        report
    } else {
        report.push('\n')
    }
}

/// Ends the report body with a line feed.
pub fn ensure_trailing_newline(report: String) -> (r: String)
    ensures
        r@ == with_final_newline(report@),
{
    let chars = chars_of(report.as_str());
    if chars.len() > 0 && chars[chars.len() - 1] == '\n' {
        report
    } else {
        let mut out = report;
        push_char(&mut out, '\n');
        out
    }
}


/// `tail` below the directory `base`, joined with `/`.
pub open spec fn joined(base: Seq<char>, tail: Seq<char>) -> Seq<char> {
    if base.len() == 0 {
        tail
    } else if base.last() == '/' {
        base + tail
    } else {
        base + "/"@ + tail
    }
}

/// Joins `tail` below the directory `base` with `/`.
pub fn join_path(base: &str, tail: &str) -> (r: String)
    ensures
        r@ == joined(base@, tail@),
{
    let chars = chars_of(base);
    if chars.len() == 0 {
        tail.to_owned()
    } else if chars[chars.len() - 1] == '/' {
        base.to_owned().concat(tail)
    } else {
        base.to_owned().concat("/").concat(tail)
    }
}

/// Path of the lock marker in `session_dir`.
pub fn lock_file_path(session_dir: &str) -> (r: String)
    ensures
        r@ == joined(session_dir@, "_session.json.lock"@),
{
    join_path(session_dir, "_session.json.lock")
}

/// Path of the session document in `session_dir`.
pub fn session_file_path(session_dir: &str) -> (r: String)
    ensures
        r@ == joined(session_dir@, "_session.json"@),
{
    join_path(session_dir, "_session.json")
}

/// Path of a writer's temporary copy of the session document, scoped by its owner token.
pub fn temp_session_file_path(session_dir: &str, owner: &str) -> (r: String)
    ensures
        r@ == joined(session_dir@, "_session.json.tmp."@ + owner@),
{
    join_path(session_dir, "_session.json.tmp.".to_owned().concat(owner).as_str())
}

/// Where a session directory is found.
#[derive(Clone, Debug)]
pub struct SessionLocator {
    /// Path of the session directory.
    pub session_dir: String,
}

impl SessionLocator {
    /// A locator for the session directory `session_dir`.
    pub fn new(session_dir: String) -> (r: SessionLocator)
        ensures
            r.session_dir == session_dir,
    {
        SessionLocator { session_dir }
    }

    /// The session directory.
    pub fn session_dir(&self) -> (r: &str)
        ensures
            r@ == self.session_dir@,
    {
        self.session_dir.as_str()
    }

    /// Path of the session document in the session directory.
    pub fn session_file(&self) -> (r: String)
        ensures
            r@ == joined(self.session_dir@, "_session.json"@),
    {
        session_file_path(self.session_dir.as_str())
    }
}

/// Whether `s` holds the character `c`.
pub open spec fn holds_char(s: Seq<char>, c: char) -> bool {
    exists|i: int| 0 <= i < s.len() && s[i] == c
}

/// Where a recorded report file is: an absolute path is taken as it is, a path with a
/// directory part is below the repository root, and a bare name is in the session directory.
pub open spec fn report_location(repo_root: Seq<char>, session_dir: Seq<char>, report_file: Seq<char>) -> Seq<char> {
    if report_file.len() > 0 && report_file[0] == '/' {
        report_file
    } else if holds_char(report_file, '/') {
        joined(repo_root, report_file)
    } else {
        joined(session_dir, report_file)
    }
}

fn has_slash(s: &str) -> (r: bool)
    ensures
        r == holds_char(s@, '/'),
{
    let chars = chars_of(s);
    let mut i: usize = 0;
    while i < chars.len()
        invariant
            chars@ == s@,
            i <= chars@.len(),
            forall|j: int| 0 <= j < i ==> chars@[j] != '/',
        decreases chars@.len() - i,
    {
        if chars[i] == '/' {
            return true;
        }
        i = i + 1;
    }
    false
}

/// Resolves a recorded report file to the path where it is read.
pub fn resolve_report_file_path(repo_root: &str, session_dir: &str, report_file: &str) -> (r: String)
    ensures
        r@ == report_location(repo_root@, session_dir@, report_file@),
{
    let chars = chars_of(report_file);
    if chars.len() > 0 && chars[0] == '/' {
        report_file.to_owned()
    } else if has_slash(report_file) {
        join_path(repo_root, report_file)
    } else {
        join_path(session_dir, report_file)
    }
}

/// `root` without trailing slashes, unless it is only slashes.
pub open spec fn without_trailing_slashes(root: Seq<char>) -> Seq<char>
    decreases root.len(),
{
    if root.len() > 1 && root.last() == '/' {
        without_trailing_slashes(root.drop_last())
    } else {
        root
    }
}

/// `path` relative to `root`, where `path` is `root` itself or lies below it.
pub open spec fn relative_to(root: Seq<char>, path: Seq<char>) -> Option<Seq<char>> {
    let r = without_trailing_slashes(root);
    if path == r {
        Some(Seq::empty())
    } else if r.len() > 0 && r.last() == '/' && path.len() > r.len() && path.take(r.len() as int) == r {
        Some(path.skip(r.len() as int))
    } else if path.len() > r.len() && path.take(r.len() as int) == r && path[r.len() as int] == '/' {
        Some(path.skip(r.len() as int + 1))
    } else {
        None
    }
}

/// `path` relative to `root`, or `None` where `path` is not below `root`.
pub fn strip_root(root: &str, path: &str) -> (r: Option<String>)
    ensures
        opt_seq(r) == relative_to(root@, path@),
{
    let rc = chars_of(root);
    let pc = chars_of(path);
    let mut n: usize = rc.len();
    assert(rc@.take(n as int) =~= rc@);
    while n > 1 && rc[n - 1] == '/'
        invariant
            rc@ == root@,
            1 <= n <= rc@.len() || (n == 0 && rc@.len() == 0),
            without_trailing_slashes(root@) == without_trailing_slashes(rc@.take(n as int)),
        decreases n,
    {
        proof {
            assert(rc@.take(n as int).drop_last() =~= rc@.take(n - 1));
        }
        n = n - 1;
    }
    let ghost r = rc@.take(n as int);
    assert(without_trailing_slashes(r) == r);
    // Does `path` start with `r`?
    if pc.len() < n {
        assert(pc@ != r);
        return None;
    }
    let mut i: usize = 0;
    while i < n
        invariant
            rc@ == root@,
            pc@ == path@,
            n <= pc@.len(),
            n <= rc@.len(),
            r == rc@.take(n as int),
            without_trailing_slashes(root@) == r,
            i <= n,
            forall|j: int| 0 <= j < i ==> pc@[j] == rc@[j],
        decreases n - i,
    {
        if pc[i] != rc[i] {
            assert(pc@[i as int] != r[i as int]);
            assert(pc@.take(n as int)[i as int] == pc@[i as int]);
            assert(pc@.take(n as int) != r);
            assert(pc@ != r);
            return None;
        }
        i = i + 1;
    }
    assert(pc@.take(n as int) =~= r);
    if pc.len() == n {
        assert(pc@ =~= r);
        return Some(String::new());
    }
    if n > 0 && rc[n - 1] == '/' {
        return Some(string_from_range(&pc, n, pc.len()));
    }
    if pc[n] == '/' {
        return Some(string_from_range(&pc, n + 1, pc.len()));
    }
    None
}

/// The text of an optional string.
pub open spec fn opt_seq(s: Option<String>) -> Option<Seq<char>> {
    match s {
        Some(t) => Some(t@),
        None => None,
    }
}


/// Whether `year` is a leap year of the Gregorian calendar.
pub open spec fn is_leap_year(year: int) -> bool {
    year % 4 == 0 && (year % 100 != 0 || year % 400 == 0)
}

/// Number of days of `month` in `year`.
pub open spec fn days_in_month(year: int, month: int) -> int {
    if month == 2 {
        if is_leap_year(year) {
            29
        } else {
            28
        }
    } else if month == 4 || month == 6 || month == 9 || month == 11 {
        30
    } else {
        31
    }
}

/// Whether `year-month-day` is a date that `time::Date` holds (years -9999 to 9999).
pub open spec fn valid_calendar_date(year: int, month: int, day: int) -> bool {
    -9999 <= year <= 9999 && 1 <= month <= 12 && 1 <= day <= days_in_month(year, month)
}

/// The text of a date: the year in four digits (with `-` before a negative one), then the
/// month and the day in two digits each, separated by `-`.
pub open spec fn date_text(year: int, month: int, day: int) -> Seq<char> {
    let y = if year < 0 {
        "-"@ + padded_digits(-year, 4)
    } else {
        padded_digits(year, 4)
    };
    y + "-"@ + padded_digits(month, 2) + "-"@ + padded_digits(day, 2)
}

/// Relies on `time::Date::from_calendar_date` (with `Month::try_from`) to check the date, and
/// on the `Display` of `time::Date` for its text (zero-padded, a sign only before a negative
/// year). `None` exactly where the date does not exist in the proleptic Gregorian calendar or
/// its year is outside -9999 to 9999.
#[verifier::external_body]
fn calendar_date_text(year: i32, month: u8, day: u8) -> (r: Option<String>)
    ensures
        r matches Some(s) ==> s@ == date_text(year as int, month as int, day as int),
        r is Some <==> valid_calendar_date(year as int, month as int, day as int),
{
    let month = time::Month::try_from(month).ok()?;
    let date = time::Date::from_calendar_date(year, month, day).ok()?;
    Some(date.to_string())
}

/// A calendar date that exists, with its `YYYY-MM-DD` text.
#[derive(Clone, Debug)]
pub struct SessionDate {
    year: i32,
    month: u8,
    day: u8,
    text: String,
}

impl SessionDate {
    /// Whether the text is that of the date.
    pub closed spec fn wf(&self) -> bool {
        self.text@ == date_text(self.year as int, self.month as int, self.day as int)
    }

    /// The `YYYY-MM-DD` text of the date.
    pub closed spec fn text_of(&self) -> Seq<char> {
        self.text@
    }

    /// The date `year-month-day`, where it exists.
    pub fn from_calendar_date(year: i32, month: u8, day: u8) -> (r: Result<SessionDate, ReviewError>)
        ensures
            r matches Ok(d) ==> d.wf() && d.text_of() == date_text(year as int, month as int, day as int),
            r matches Err(e) ==> e is Parse,
            r is Ok <==> valid_calendar_date(year as int, month as int, day as int),
    {
        match calendar_date_text(year, month, day) {
            Some(text) => Ok(SessionDate { year, month, day, text }),
            None => Err(ReviewError::Parse("invalid calendar date".to_owned())),
        }
    }

    /// The `YYYY-MM-DD` text of the date.
    pub fn text(&self) -> (r: &str)
        ensures
            r@ == self.text_of(),
    {
        self.text.as_str()
    }
}

/// The session directory of a date below a repository root.
pub open spec fn session_dir_of(repo_root: Seq<char>, date: Seq<char>) -> Seq<char> {
    joined(joined(joined(joined(repo_root, ".local"@), "reports"@), "code_reviews"@), date)
}

/// The session directory and document of a date.
#[derive(Clone, Debug)]
pub struct SessionPaths {
    /// `{repo_root}/.local/reports/code_reviews/{YYYY-MM-DD}`.
    pub session_dir: String,
    /// The session document in it.
    pub session_file: String,
}

/// The session directory and document for `session_date` below `repo_root`.
pub fn session_paths(repo_root: &str, session_date: &SessionDate) -> (r: SessionPaths)
    ensures
        r.session_dir@ == session_dir_of(repo_root@, session_date.text_of()),
        r.session_file@ == joined(r.session_dir@, "_session.json"@),
{
    let local = join_path(repo_root, ".local");
    let reports = join_path(local.as_str(), "reports");
    let reviews = join_path(reports.as_str(), "code_reviews");
    let session_dir = join_path(reviews.as_str(), session_date.text());
    let session_file = session_file_path(session_dir.as_str());
    SessionPaths { session_dir, session_file }
}

impl SessionLocator {
    /// The locator of the session directory of `session_date` below `repo_root`.
    pub fn from_repo_root(repo_root: &str, session_date: &SessionDate) -> (r: SessionLocator)
        ensures
            r.session_dir@ == session_dir_of(repo_root@, session_date.text_of()),
    {
        let p = session_paths(repo_root, session_date);
        SessionLocator { session_dir: p.session_dir }
    }
}

} // verus!
