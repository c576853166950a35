//! Timestamps: the caller-supplied time of an operation, and its textual forms.
use vstd::prelude::*;
use crate::error::ReviewError;

verus! {

/// An instant with the UTC offset it is written in.
#[derive(Clone, Copy, Debug, PartialEq, Eq, Structural)]
pub struct Timestamp {
    /// Whole seconds since 1970-01-01T00:00:00Z.
    pub unix_seconds: i64,
    /// Nanoseconds past `unix_seconds`, below one billion.
    pub nanosecond: u32,
    /// Offset from UTC, in seconds.
    pub offset_seconds: i32,
}

/// The RFC 3339 text of an instant with an offset.
pub uninterp spec fn rfc3339_text(unix_seconds: int, nanosecond: int, offset_seconds: int) -> Seq<char>;

/// The instant and offset that an RFC 3339 text denotes, if it is one.
pub uninterp spec fn rfc3339_reading(text: Seq<char>) -> Option<(int, int, int)>;

/// A decimal digit.
pub open spec fn digit_char(d: int) -> char {
    seq!['0', '1', '2', '3', '4', '5', '6', '7', '8', '9'][d]
}

/// The last `width` decimal digits of `n`, padded with zeros.
pub open spec fn padded_digits(n: int, width: nat) -> Seq<char>
    decreases width,
{
    if width == 0 {
        Seq::empty()
    } else {
        padded_digits(n / 10, (width - 1) as nat).push(digit_char(n % 10))
    }
}

/// `HH-MM-SS-mmm`: the wall-clock time of an instant in its own offset, milliseconds truncated.
pub open spec fn clock_text(unix_seconds: int, nanosecond: int, offset_seconds: int) -> Seq<char> {
    let s = (unix_seconds + offset_seconds) % 86400;
    padded_digits(s / 3600, 2) + "-"@ + padded_digits(s % 3600 / 60, 2) + "-"@ + padded_digits(s % 60, 2)
        + "-"@ + padded_digits(nanosecond / 1_000_000, 3)
}

/// Whether the `time` crate can build the instant and write its wall-clock time: from
/// 1970-01-01T00:00:00Z up to 9999-12-31T00:00:00Z, a fraction below one second, and an
/// offset under a day (so that the local date stays within years 0 to 9999).
pub open spec fn clock_formattable(p: (int, int, int)) -> bool {
    0 <= p.0 <= 253402214400 && 0 <= p.1 < 1_000_000_000 && -86399 <= p.2 <= 86399
}

/// Whether RFC 3339 can also write the instant: as above, with an offset of whole minutes.
pub open spec fn rfc3339_formattable(p: (int, int, int)) -> bool {
    clock_formattable(p) && p.2 % 60 == 0
}

impl Timestamp {
    /// The plain values of this timestamp, as integers.
    pub open spec fn parts(self) -> (int, int, int) {
        (self.unix_seconds as int, self.nanosecond as int, self.offset_seconds as int)
    }
}

/// Relies on `time::OffsetDateTime::format` with `Rfc3339`; the instant is built with
/// `from_unix_timestamp`, `replace_nanosecond`, `UtcOffset::from_whole_seconds` and
/// `checked_to_offset`. `None` where one of them refuses the values. Within the range of
/// `rfc3339_formattable` none does: the timestamp, nanosecond and offset (at most 25:59:59)
/// are accepted, the local year stays within 0 to 9999, and `Rfc3339` refuses only years
/// outside that range, offsets of 24 hours or more, and offsets with a seconds part.
#[verifier::external_body]
fn format_rfc3339(t: &Timestamp) -> (r: Option<String>)
    ensures
        r matches Some(s) ==> s@ == rfc3339_text(t.parts().0, t.parts().1, t.parts().2),
        rfc3339_formattable(t.parts()) ==> r is Some,
{
    let offset = time::UtcOffset::from_whole_seconds(t.offset_seconds).ok()?;
    let at = time::OffsetDateTime::from_unix_timestamp(t.unix_seconds).ok()?;
    let at = at.replace_nanosecond(t.nanosecond).ok()?.checked_to_offset(offset)?;
    at.format(&time::format_description::well_known::Rfc3339).ok()
}

/// Relies on `time::OffsetDateTime::parse` with `Rfc3339`, read back with `unix_timestamp`,
/// `nanosecond` and `offset().whole_seconds()`.
#[verifier::external_body]
fn read_rfc3339(s: &str) -> (r: Option<Timestamp>)
    ensures
        rfc3339_reading(s@) == match r {
            Some(t) => Some(t.parts()),
            None => None,
        },
{
    let at = time::OffsetDateTime::parse(s, &time::format_description::well_known::Rfc3339).ok()?;
    Some(Timestamp {
        unix_seconds: at.unix_timestamp(),
        nanosecond: at.nanosecond(),
        offset_seconds: at.offset().whole_seconds(),
    })
}

/// Relies on `time::OffsetDateTime::format` with the description
/// `[hour]-[minute]-[second]-[subsecond digits:3]` (from `format_description::parse`): the
/// wall-clock time in the instant's own offset, two digits each, and the first three digits
/// of the fraction. The instant is built as in `format_rfc3339`, and within the range of
/// `clock_formattable` it is built; writing these components does not fail.
#[verifier::external_body]
fn format_clock(t: &Timestamp) -> (r: Option<String>)
    ensures
        r matches Some(s) ==> s@ == clock_text(t.parts().0, t.parts().1, t.parts().2),
        clock_formattable(t.parts()) ==> r is Some,
{
    let items = time::format_description::parse("[hour]-[minute]-[second]-[subsecond digits:3]").ok()?;
    let offset = time::UtcOffset::from_whole_seconds(t.offset_seconds).ok()?;
    let at = time::OffsetDateTime::from_unix_timestamp(t.unix_seconds).ok()?;
    let at = at.replace_nanosecond(t.nanosecond).ok()?.checked_to_offset(offset)?;
    at.format(&items).ok()
}

impl Timestamp {
    /// The RFC 3339 text of this timestamp, as stored in the session document.
    pub fn to_rfc3339(&self) -> (r: Result<String, ReviewError>)
        ensures
            r matches Ok(s) ==> s@ == rfc3339_text(self.parts().0, self.parts().1, self.parts().2),
            r matches Err(e) ==> e is Parse,
            rfc3339_formattable(self.parts()) ==> r is Ok,
    {
        match format_rfc3339(self) {
            Some(s) => Ok(s),
            None => Err(ReviewError::Parse("format RFC3339 timestamp".to_owned())),
        }
    }

    /// Reads an RFC 3339 text.
    pub fn parse_rfc3339(s: &str) -> (r: Result<Timestamp, ReviewError>)
        ensures
            match r {
                Ok(t) => rfc3339_reading(s@) == Some(t.parts()),
                Err(e) => e is Parse && rfc3339_reading(s@) is None,
            },
    {
        match read_rfc3339(s) {
            Some(t) => Ok(t),
            None => Err(ReviewError::Parse("parse RFC3339 timestamp".to_owned())),
        }
    }

    /// `HH-MM-SS-mmm` for this timestamp, in its own offset.
    pub fn clock_prefix(&self) -> (r: Result<String, ReviewError>)
        ensures
            r matches Ok(s) ==> s@ == clock_text(self.parts().0, self.parts().1, self.parts().2),
            r matches Err(e) ==> e is Parse,
            clock_formattable(self.parts()) ==> r is Ok,
    {
        match format_clock(self) {
            Some(s) => Ok(s),
            None => Err(ReviewError::Parse("format report time prefix".to_owned())),
        }
    }
}

} // verus!
