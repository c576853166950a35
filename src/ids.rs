//! Validation of the 8-character identifiers.
use vstd::prelude::*;
use vstd::string::*;
use crate::error::ReviewError;
use crate::text::{all_ascii_alnum, chars_of, is_ascii_alnum};

verus! {

/// Whether `s` is a well-formed identifier: exactly 8 ASCII letters or digits.
pub open spec fn valid_id8(s: Seq<char>) -> bool {
    s.len() == 8 && forall|i: int| 0 <= i < s.len() ==> is_ascii_alnum(#[trigger] s[i])
}

/// The message refusing the malformed identifier `id`, named `label`.
pub open spec fn id8_message(id: Seq<char>, label: Seq<char>) -> Seq<char> {
    if id.len() != 8 {
        label + " must be 8 characters"@
    } else {
        label + " must be ASCII alphanumeric"@
    }
}

/// The message refusing `id` (named `label`) where it is malformed, else `rest`: checks run in
/// order, and the first failing one decides.
pub open spec fn id_check(id: Seq<char>, label: Seq<char>, rest: Option<Seq<char>>) -> Option<Seq<char>> {
    if valid_id8(id) {
        rest
    } else {
        Some(id8_message(id, label))
    }
}

/// The same check of an optional identifier; an absent one passes.
pub open spec fn opt_id_check(id: Option<Seq<char>>, label: Seq<char>, rest: Option<Seq<char>>) -> Option<Seq<char>> {
    match id {
        Some(s) => id_check(s, label, rest),
        None => rest,
    }
}

/// Checks that `id8` is a well-formed identifier; `label` names it in the error.
pub fn validate_id8(id8: &str, label: &str) -> (r: Result<(), ReviewError>)
    ensures
        r is Ok <==> valid_id8(id8@),
        r is Err ==> (r matches Err(ReviewError::InvalidId(m)) && m@ == id8_message(id8@, label@)),
{
    let chars = chars_of(id8);
    if chars.len() != 8 {
        return Err(ReviewError::InvalidId(label.to_owned().concat(" must be 8 characters")));
    }
    if !all_ascii_alnum(id8) {
        return Err(ReviewError::InvalidId(label.to_owned().concat(" must be ASCII alphanumeric")));
    }
    Ok(())
}

/// Checks an optional identifier; an absent one is accepted.
pub fn validate_opt_id8(id8: Option<&str>, label: &str) -> (r: Result<(), ReviewError>)
    ensures
        r is Ok <==> (id8 matches Some(s) ==> valid_id8(s@)),
        r is Err ==> (id8 matches Some(s) && (r matches Err(ReviewError::InvalidId(m)) && m@ == id8_message(s@, label@))),
{
    match id8 {
        Some(s) => validate_id8(s, label),
        None => Ok(()),
    }
}

} // verus!
