//! Random hexadecimal identifiers.
use vstd::prelude::*;
use crate::error::ReviewError;
use crate::text::push_char;

verus! {

#[verifier::external_type_specification]
#[verifier::external_body]
pub struct ExRandError(rand::Error);

/// The lower-case hexadecimal digit of a nibble; `'0'` for a value above 15.
pub open spec fn hex_digit_spec(nibble: u8) -> u8 {
    if nibble <= 9 {
        (48 + nibble) as u8
    } else if nibble <= 15 {
        (97 + nibble - 10) as u8
    } else {
        48
    }
}

/// The lower-case hexadecimal digit of a nibble; `'0'` for a value above 15.
pub fn hex_digit(nibble: u8) -> (r: u8)
    ensures
        r == hex_digit_spec(nibble),
{
    if nibble <= 9 {
        48u8 + nibble
    } else if nibble <= 15 {
        97u8 + (nibble - 10)
    } else {
        48u8
    }
}

/// Whether `c` is a lower-case hexadecimal digit.
pub open spec fn is_lower_hex(c: char) -> bool {
    ('0' <= c && c <= '9') || ('a' <= c && c <= 'f')
}

/// Two lower-case hexadecimal digits per byte, high nibble first.
pub open spec fn hex_text(bytes: Seq<u8>) -> Seq<char> {
    Seq::new(
        2 * bytes.len(),
        |k: int|
            if k % 2 == 0 {
                hex_digit_spec(bytes[k / 2] / 16) as char
            } else {
                hex_digit_spec(bytes[k / 2] % 16) as char
            },
    )
}

/// Encodes bytes as lower-case hexadecimal, two digits per byte.
pub fn hex_encode(bytes: &Vec<u8>) -> (r: String)
    requires
        bytes@.len() <= usize::MAX / 2,
    ensures
        r@ == hex_text(bytes@),
        forall|i: int| 0 <= i < r@.len() ==> is_lower_hex(#[trigger] r@[i]),
{
    let mut out = String::new();
    let mut i: usize = 0;
    while i < bytes.len()
        invariant
            i <= bytes@.len(),
            out@ =~= hex_text(bytes@.take(i as int)),
        decreases bytes@.len() - i,
    {
        let b = bytes[i];
        push_char(&mut out, hex_digit(b >> 4) as char);
        push_char(&mut out, hex_digit(b & 0x0f) as char);
        proof {
            assert(b >> 4 == b / 16) by (bit_vector);
            assert(b & 0x0f == b % 16) by (bit_vector);
            assert(bytes@.take(i as int + 1).drop_last() =~= bytes@.take(i as int));
        }
        i = i + 1;
        assert(out@ =~= hex_text(bytes@.take(i as int)));
    }
    assert(bytes@.take(i as int) =~= bytes@);
    out
}

/// Relies on `rand::rngs::OsRng` through `RngCore::try_fill_bytes`: `n` bytes from the
/// operating system's randomness source, or its error.
#[verifier::external_body]
fn random_bytes(n: usize) -> (r: Result<Vec<u8>, rand::Error>)
    ensures
        r matches Ok(v) ==> v@.len() == n,
{
    let mut raw = vec![0u8; n];
    rand::RngCore::try_fill_bytes(&mut rand::rngs::OsRng, &mut raw)?;
    Ok(raw)
}

/// A random identifier of `2 * bytes` lower-case hexadecimal digits.
pub fn random_hex_id(bytes: usize) -> (r: Result<String, ReviewError>)
    requires
        bytes <= usize::MAX / 2,
    ensures
        r matches Ok(s) ==> s@.len() == 2 * bytes && (exists|raw: Seq<u8>| raw.len() == bytes && s@ == hex_text(raw))
            && forall|i: int| 0 <= i < s@.len() ==> is_lower_hex(#[trigger] s@[i]),
        r matches Err(e) ==> e is Io,
{
    match random_bytes(bytes) {
        Ok(raw) => Ok(hex_encode(&raw)),
        Err(_) => Err(ReviewError::Io("read OS randomness".to_owned())),
    }
}

/// A random 8-character identifier of lower-case hexadecimal digits.
pub fn random_id8() -> (r: Result<String, ReviewError>)
    ensures
        r matches Ok(s) ==> s@.len() == 8 && forall|i: int| 0 <= i < s@.len() ==> is_lower_hex(#[trigger] s@[i]),
        r matches Err(e) ==> e is Io,
{
    random_hex_id(4)
}

} // verus!
