//! What this crate takes on trust: the calls that leave it, each with the
//! statement that the proofs rest on.

use std::fmt::Write;
use vstd::prelude::*;

verus! {

/// Whether percent-encoding leaves the byte `b` as it is: the letters and
/// digits of ASCII, and `-`, `.`, `_` and `~`.
pub open spec fn is_unreserved(b: u8) -> bool {
    ||| 0x30 <= b <= 0x39
    ||| 0x41 <= b <= 0x5A
    ||| 0x61 <= b <= 0x7A
    ||| b == 0x2D
    ||| b == 0x2E
    ||| b == 0x5F
    ||| b == 0x7E
}

/// The hexadecimal digit for `d`, in capitals.
pub open spec fn hex_digit(d: u8) -> char {
    if d < 10 {
        (0x30 + d) as u8 as char
    } else {
        (0x41 + d - 10) as u8 as char
    }
}

/// The byte `b`, percent-encoded: itself, or `%` and its two hexadecimal
/// digits.
pub open spec fn percent_byte(b: u8) -> Seq<char> {
    if is_unreserved(b) {
        seq![b as char]
    } else {
        seq!['%', hex_digit(b / 16), hex_digit(b % 16)]
    }
}

/// The bytes `bytes`, percent-encoded one by one.
pub open spec fn percent_encoded(bytes: Seq<u8>) -> Seq<char>
    decreases bytes.len(),
{
    if bytes.len() == 0 {
        Seq::empty()
    } else {
        percent_byte(bytes[0]) + percent_encoded(bytes.drop_first())
    }
}

/// `urlencoding::encode`. Trusted: the result is the UTF-8 bytes of `s`,
/// percent-encoded one by one, every byte but the unreserved ones.
#[verifier::external_body]
pub(crate) fn percent_encode(s: &str) -> (r: String)
    ensures
        r@ == percent_encoded(vstd::utf8::encode_utf8(s@)),
{
    urlencoding::encode(s).into_owned()
}

/// What `str::to_uppercase` makes of `s`.
pub uninterp spec fn uppercased(s: Seq<char>) -> Seq<char>;

/// `str::to_uppercase`. Trusted: the result depends on the characters of `s`
/// alone.
#[verifier::external_body]
pub(crate) fn uppercase(s: &str) -> (r: String)
    ensures
        r@ == uppercased(s@),
{
    s.to_uppercase()
}

/// How the standard library writes the string `s` for a programmer to read:
/// in double quotes, with what cannot be printed escaped.
pub uninterp spec fn debug_quoted(s: Seq<char>) -> Seq<char>;

/// The `Debug` rendering of a `str`. Trusted: the result depends on the
/// characters of `s` alone.
#[verifier::external_body]
pub(crate) fn debug_quote(s: &str) -> (r: String)
    ensures
        r@ == debug_quoted(s@),
{
    format!("{:?}", s)
}

/// What chrono writes for the moment `secs` seconds after the start of 1970
/// in UTC under the format `pattern`, or `None` where it has no such moment
/// or cannot write it so.
pub uninterp spec fn utc_formatted(secs: int, pattern: Seq<char>) -> Option<Seq<char>>;

/// `chrono::DateTime::format` on the moment that
/// `chrono::DateTime::from_timestamp` gives for `secs`. Trusted: the result
/// depends on `secs` and `pattern` alone.
#[verifier::external_body]
pub(crate) fn format_utc(secs: i64, pattern: &str) -> (r: Option<String>)
    ensures
        crate::services::models::text_of(r) == utc_formatted(secs as int, pattern@),
{
    match chrono::DateTime::from_timestamp(secs, 0) {
        Some(moment) => {
            let mut out = String::new();
            match write!(out, "{}", moment.format(pattern)) {
                Ok(()) => Some(out),
                Err(_) => None,
            }
        },
        None => None,
    }
}

} // verus!
