//! Time stamps as they stand in header fields.

use crate::text::text_of;
use vstd::prelude::*;

verus! {

/// The pattern of the `Date` and `Last-Modified` fields, in the notation of
/// `chrono`: `Tue, 03 Nov 2026 08:15:00 GMT`.
pub const DATE_FORMAT: &'static str = "%a, %d %b %Y %H:%M:%S GMT";

/// What `chrono` writes for the time `seconds` after the start of 1970, UTC,
/// under `pattern`; nothing where the time is outside the range of `chrono`
/// or the pattern cannot be written.
pub uninterp spec fn formatted_time(seconds: int, pattern: Seq<char>) -> Option<Seq<char>>;

/// `chrono::DateTime::from_timestamp` and `DateTime::format`: the time in UTC,
/// written under `pattern`.
#[verifier::external_body]
fn format_time(seconds: i64, pattern: &str) -> (text: Option<String>)
    ensures
        text_of(text) == formatted_time(seconds as int, pattern@),
{
    let time = chrono::DateTime::from_timestamp(seconds, 0)?;
    let mut text = String::new();
    match time.format(pattern).write_to(&mut text) {
        Ok(()) => Some(text),
        Err(_) => None,
    }
}

/// The time stamp of a header field for the time `seconds` after the start of
/// 1970, if it has one.
pub open spec fn http_date_of(seconds: int) -> Option<Seq<char>> {
    formatted_time(seconds, DATE_FORMAT@)
}

/// Writes the time stamp of a header field.
pub fn http_date(seconds: i64) -> (text: Option<String>)
    ensures
        text_of(text) == http_date_of(seconds as int),
{
    format_time(seconds, DATE_FORMAT)
}

} // verus!
