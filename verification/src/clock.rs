//! How moments in time are shown.
use vstd::prelude::*;

verus! {

/// The moments that a date can be told of, in seconds from the start of 1970:
/// the years -262143 to 262142.
pub open spec fn has_date(seconds: int) -> bool {
    -8334601228800 <= seconds <= 8210266876799
}

/// The distances from universal time, in seconds, that a zone can have: less
/// than a day.
pub open spec fn is_offset(offset: int) -> bool {
    -86400 < offset < 86400
}

/// The pattern that moments are shown by: date, hour and minute.
pub open spec fn minute_pattern() -> Seq<char> {
    "%Y-%m-%d %H:%M"@
}

/// A moment by a pattern, where clocks are `offset` seconds ahead of universal
/// time.
pub uninterp spec fn moment_by(seconds: i64, offset: i32, pattern: Seq<char>) -> Seq<char>;

/// Calls `chrono::DateTime::from_timestamp`, moves the moment to the zone with
/// the given offset and formats it by the pattern. There is a text exactly for
/// the moments that have a date and the offsets that a zone can have; which one
/// depends on moment, offset and pattern alone. Not every pattern can be
/// formatted by; the one that moments are shown by can.
#[verifier::external_body]
fn moment_text(seconds: i64, offset: i32, pattern: &str) -> (r: Option<String>)
    requires
        pattern@ == minute_pattern(),
    ensures
        r is Some <==> (has_date(seconds as int) && is_offset(offset as int)),
        r is Some ==> r->0@ == moment_by(seconds, offset, pattern@),
{
    let zone = chrono::FixedOffset::east_opt(offset)?;
    let moment = chrono::DateTime::<chrono::Utc>::from_timestamp(seconds, 0)?;
    Some(moment.with_timezone(&zone).format(pattern).to_string())
}

/// What is shown for a moment.
pub open spec fn shown_time(seconds: i64, offset: i32) -> Seq<char> {
    if has_date(seconds as int) && is_offset(offset as int) {
        moment_by(seconds, offset, minute_pattern())
    } else {
        "unknown"@
    }
}

/// The text shown for a moment, once it is known whether the moment has one.
pub fn time_or_unknown(shown: Option<String>) -> (r: String)
    ensures
        r@ == (match shown {
            Some(text) => text@,
            None => "unknown"@,
        }),
{
    match shown {
        Some(text) => text,
        None => "unknown".to_owned(),
    }
}

/// Shows a moment of a commit or a log entry, to the minute, where local clocks
/// are `offset` seconds ahead of universal time.
pub fn format_git_time(seconds: i64, offset: i32) -> (r: String)
    ensures
        r@ == shown_time(seconds, offset),
{
    time_or_unknown(moment_text(seconds, offset, "%Y-%m-%d %H:%M"))
}

}
