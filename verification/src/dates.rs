//! Dates as the bots write them (UTC, day first).

use vstd::prelude::*;

verus! {

/// The text of the UTC time `ts` (Unix seconds) in the `strftime` format
/// `fmt`, when `ts` is within the range of representable dates.
pub uninterp spec fn utc_format(ts: i64, fmt: Seq<char>) -> Option<Seq<char>>;

/// "%d.%m.%Y %H:%M"
pub open spec fn date_time_format() -> Seq<char> {
    "%d.%m.%Y %H:%M"@
}

/// "%d.%m.%Y"
pub open spec fn date_format() -> Seq<char> {
    "%d.%m.%Y"@
}

/// Formats `ts` with `chrono`: `DateTime::<Utc>::from_timestamp(ts, 0)`,
/// then `format(fmt)`. Trusted: the result is the one named
/// `utc_format(ts, fmt@)`, `None` exactly when `from_timestamp` finds the
/// time out of range. Only the two formats the bots use are admitted, as a
/// malformed format makes the formatting fail.
#[verifier::external_body]
fn format_utc(ts: i64, fmt: &str) -> (res: Option<String>)
    requires
        fmt@ == date_time_format() || fmt@ == date_format(),
    ensures
        match res {
            Some(s) => utc_format(ts, fmt@) == Some(s@),
            None => utc_format(ts, fmt@) is None,
        },
{
    match chrono::DateTime::from_timestamp(ts, 0) {
        Some(d) => Some(d.format(fmt).to_string()),
        None => None,
    }
}

/// The date and time of `ts`, or the empty text when it cannot be
/// represented.
pub open spec fn date_time_text(ts: i64) -> Seq<char> {
    match utc_format(ts, date_time_format()) {
        Some(s) => s,
        None => Seq::empty(),
    }
}

/// The date of `ts`, when it can be represented.
pub open spec fn date_text(ts: i64) -> Option<Seq<char>> {
    utc_format(ts, date_format())
}

/// The date and time of `ts` as "dd.mm.yyyy HH:MM" (UTC); empty when `ts`
/// is outside the representable range.
pub fn format_date_time(ts: i64) -> (res: String)
    ensures
        res@ == date_time_text(ts),
{
    match format_utc(ts, "%d.%m.%Y %H:%M") {
        Some(s) => s,
        None => String::new(),
    }
}

/// The date of `ts` as "dd.mm.yyyy" (UTC), when `ts` is representable.
pub fn format_date(ts: i64) -> (res: Option<String>)
    ensures
        match res {
            Some(s) => date_text(ts) == Some(s@),
            None => date_text(ts) is None,
        },
{
    format_utc(ts, "%d.%m.%Y")
}

} // verus!
