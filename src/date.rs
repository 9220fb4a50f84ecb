//! Modification dates, held as seconds and nanoseconds since the Unix epoch,
//! and their labels such as `"Jan  5 2024 (Fri)"`.
use vstd::prelude::*;

verus! {

/// A point in time: `secs` seconds and `nanos` nanoseconds after
/// 1970-01-01 00:00:00 UTC (`secs` is negative before it).
#[derive(Clone, Copy, Debug, PartialEq, Eq, Structural)]
pub struct Timestamp {
    pub secs: i64,
    pub nanos: u32,
}

/// The strftime pattern of a date label: month, day, year, weekday.
pub open spec fn date_pattern() -> Seq<char> {
    seq!['%', 'b', ' ', '%', 'e', ' ', '%', 'Y', ' ', '(', '%', 'a', ')']
}

/// What chrono makes of a UTC instant formatted with a pattern; `None` where
/// the instant lies outside the dates chrono represents.
pub uninterp spec fn utc_label_of(secs: int, nanos: int, pattern: Seq<char>) -> Option<Seq<char>>;

/// Relies on chrono's `DateTime::<Utc>::from_timestamp` (the instant, `None`
/// when out of range) and `DateTime::format` with a valid pattern.
#[verifier::external_body]
fn utc_label(secs: i64, nanos: u32, pattern: &str) -> (r: Option<String>)
    requires
        pattern@ == date_pattern(),
    ensures
        match r {
            Some(s) => utc_label_of(secs as int, nanos as int, pattern@) == Some(s@),
            None => utc_label_of(secs as int, nanos as int, pattern@) is None,
        },
{
    match chrono::DateTime::<chrono::Utc>::from_timestamp(secs, nanos) {
        Some(d) => Some(d.format(pattern).to_string()),
        None => None,
    }
}

/// The label of a modification date: empty where the date is unknown or
/// cannot be represented.
pub open spec fn modified_label(t: Option<Timestamp>) -> Seq<char> {
    match t {
        Some(t) => match utc_label_of(t.secs as int, t.nanos as int, date_pattern()) {
            Some(s) => s,
            None => Seq::empty(),
        },
        None => Seq::empty(),
    }
}

/// Formats a modification date as month, day, year and weekday, in UTC.
pub fn format_modified(t: Option<Timestamp>) -> (r: String)
    ensures
        r@ == modified_label(t),
{
    match t {
        Some(t) => {
            let pattern = "%b %e %Y (%a)";
            proof {
                reveal_strlit("%b %e %Y (%a)");
                assert(pattern@ =~= date_pattern());
            }
            match utc_label(t.secs, t.nanos, pattern) {
                Some(s) => s,
                None => String::new(),
            }
        },
        None => String::new(),
    }
}

} // verus!
