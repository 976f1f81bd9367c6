//! Instants in UTC, held as seconds and nanoseconds since the Unix epoch.
use vstd::prelude::*;

use crate::domain::error::AppError;
use crate::seqs::opt_text;
use crate::text::{decimal, decimal_u64, string_of};

verus! {

/// An instant: whole seconds since the Unix epoch and the nanoseconds past them
/// (the nanoseconds exceed 999,999,999 only within a leap second).
#[derive(Debug, Clone, Copy, PartialEq, Eq, Hash, PartialOrd, Ord, Structural)]
pub struct Timestamp {
    pub secs: i64,
    pub nanos: u32,
}

/// `a` is strictly earlier than `b`.
pub open spec fn ts_before(a: Timestamp, b: Timestamp) -> bool {
    a.secs < b.secs || (a.secs == b.secs && a.nanos < b.nanos)
}

/// The number of seconds in the auto-reflection cooldown (24 hours).
pub open spec fn cooldown_secs() -> int {
    86400int
}

/// The instant `hours` hours after `t`.
pub open spec fn plus_hours(t: Timestamp, hours: int) -> Timestamp {
    Timestamp { secs: (t.secs + hours * 3600) as i64, nanos: t.nanos }
}

impl Timestamp {
    /// Whether `self` is strictly earlier than `other`.
    pub fn is_before(&self, other: &Timestamp) -> (r: bool)
        ensures
            r == ts_before(*self, *other),
    {
        self.secs < other.secs || (self.secs == other.secs && self.nanos < other.nanos)
    }

    /// The instant 24 hours after `self`.
    pub fn plus_day(&self) -> (r: Timestamp)
        requires
            self.secs + 24 * 3600 <= i64::MAX,
        ensures
            r == plus_hours(*self, 24),
    {
        Timestamp { secs: self.secs + 24 * 3600, nanos: self.nanos }
    }
}

/// What `chrono::DateTime::parse_from_rfc3339` makes of a text: the instant it
/// denotes, as seconds and nanoseconds since the epoch, or the text of the
/// parse error.
pub uninterp spec fn rfc3339_parse(text: Seq<char>) -> Result<(i64, u32), Seq<char>>;

/// `chrono::DateTime::parse_from_rfc3339`, with the parsed instant read off as
/// `timestamp()` and `timestamp_subsec_nanos()` (which do not depend on the
/// text's offset) and a failure as the error's `to_string()`. The contract
/// claims only that the outcome is a function of the text.
#[verifier::external_body]
fn parse_rfc3339_parts(text: &str) -> (r: Result<(i64, u32), String>)
    ensures
        match r {
            Ok(p) => rfc3339_parse(text@) == Ok::<(i64, u32), Seq<char>>(p),
            Err(m) => rfc3339_parse(text@) == Err::<(i64, u32), Seq<char>>(m@),
        },
{
    match chrono::DateTime::parse_from_rfc3339(text) {
        Ok(parsed) => Ok((parsed.timestamp(), parsed.timestamp_subsec_nanos())),
        Err(error) => Err(error.to_string()),
    }
}

/// The instant an RFC 3339 text denotes, as a timestamp.
pub open spec fn rfc3339_timestamp(text: Seq<char>) -> Result<Timestamp, Seq<char>> {
    match rfc3339_parse(text) {
        Ok((secs, nanos)) => Ok(Timestamp { secs, nanos }),
        Err(m) => Err(m),
    }
}

/// The instant an RFC 3339 text denotes, or the text of the parse error.
pub fn parse_rfc3339_detailed(text: &str) -> (r: Result<Timestamp, String>)
    ensures
        match r {
            Ok(t) => rfc3339_timestamp(text@) == Ok::<Timestamp, Seq<char>>(t),
            Err(m) => rfc3339_timestamp(text@) == Err::<Timestamp, Seq<char>>(m@),
        },
{
    match parse_rfc3339_parts(text) {
        Ok((secs, nanos)) => Ok(Timestamp { secs, nanos }),
        Err(m) => Err(m),
    }
}

/// The instant that an RFC 3339 text denotes, if it is RFC 3339.
pub fn parse_rfc3339(text: &str) -> (r: Option<Timestamp>)
    ensures
        r == match rfc3339_timestamp(text@) {
            Ok(t) => Some(t),
            Err(_) => None::<Timestamp>,
        },
{
    match parse_rfc3339_detailed(text) {
        Ok(t) => Some(t),
        Err(_) => None,
    }
}


/// What chrono writes, with the format `%Y-%m-%dT%H:%M:%S`, for the UTC
/// instant `secs` seconds and `nanos` nanoseconds after the epoch; `None`
/// where chrono has no such instant.
pub uninterp spec fn utc_seconds_text(secs: i64, nanos: u32) -> Option<Seq<char>>;

/// What chrono's `to_rfc3339` writes for the UTC instant `secs` seconds and
/// `nanos` nanoseconds after the epoch; `None` where chrono has no such
/// instant.
pub uninterp spec fn utc_rfc3339_text(secs: i64, nanos: u32) -> Option<Seq<char>>;

/// `chrono::DateTime::<Utc>::from_timestamp` followed by `format` with
/// `%Y-%m-%dT%H:%M:%S`. The contract claims only that the text is a function
/// of the instant, and that there is none where chrono has no such instant.
#[verifier::external_body]
fn format_utc_seconds(secs: i64, nanos: u32) -> (r: Option<String>)
    ensures
        opt_text(r) == utc_seconds_text(secs, nanos),
{
    match chrono::DateTime::<chrono::Utc>::from_timestamp(secs, nanos) {
        Some(t) => Some(t.format("%Y-%m-%dT%H:%M:%S").to_string()),
        None => None,
    }
}

/// `chrono::DateTime::<Utc>::from_timestamp` followed by `to_rfc3339`. The
/// contract claims only that the text is a function of the instant, and that
/// there is none where chrono has no such instant.
#[verifier::external_body]
fn format_utc_rfc3339(secs: i64, nanos: u32) -> (r: Option<String>)
    ensures
        opt_text(r) == utc_rfc3339_text(secs, nanos),
{
    match chrono::DateTime::<chrono::Utc>::from_timestamp(secs, nanos) {
        Some(t) => Some(t.to_rfc3339()),
        None => None,
    }
}

/// `d` with zeros in front up to `width` characters, as `{:0width}` writes
/// a number.
pub open spec fn zero_padded(d: Seq<char>, width: nat) -> Seq<char> {
    if d.len() >= width {
        d
    } else {
        Seq::new((width - d.len()) as nat, |i: int| '0') + d
    }
}

/// The text by which the store orders instants: the UTC date and time to the
/// second, a `.`, and the nanoseconds in nine digits.
pub open spec fn sort_key_text(t: Timestamp) -> Option<Seq<char>> {
    match utc_seconds_text(t.secs, t.nanos) {
        Some(d) => Some(d + "."@ + zero_padded(decimal(t.nanos as nat), 9)),
        None => None,
    }
}

/// The error for an instant outside the range that the store can write.
pub open spec fn out_of_range_message() -> Seq<char> {
    "timestamp is outside the supported range"@
}

/// The text by which the store orders and compares an instant.
pub fn timestamp_sort_key(t: &Timestamp) -> (r: Result<String, AppError>)
    ensures
        match r {
            Ok(k) => sort_key_text(*t) == Some(k@),
            Err(e) => sort_key_text(*t) is None && e is InvalidParams && e.message_view()
                == out_of_range_message(),
        },
{
    let date = match format_utc_seconds(t.secs, t.nanos) {
        Some(d) => d,
        None => {
            return Err(AppError::invalid("timestamp is outside the supported range"));
        },
    };
    let digits = decimal_u64(t.nanos as u64);
    let mut padded: Vec<char> = Vec::new();
    let mut k: usize = digits.unicode_len();
    while k < 9
        invariant
            digits@ == decimal(t.nanos as nat),
            digits@.len() <= k <= 9 || (k == digits@.len() && k > 9),
            padded@ == Seq::new((k - digits@.len()) as nat, |i: int| '0'),
        decreases 9 - k,
    {
        padded.push('0');
        k = k + 1;
        assert(padded@ =~= Seq::new((k - digits@.len()) as nat, |i: int| '0'));
    }
    let mut key = date;
    key.append(".");
    key.append(string_of(&padded).as_str());
    key.append(digits.as_str());
    proof {
        if digits@.len() >= 9 {
            assert(padded@ =~= Seq::<char>::empty());
        }
        assert(key@ =~= utc_seconds_text(t.secs, t.nanos)->0 + "."@ + zero_padded(
            decimal(t.nanos as nat),
            9,
        ));
    }
    Ok(key)
}

/// The RFC 3339 text of an instant in UTC.
pub fn timestamp_rfc3339(t: &Timestamp) -> (r: Result<String, AppError>)
    ensures
        match r {
            Ok(k) => utc_rfc3339_text(t.secs, t.nanos) == Some(k@),
            Err(e) => utc_rfc3339_text(t.secs, t.nanos) is None && e is InvalidParams
                && e.message_view() == out_of_range_message(),
        },
{
    match format_utc_rfc3339(t.secs, t.nanos) {
        Some(text) => Ok(text),
        None => Err(AppError::invalid("timestamp is outside the supported range")),
    }
}

} // verus!
