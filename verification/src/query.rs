//! The query that selects the declarations of the last years.
//!
//! The server is asked for the declaration areas that were designated after
//! a cutoff and have not been closed out. The cutoff lies a number of years
//! of 365 days before the present moment. Calendar arithmetic and the RFC 3339
//! notation of a moment are chrono's.

use chrono::{DateTime, SecondsFormat, TimeDelta};
use vstd::prelude::*;
use crate::record::Timestamp;

verus! {

/// The endpoint of the declaration areas.
pub const BASE_URI: &'static str = "https://www.fema.gov/api/open/v1/FemaWebDeclarationAreas";

/// The number of records in a page: the most that the server hands out at
/// once.
pub const PAGE_SIZE: usize = 1000;

/// What precedes the cutoff in the query: the total count is asked for, the
/// fields are selected, and the filter on the designated date begins.
pub const QUERY_HEAD: &'static str =
    "$inlinecount=allpages&$select=disasterNumber,programTypeCode,programTypeDescription,stateCode,placeCode,placeName,designatedDate,entryDate,updateDate,hash,lastRefresh&$filter=designatedDate gt'";

/// What follows the cutoff in the query: only declarations that are not
/// closed out.
pub const QUERY_TAIL: &'static str = "' and closeoutDate eq null";

/// The number of days in a year, as the cutoff counts them.
pub const DAYS_PER_YEAR: u64 = 365;

/// The moment that lies `days` days of 86 400 seconds before the moment
/// `secs` seconds and `nanos` nanoseconds after the epoch, as chrono computes
/// it; `None` where chrono cannot represent one of the two moments or the
/// span between them.
pub uninterp spec fn utc_minus_days(secs: int, nanos: int, days: int) -> Option<(int, int)>;

/// The RFC 3339 notation, with milliseconds and `Z` for the offset, of the
/// moment `secs` seconds and `nanos` nanoseconds after the epoch, as chrono
/// writes it; `None` where chrono cannot represent the moment.
pub uninterp spec fn utc_rfc3339_millis(secs: int, nanos: int) -> Option<Seq<char>>;

/// A moment as a pair of seconds and nanoseconds.
pub open spec fn stamp_model(stamp: Option<Timestamp>) -> Option<(int, int)> {
    match stamp {
        Some(t) => Some((t.secs as int, t.nanos as int)),
        None => None,
    }
}

/// The cutoff for `years` years before `now`.
pub open spec fn cutoff_model(now: Timestamp, years: nat) -> Option<(int, int)> {
    if years * DAYS_PER_YEAR <= i64::MAX {
        utc_minus_days(now.secs as int, now.nanos as int, years * DAYS_PER_YEAR)
    } else {
        None
    }
}

/// The query for the declarations designated after the moment that `cutoff`
/// denotes.
pub open spec fn query_text(cutoff: Seq<char>) -> Seq<char> {
    QUERY_HEAD@ + cutoff + QUERY_TAIL@
}

/// The query for a cutoff given as a moment.
pub open spec fn query_model(cutoff: Timestamp) -> Option<Seq<char>> {
    match utc_rfc3339_millis(cutoff.secs as int, cutoff.nanos as int) {
        Some(text) => Some(query_text(text)),
        None => None,
    }
}

/// Subtracts whole days from a moment with chrono's
/// `DateTime::<Utc>::checked_sub_signed`, the days made a span by
/// `TimeDelta::try_days`.
///
/// The result is chrono's and is named, not computed here. Of a moment that
/// is no leap second, the source shows that the seconds go back by 86 400 a
/// day and the nanoseconds stay.
#[verifier::external_body]
fn minus_days(moment: Timestamp, days: i64) -> (earlier: Option<Timestamp>)
    ensures
        stamp_model(earlier) == utc_minus_days(
            moment.secs as int,
            moment.nanos as int,
            days as int,
        ),
        moment.nanos < 1_000_000_000 ==> (earlier matches Some(t) ==> t.secs == moment.secs
            - 86_400 * days && t.nanos == moment.nanos),
{
    let start = DateTime::from_timestamp(moment.secs, moment.nanos)?;
    let moved = start.checked_sub_signed(TimeDelta::try_days(days)?)?;
    Some(Timestamp { secs: moved.timestamp(), nanos: moved.timestamp_subsec_nanos() })
}

/// Writes a moment with chrono's `DateTime::<Utc>::to_rfc3339_opts`, with
/// `SecondsFormat::Millis` and `Z` for the offset. The text is chrono's and is
/// named, not computed here.
#[verifier::external_body]
fn rfc3339_millis(moment: Timestamp) -> (text: Option<String>)
    ensures
        text.deep_view() == utc_rfc3339_millis(moment.secs as int, moment.nanos as int),
{
    let stamp = DateTime::from_timestamp(moment.secs, moment.nanos)?;
    Some(stamp.to_rfc3339_opts(SecondsFormat::Millis, true))
}

/// The moment `years` years of 365 days before `now`: the earliest designated
/// date that the query lets through. `None` where the span or the moment is
/// beyond what can be represented.
pub fn cutoff(now: Timestamp, years: usize) -> (earliest: Option<Timestamp>)
    ensures
        stamp_model(earliest) == cutoff_model(now, years as nat),
        now.nanos < 1_000_000_000 ==> (earliest matches Some(t) ==> t.secs == now.secs - years
            * DAYS_PER_YEAR * 86_400 && t.nanos == now.nanos),
{
    assert(years * DAYS_PER_YEAR * 86_400 == 86_400 * (years * DAYS_PER_YEAR))
        by (nonlinear_arith);
    if years as u64 > i64::MAX as u64 / DAYS_PER_YEAR {
        return None;
    }
    let days: u64 = years as u64 * DAYS_PER_YEAR;
    minus_days(now, days as i64)
}

/// The query for the declarations designated after `cutoff`, which is taken
/// as it is written.
pub fn filter_query(cutoff: &str) -> (query: String)
    ensures
        query@ == query_text(cutoff@),
{
    let mut query = String::from_str(QUERY_HEAD);
    query.append(cutoff);
    query.append(QUERY_TAIL);
    query
}

/// The query for the declarations designated after the moment `cutoff`.
/// `None` where the moment has no notation.
pub fn query_since(cutoff: Timestamp) -> (query: Option<String>)
    ensures
        query.deep_view() == query_model(cutoff),
{
    match rfc3339_millis(cutoff) {
        Some(text) => Some(filter_query(text.as_str())),
        None => None,
    }
}

/// The query for the declarations of the last `years` years, counted back
/// from `now`.
pub fn recent_query(now: Timestamp, years: usize) -> (query: Option<String>)
    ensures
        query.deep_view() == match cutoff_model(now, years as nat) {
            Some((secs, nanos)) => match utc_rfc3339_millis(secs, nanos) {
                Some(text) => Some(query_text(text)),
                None => None,
            },
            None => None,
        },
{
    match cutoff(now, years) {
        Some(earliest) => query_since(earliest),
        None => None,
    }
}

} // verus!
