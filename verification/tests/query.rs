use chrono::{DateTime, Duration, SecondsFormat, TimeZone, Utc};
use fema_web_declaration::query::{
    cutoff, filter_query, query_since, recent_query, BASE_URI, PAGE_SIZE, QUERY_HEAD, QUERY_TAIL,
};
use fema_web_declaration::record::Timestamp;

const HEAD: &str = "$inlinecount=allpages&$select=disasterNumber,programTypeCode,programTypeDescription,stateCode,placeCode,placeName,designatedDate,entryDate,updateDate,hash,lastRefresh&$filter=designatedDate gt'";
const TAIL: &str = "' and closeoutDate eq null";

#[test]
fn endpoint_and_page_size() {
    assert_eq!(BASE_URI, "https://www.fema.gov/api/open/v1/FemaWebDeclarationAreas");
    assert_eq!(PAGE_SIZE, 1000);
}

#[test]
fn query_head_and_tail() {
    assert_eq!(QUERY_HEAD, HEAD);
    assert_eq!(QUERY_TAIL, TAIL);
}

#[test]
fn filter_query_wraps_the_cutoff() {
    assert_eq!(
        filter_query("2020-01-02T00:00:00.000Z"),
        format!("{}2020-01-02T00:00:00.000Z{}", HEAD, TAIL)
    );
    assert_eq!(filter_query(""), format!("{}{}", HEAD, TAIL));
}

#[test]
fn cutoff_three_years_before() {
    // 2023-01-01T00:00:00Z
    let now = Timestamp { secs: 1_672_531_200, nanos: 250 };
    let earliest = cutoff(now, 3).unwrap();
    assert_eq!(earliest, Timestamp { secs: 1_672_531_200 - 3 * 365 * 86_400, nanos: 250 });
    assert_eq!(earliest.secs, 1_577_923_200);
}

#[test]
fn cutoff_zero_years_is_now() {
    let now = Timestamp { secs: 1_700_000_000, nanos: 999_999_999 };
    assert_eq!(cutoff(now, 0), Some(now));
}

#[test]
fn cutoff_before_the_epoch() {
    let now = Timestamp { secs: 86_400, nanos: 0 };
    assert_eq!(cutoff(now, 1), Some(Timestamp { secs: 86_400 - 365 * 86_400, nanos: 0 }));
}

#[test]
fn cutoff_agrees_with_chrono() {
    let now = Utc.with_ymd_and_hms(2024, 2, 29, 13, 14, 15).unwrap();
    let stamp = Timestamp { secs: now.timestamp(), nanos: now.timestamp_subsec_nanos() };
    for years in 0..50usize {
        let expected = now - Duration::days(years as i64 * 365);
        let got = cutoff(stamp, years).unwrap();
        assert_eq!(got.secs, expected.timestamp());
        assert_eq!(got.nanos, expected.timestamp_subsec_nanos());
    }
}

#[test]
fn cutoff_out_of_range() {
    let now = Timestamp { secs: 1_672_531_200, nanos: 0 };
    assert_eq!(cutoff(now, usize::MAX), None);
    assert_eq!(cutoff(now, 1_000_000_000), None);
    assert_eq!(cutoff(Timestamp { secs: i64::MAX, nanos: 0 }, 1), None);
    assert_eq!(cutoff(Timestamp { secs: 0, nanos: 2_000_000_000 }, 1), None);
}

#[test]
fn query_since_writes_milliseconds_and_z() {
    let query = query_since(Timestamp { secs: 1_577_923_200, nanos: 0 }).unwrap();
    assert_eq!(query, format!("{}2020-01-02T00:00:00.000Z{}", HEAD, TAIL));
}

#[test]
fn query_since_cuts_below_the_millisecond() {
    let query = query_since(Timestamp { secs: 1_431_648_000, nanos: 123_456_789 }).unwrap();
    assert_eq!(query, format!("{}2015-05-15T00:00:00.123Z{}", HEAD, TAIL));
}

#[test]
fn query_since_agrees_with_chrono() {
    let moment: DateTime<Utc> = Utc.with_ymd_and_hms(2021, 7, 4, 23, 59, 58).unwrap();
    let stamp = Timestamp { secs: moment.timestamp(), nanos: 5_000_000 };
    let text = (moment + Duration::milliseconds(5)).to_rfc3339_opts(SecondsFormat::Millis, true);
    assert_eq!(query_since(stamp), Some(format!("{}{}{}", HEAD, text, TAIL)));
}

#[test]
fn query_since_out_of_range() {
    assert_eq!(query_since(Timestamp { secs: i64::MAX, nanos: 0 }), None);
    assert_eq!(query_since(Timestamp { secs: 0, nanos: 2_000_000_000 }), None);
}

#[test]
fn recent_query_of_three_years() {
    let now = Timestamp { secs: 1_672_531_200, nanos: 0 };
    assert_eq!(
        recent_query(now, 3),
        Some(format!("{}2020-01-02T00:00:00.000Z{}", HEAD, TAIL))
    );
}

#[test]
fn recent_query_out_of_range() {
    let now = Timestamp { secs: 1_672_531_200, nanos: 0 };
    assert_eq!(recent_query(now, usize::MAX), None);
}
