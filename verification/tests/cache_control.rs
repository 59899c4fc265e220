use nv_getter::cache_control::{parse_cache_control, CacheControlPolicy};
use nv_getter::time::Timestamp;

fn at(secs: i64) -> Timestamp {
    Timestamp { secs, nanos: 250 }
}

#[test]
fn no_store_and_no_cache_are_understood() {
    assert_eq!(parse_cache_control("no-store", at(10)), CacheControlPolicy::NoStore);
    assert_eq!(parse_cache_control("no-cache", at(10)), CacheControlPolicy::NoCache);
}

#[test]
fn max_age_gives_the_time_until_which_the_response_is_good() {
    assert_eq!(
        parse_cache_control("max-age=3600", at(1_000_000)),
        CacheControlPolicy::Expires(Timestamp { secs: 1_003_600, nanos: 250 })
    );
    assert_eq!(
        parse_cache_control("max-age=0", at(-5)),
        CacheControlPolicy::Expires(Timestamp { secs: -5, nanos: 250 })
    );
    assert_eq!(
        parse_cache_control("max-age=007", at(0)),
        CacheControlPolicy::Expires(Timestamp { secs: 7, nanos: 250 })
    );
}

#[test]
fn only_the_first_directive_is_read() {
    assert_eq!(
        parse_cache_control("max-age=60, public", at(100)),
        CacheControlPolicy::Expires(Timestamp { secs: 160, nanos: 250 })
    );
    assert_eq!(parse_cache_control("public, max-age=60", at(100)), CacheControlPolicy::MustRevalidate);
    assert_eq!(parse_cache_control("no-store,no-cache", at(100)), CacheControlPolicy::NoStore);
    assert_eq!(parse_cache_control(",no-store", at(100)), CacheControlPolicy::MustRevalidate);
}

#[test]
fn blanks_around_the_directive_and_the_case_of_letters_do_not_count() {
    assert_eq!(parse_cache_control("  no-store\t", at(1)), CacheControlPolicy::NoStore);
    assert_eq!(parse_cache_control("No-Cache ,x", at(1)), CacheControlPolicy::NoCache);
    assert_eq!(
        parse_cache_control(" MAX-AGE=5 ", at(1)),
        CacheControlPolicy::Expires(Timestamp { secs: 6, nanos: 250 })
    );
}

#[test]
fn what_is_not_understood_asks_for_revalidation() {
    for value in [
        "",
        "   ",
        "private",
        "must-revalidate",
        "max-age",
        "max-age=",
        "max-age=-1",
        "max-age=1 0",
        "max-age=12x",
        "max-age =5",
        "max-age=\"5\"",
        "s-maxage=5",
        "no-store;",
        "no store",
    ] {
        assert_eq!(parse_cache_control(value, at(7)), CacheControlPolicy::MustRevalidate, "{:?}", value);
    }
}

#[test]
fn max_age_beyond_what_can_be_written_down_is_not_understood() {
    assert_eq!(
        parse_cache_control("max-age=9223372036854775807", at(0)),
        CacheControlPolicy::Expires(Timestamp { secs: i64::MAX, nanos: 250 })
    );
    assert_eq!(
        parse_cache_control("max-age=9223372036854775807", at(1)),
        CacheControlPolicy::MustRevalidate
    );
    assert_eq!(
        parse_cache_control("max-age=9223372036854775808", at(-1)),
        CacheControlPolicy::MustRevalidate
    );
    assert_eq!(
        parse_cache_control("max-age=99999999999999999999999999", at(0)),
        CacheControlPolicy::MustRevalidate
    );
    assert_eq!(
        parse_cache_control("max-age=9223372036854775806", at(-10)),
        CacheControlPolicy::Expires(Timestamp { secs: i64::MAX - 11, nanos: 250 })
    );
}

#[test]
fn timestamps_are_ordered_by_seconds_then_nanoseconds() {
    let a = Timestamp { secs: 5, nanos: 10 };
    assert!(Timestamp { secs: 6, nanos: 0 }.is_after(&a));
    assert!(Timestamp { secs: 5, nanos: 11 }.is_after(&a));
    assert!(!a.is_after(&a));
    assert!(!Timestamp { secs: 4, nanos: 999 }.is_after(&a));
    assert!(!Timestamp { secs: 5, nanos: 9 }.is_after(&a));
}
