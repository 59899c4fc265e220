use nv_getter::cache_control::CacheControlPolicy;
use nv_getter::caching_client::{evaluate, RequestMetadata, Validators};
use nv_getter::headers::{gather, HeaderEntry};
use nv_getter::time::Timestamp;

fn line(name: &str, value: &str) -> (String, String) {
    (name.to_string(), value.to_string())
}

fn entry(name: &str, values: &[&str]) -> HeaderEntry {
    HeaderEntry { name: name.to_string(), values: values.iter().map(|v| v.to_string()).collect() }
}

fn moment(secs: i64) -> Timestamp {
    Timestamp { secs, nanos: 0 }
}

fn stored(lines: &[(String, String)], at: i64) -> RequestMetadata {
    RequestMetadata::from_response("https://example.test/a.bin", moment(at), &lines.to_vec())
}

fn none() -> Validators {
    Validators { etag: None, last_modified: None }
}

#[test]
fn gathering_puts_the_values_of_one_name_together_in_order() {
    let lines = vec![
        line("ETag", "\"v1\""),
        line("Set-Cookie", "a=1"),
        line("content-type", "text/plain"),
        line("set-cookie", "b=2"),
        line("SET-COOKIE", "a=1"),
    ];
    assert_eq!(
        gather(&lines),
        vec![
            entry("etag", &["\"v1\""]),
            entry("set-cookie", &["a=1", "b=2", "a=1"]),
            entry("content-type", &["text/plain"]),
        ]
    );
    assert_eq!(gather(&vec![]), vec![]);
}

#[test]
fn metadata_remembers_source_time_and_headers() {
    let m = stored(&[line("ETag", "\"v1\""), line("Last-Modified", "Tue, 01 Jan 2019 00:00:00 GMT")], 77);
    assert_eq!(m.source(), "https://example.test/a.bin");
    assert_eq!(m.timestamp(), moment(77));
    assert_eq!(
        m.response_headers(),
        &vec![entry("etag", &["\"v1\""]), entry("last-modified", &["Tue, 01 Jan 2019 00:00:00 GMT"])]
    );
    assert_eq!(m.first_header("etag"), Some(&"\"v1\"".to_string()));
    assert_eq!(m.first_header("ETag"), None);
    assert_eq!(m.first_header("cache-control"), None);
}

#[test]
fn metadata_survives_being_taken_apart_and_put_together() {
    let m = stored(
        &[line("ETag", "\"v1\""), line("Vary", "a"), line("vary", "b"), line("Cache-Control", "no-cache")],
        1_600_000_000,
    );
    let source = m.source().to_string();
    let timestamp = m.timestamp();
    let entries = m.response_headers().clone();
    let again = RequestMetadata::from_parts(source, timestamp, entries).expect("names are distinct");
    assert_eq!(again, m);
    assert_eq!(again.clone(), m);
    assert_eq!(again.validators(), m.validators());
    assert_eq!(again.cache_control(), CacheControlPolicy::NoCache);
}

#[test]
fn record_with_a_name_twice_is_refused() {
    assert_eq!(
        RequestMetadata::from_parts(
            "u".to_string(),
            moment(0),
            vec![entry("etag", &["a"]), entry("x", &[]), entry("etag", &["b"])],
        ),
        None
    );
    assert!(RequestMetadata::from_parts("u".to_string(), moment(0), vec![]).is_some());
    assert!(RequestMetadata::from_parts(
        "u".to_string(),
        moment(0),
        vec![entry("etag", &["a"]), entry("ETag", &["b"])]
    )
    .is_some());
}

#[test]
fn validators_are_the_first_values_the_response_gave() {
    let m = stored(
        &[line("Last-Modified", "d1"), line("ETag", "\"v1\""), line("etag", "\"v2\""), line("last-modified", "d2")],
        0,
    );
    assert_eq!(
        m.validators(),
        Validators { etag: Some("\"v1\"".to_string()), last_modified: Some("d1".to_string()) }
    );
    assert_eq!(stored(&[line("Content-Length", "3")], 0).validators(), none());
    assert_eq!(
        stored(&[line("ETag", "x")], 0).validators(),
        Validators { etag: Some("x".to_string()), last_modified: None }
    );
    let empty = RequestMetadata::from_parts("u".to_string(), moment(0), vec![entry("etag", &[])]).unwrap();
    assert_eq!(empty.validators(), none());
}

#[test]
fn policy_is_read_from_the_first_cache_control_value_at_the_time_of_arrival() {
    assert_eq!(stored(&[], 5).cache_control(), CacheControlPolicy::MustRevalidate);
    assert_eq!(
        stored(&[line("Cache-Control", "max-age=10"), line("cache-control", "no-store")], 5).cache_control(),
        CacheControlPolicy::Expires(moment(15))
    );
    assert_eq!(
        stored(&[line("Cache-Control", "no-store")], 5).cache_control(),
        CacheControlPolicy::NoStore
    );
    assert_eq!(
        stored(&[line("Cache-Control", "private")], 5).cache_control(),
        CacheControlPolicy::MustRevalidate
    );
}

#[test]
fn without_prior_metadata_no_validators_are_forwarded() {
    assert_eq!(evaluate(None, moment(0)), none());
    assert_eq!(evaluate(None, moment(i64::MAX)), none());
    assert_eq!(evaluate(None, moment(0)).request_headers(), vec![]);
}

#[test]
fn no_store_forwards_no_validators() {
    let m = stored(&[line("ETag", "\"v1\""), line("Last-Modified", "d"), line("Cache-Control", "no-store")], 0);
    assert_eq!(evaluate(Some(&m), moment(1)), none());
}

#[test]
fn response_still_good_forwards_no_validators_and_an_expired_one_forwards_them() {
    let m = stored(&[line("ETag", "\"v1\""), line("Cache-Control", "max-age=100")], 1000);
    let both = Validators { etag: Some("\"v1\"".to_string()), last_modified: None };
    assert_eq!(evaluate(Some(&m), moment(1000)), none());
    assert_eq!(evaluate(Some(&m), moment(1099)), none());
    assert_eq!(evaluate(Some(&m), Timestamp { secs: 1099, nanos: 999_999_999 }), none());
    assert_eq!(evaluate(Some(&m), moment(1100)), both);
    assert_eq!(evaluate(Some(&m), moment(5000)), both);
}

#[test]
fn no_cache_and_unreadable_policies_forward_what_is_stored() {
    let stored_both =
        Validators { etag: Some("\"v1\"".to_string()), last_modified: Some("d".to_string()) };
    for policy in ["no-cache", "private", "", "max-age=x"] {
        let m = stored(
            &[line("ETag", "\"v1\""), line("Last-Modified", "d"), line("Cache-Control", policy)],
            10,
        );
        assert_eq!(evaluate(Some(&m), moment(11)), stored_both, "{:?}", policy);
    }
    let bare = stored(&[line("ETag", "\"v1\""), line("Last-Modified", "d")], 10);
    assert_eq!(evaluate(Some(&bare), moment(11)), stored_both);
}

#[test]
fn response_without_validators_leaves_nothing_to_forward() {
    for policy in ["no-cache", "no-store", "max-age=0", "max-age=100", "public"] {
        let m = stored(&[line("Content-Type", "text/plain"), line("Cache-Control", policy)], 10);
        assert_eq!(evaluate(Some(&m), moment(10_000)), none(), "{:?}", policy);
    }
}

#[test]
fn validators_go_out_as_conditional_headers() {
    assert_eq!(
        Validators { etag: Some("\"v1\"".to_string()), last_modified: Some("d".to_string()) }
            .request_headers(),
        vec![line("if-none-match", "\"v1\""), line("if-modified-since", "d")]
    );
    assert_eq!(
        Validators { etag: None, last_modified: Some("d".to_string()) }.request_headers(),
        vec![line("if-modified-since", "d")]
    );
    assert_eq!(
        Validators { etag: Some("t".to_string()), last_modified: None }.request_headers(),
        vec![line("if-none-match", "t")]
    );
}
