use nv_getter::caching_client::{
    status_is_success, CacheType, CacheUpdate, CachedRequest, CachedResponse, RequestMetadata,
    Validators,
};
use nv_getter::error::Error;
use nv_getter::time::Timestamp;

const URL: &str = "https://example.test/a.bin";
const KEY: &str = "dc56139893d39d4111ff264d2f56089f";

fn header(name: &str, value: &str) -> (String, String) {
    (name.to_string(), value.to_string())
}

fn clock(secs: i64) -> Timestamp {
    Timestamp { secs, nanos: 0 }
}

fn request(headers: Vec<(String, String)>) -> CachedRequest {
    CachedRequest::new(CacheType::Private, "/c/http", URL, headers)
}

fn response(status: u16, headers: Vec<(String, String)>) -> CachedResponse {
    CachedResponse::new(CacheType::Private, "/c/http", URL, status, headers)
}

#[test]
fn request_and_response_know_where_their_entry_lives() {
    let req = request(vec![]);
    assert_eq!(req.url_cache_path(), format!("/c/http/{}", KEY));
    assert_eq!(req.url_data_cache_path(), format!("/c/http/{}/data", KEY));
    assert_eq!(req.url_metadata_cache_path(), format!("/c/http/{}/metadata", KEY));
    let resp = response(200, vec![]);
    assert_eq!(resp.url_cache_path(), format!("/c/http/{}", KEY));
    assert_eq!(resp.url_data_cache_path(), format!("/c/http/{}/data", KEY));
    assert_eq!(resp.url_metadata_cache_path(), format!("/c/http/{}/metadata", KEY));
}

#[test]
fn first_request_goes_out_without_validators() {
    let out = request(vec![header("Accept", "*/*")]).revalidating(None, clock(0));
    assert_eq!(out.headers, vec![header("Accept", "*/*")]);
    assert_eq!(out.url, URL);
    assert_eq!(out.cache_dir, "/c/http");
    assert_eq!(out.cache_type, CacheType::Private);
}

#[test]
fn validators_of_the_caller_are_never_sent_on() {
    let out = request(vec![
        header("If-None-Match", "\"stale\""),
        header("Accept", "*/*"),
        header("if-modified-since", "long ago"),
        header("IF-NONE-MATCH", "\"other\""),
        header("If-Match", "\"kept\""),
    ])
    .revalidating(None, clock(0));
    assert_eq!(out.headers, vec![header("Accept", "*/*"), header("If-Match", "\"kept\"")]);
}

#[test]
fn stored_validators_go_out_with_the_next_request() {
    let prior = RequestMetadata::from_response(
        URL,
        clock(100),
        &vec![header("ETag", "\"v1\""), header("Last-Modified", "d1")],
    );
    let out = request(vec![header("Accept", "*/*"), header("If-None-Match", "\"stale\"")])
        .revalidating(Some(&prior), clock(200));
    assert_eq!(
        out.headers,
        vec![
            header("Accept", "*/*"),
            header("if-none-match", "\"v1\""),
            header("if-modified-since", "d1")
        ]
    );
}

#[test]
fn status_is_a_success_from_200_to_299() {
    for status in [200u16, 201, 204, 206, 299] {
        assert!(status_is_success(status), "{}", status);
    }
    for status in [0u16, 100, 199, 300, 304, 404, 500, 999, u16::MAX] {
        assert!(!status_is_success(status), "{}", status);
    }
}

#[test]
fn success_stores_body_and_fresh_metadata() {
    let headers = vec![header("ETag", "\"v1\""), header("Content-Type", "text/plain")];
    for status in [200u16, 204, 299] {
        let update = response(status, headers.clone()).cached_file_path(clock(500)).unwrap();
        assert_eq!(update.data_path(), format!("/c/http/{}/data", KEY));
        assert_eq!(
            update,
            CacheUpdate::Store {
                entry_dir: format!("/c/http/{}", KEY),
                data_path: format!("/c/http/{}/data", KEY),
                metadata_path: format!("/c/http/{}/metadata", KEY),
                metadata: RequestMetadata::from_response(URL, clock(500), &headers),
            }
        );
    }
}

#[test]
fn stored_validators_are_exactly_those_of_the_response() {
    let with = response(200, vec![header("Last-Modified", "d1"), header("ETag", "\"v1\"")])
        .cached_file_path(clock(1))
        .unwrap();
    match with {
        CacheUpdate::Store { metadata, .. } => assert_eq!(
            metadata.validators(),
            Validators { etag: Some("\"v1\"".to_string()), last_modified: Some("d1".to_string()) }
        ),
        CacheUpdate::Keep { .. } => panic!("a success stores"),
    }
    let without = response(200, vec![header("Content-Length", "0")]).cached_file_path(clock(1)).unwrap();
    match without {
        CacheUpdate::Store { metadata, .. } => {
            assert_eq!(metadata.validators(), Validators { etag: None, last_modified: None })
        }
        CacheUpdate::Keep { .. } => panic!("a success stores"),
    }
}

#[test]
fn not_modified_keeps_the_entry() {
    let update = response(304, vec![header("ETag", "\"v2\"")]).cached_file_path(clock(9)).unwrap();
    assert_eq!(update, CacheUpdate::Keep { data_path: format!("/c/http/{}/data", KEY) });
    assert_eq!(update.data_path(), format!("/c/http/{}/data", KEY));
}

#[test]
fn any_other_status_is_an_error_that_carries_it() {
    for status in [0u16, 100, 199, 300, 301, 303, 305, 400, 404, 500, 503, 999, u16::MAX] {
        assert_eq!(
            response(status, vec![header("ETag", "\"v1\"")]).cached_file_path(clock(9)),
            Err(Error::HttpStatusError(status)),
            "{}",
            status
        );
    }
}

#[test]
fn fetch_then_revalidate_keeps_body_and_validator() {
    // The cache, as the caller holds it: the entry's data and metadata.
    let mut entry: Option<(Vec<u8>, RequestMetadata)> = None;

    // First fetch: nothing cached, so nothing conditional goes out.
    let first = request(vec![]).revalidating(entry.as_ref().map(|e| &e.1), clock(1000));
    assert_eq!(first.headers, vec![]);

    // The server answers 200 with ETag "v1" and the body B1.
    let answer = response(200, vec![header("ETag", "\"v1\"")]);
    match answer.cached_file_path(clock(1001)).unwrap() {
        CacheUpdate::Store { metadata, data_path, .. } => {
            assert_eq!(data_path, format!("/c/http/{}/data", KEY));
            entry = Some((b"B1".to_vec(), metadata));
        }
        CacheUpdate::Keep { .. } => panic!("a success stores"),
    }
    let held = entry.as_ref().unwrap();
    assert_eq!(held.0, b"B1".to_vec());
    assert_eq!(held.1.validators().etag, Some("\"v1\"".to_string()));

    // Second fetch: the request carries If-None-Match: "v1".
    let second = request(vec![]).revalidating(entry.as_ref().map(|e| &e.1), clock(2000));
    assert_eq!(second.headers, vec![header("if-none-match", "\"v1\"")]);

    // The server answers 304: the entry stays as it is.
    let before = entry.as_ref().map(|e| (e.0.clone(), e.1.clone()));
    match response(304, vec![]).cached_file_path(clock(2001)).unwrap() {
        CacheUpdate::Keep { data_path } => assert_eq!(data_path, format!("/c/http/{}/data", KEY)),
        CacheUpdate::Store { .. } => panic!("not modified keeps"),
    }
    assert_eq!(entry, before);
    let held = entry.as_ref().unwrap();
    assert_eq!(held.0, b"B1".to_vec());
    assert_eq!(held.1.validators().etag, Some("\"v1\"".to_string()));
}

#[test]
fn failed_fetch_leaves_the_entry_alone() {
    let entry = Some((
        b"B1".to_vec(),
        RequestMetadata::from_response(URL, clock(1), &vec![header("ETag", "\"v1\"")]),
    ));
    let before = entry.clone();
    assert_eq!(
        response(503, vec![header("ETag", "\"v9\"")]).cached_file_path(clock(2)),
        Err(Error::HttpStatusError(503))
    );
    assert_eq!(entry, before);
}

#[test]
fn declared_length_is_read_from_the_first_content_length_line() {
    assert_eq!(response(200, vec![header("Content-Length", "1234")]).content_length(), Some(1234));
    assert_eq!(
        response(200, vec![header("content-length", "7"), header("Content-Length", "8")]).content_length(),
        Some(7)
    );
    assert_eq!(response(200, vec![header("Content-Length", "")]).content_length(), None);
    assert_eq!(response(200, vec![header("Content-Length", "12 ")]).content_length(), None);
    assert_eq!(response(200, vec![header("Content-Length", "-1")]).content_length(), None);
    assert_eq!(
        response(200, vec![header("Content-Length", "18446744073709551616")]).content_length(),
        None
    );
    assert_eq!(response(200, vec![header("ETag", "x")]).content_length(), None);
    assert_eq!(
        response(200, vec![header("ETag", "x"), header("etag", "y")]).first_header("etag"),
        Some("x")
    );
}
