use nv_getter::caching_client::{CacheType, CachedResponse};
use nv_getter::charset::{accept_decoded, choose_label, decode_body, encoding_label};
use nv_getter::error::Error;

fn answer(content_type: Option<&str>) -> CachedResponse {
    let mut headers = vec![("Content-Length".to_string(), "4".to_string())];
    if let Some(value) = content_type {
        headers.push(("Content-Type".to_string(), value.to_string()));
        headers.push(("content-type".to_string(), "text/plain; charset=utf-16le".to_string()));
    }
    CachedResponse::new(CacheType::Public, "/c", "https://example.test/t", 200, headers)
}

#[test]
fn label_is_the_charset_of_the_content_type_or_the_default() {
    assert_eq!(encoding_label(Some("text/html; charset=ISO-8859-1"), "utf-8"), "iso-8859-1");
    assert_eq!(encoding_label(Some("text/html; Charset=\"koi8-r\""), "utf-8"), "koi8-r");
    assert_eq!(encoding_label(Some("text/html"), "utf-8"), "utf-8");
    assert_eq!(encoding_label(Some("text/html; boundary=x"), "latin1"), "latin1");
    assert_eq!(encoding_label(Some("not a media type"), "utf-8"), "utf-8");
    assert_eq!(encoding_label(Some(""), "big5"), "big5");
    assert_eq!(encoding_label(None, "utf-8"), "utf-8");
    assert_eq!(choose_label(Some("x".to_string()), "y"), "x");
    assert_eq!(choose_label(None, "y"), "y");
}

#[test]
fn content_type_is_the_first_line_of_that_name() {
    assert_eq!(answer(Some("text/plain")).content_type(), Some("text/plain"));
    assert_eq!(answer(None).content_type(), None);
}

#[test]
fn body_is_decoded_in_the_encoding_that_the_label_names() {
    assert_eq!(decode_body("utf-8", "grüß".as_bytes()), Ok("grüß".to_string()));
    assert_eq!(decode_body("iso-8859-1", &[0x67, 0x72, 0xfc, 0xdf]), Ok("grüß".to_string()));
    assert_eq!(decode_body(" Latin1 ", &[0xe9]), Ok("é".to_string()));
    assert_eq!(decode_body("utf-16le", &[0x68, 0x00, 0x69, 0x00]), Ok("hi".to_string()));
    assert_eq!(decode_body("utf-8", b""), Ok(String::new()));
}

#[test]
fn label_that_names_no_encoding_stands_for_utf8() {
    assert_eq!(decode_body("no such encoding", "grüß".as_bytes()), Ok("grüß".to_string()));
    assert_eq!(decode_body("", b"abc"), Ok("abc".to_string()));
    assert_eq!(
        decode_body("no such encoding", &[0x67, 0xfc]),
        Err(Error::Utf8ParseError("no such encoding".to_string()))
    );
}

#[test]
fn malformed_input_is_an_error_that_names_the_label() {
    assert_eq!(
        decode_body("utf-8", &[0x61, 0xff, 0x62]),
        Err(Error::Utf8ParseError("utf-8".to_string()))
    );
    assert_eq!(
        decode_body("utf-16le", &[0x68, 0x00, 0x69]),
        Err(Error::Utf8ParseError("utf-16le".to_string()))
    );
    assert_eq!(
        accept_decoded("l".to_string(), "t".to_string(), true),
        Err(Error::Utf8ParseError("l".to_string()))
    );
    assert_eq!(accept_decoded("l".to_string(), "t".to_string(), false), Ok("t".to_string()));
}

#[test]
fn byte_order_mark_decides_the_encoding_and_is_left_out() {
    assert_eq!(decode_body("iso-8859-1", &[0xef, 0xbb, 0xbf, 0xc3, 0xa9]), Ok("é".to_string()));
    assert_eq!(decode_body("utf-8", &[0xff, 0xfe, 0x68, 0x00]), Ok("h".to_string()));
}

#[test]
fn cached_text_follows_the_response_content_type() {
    let latin = answer(Some("text/plain; charset=iso-8859-1"));
    assert_eq!(latin.cached_text(&[0x67, 0x72, 0xfc, 0xdf]), Ok("grüß".to_string()));
    assert_eq!(latin.cached_text_with_charset("utf-8", &[0xfc]), Ok("ü".to_string()));
    let plain = answer(Some("text/plain"));
    assert_eq!(plain.cached_text("grüß".as_bytes()), Ok("grüß".to_string()));
    assert_eq!(plain.cached_text(&[0xfc]), Err(Error::Utf8ParseError("utf-8".to_string())));
    assert_eq!(plain.cached_text_with_charset("windows-1252", &[0xfc]), Ok("ü".to_string()));
    let bare = answer(None);
    assert_eq!(bare.cached_text(b"abc"), Ok("abc".to_string()));
    assert_eq!(bare.cached_text_with_charset("iso-8859-1", &[0xfc]), Ok("ü".to_string()));
}
