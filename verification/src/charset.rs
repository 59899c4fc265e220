//! Turning the bytes of a response body into text, in the encoding that the
//! response's content type names.

use crate::error::Error;
use vstd::prelude::*;

verus! {

/// The greatest number of bytes that can be decoded at once: the decoder
/// sets aside up to three bytes of text, and a few more, for each byte it reads.
pub open spec fn max_decodable() -> int {
    (usize::MAX as int) / 8
}

/// Whether a body of `len` bytes can be decoded at once.
pub fn can_decode(len: usize) -> (fits: bool)
    ensures
        fits == (len <= max_decodable()),
{
    len <= usize::MAX / 8
}

/// The value of the `charset` parameter of a content type, as the `mime`
/// crate reads it: `None` where the text is no media type or has no such
/// parameter.
pub uninterp spec fn charset_param(content_type: Seq<char>) -> Option<Seq<char>>;

/// The text that `bytes` decode to in the encoding that `label` names, and
/// whether malformed input was met and replaced, as `encoding_rs` decodes
/// them; `None` where `label` names no encoding.
pub uninterp spec fn label_decoded(label: Seq<u8>, bytes: Seq<u8>) -> Option<(Seq<char>, bool)>;

/// The text that `bytes` decode to as UTF-8, and whether malformed input was
/// met and replaced, as `encoding_rs` decodes them.
pub uninterp spec fn utf8_decoded(bytes: Seq<u8>) -> (Seq<char>, bool);

/// Parses `content_type` with `mime::Mime::from_str` and reads its `charset`
/// parameter with `mime::Mime::get_param`.
#[verifier::external_body]
fn mime_charset(content_type: &str) -> (charset: Option<String>)
    ensures
        match charset {
            Some(name) => charset_param(content_type@) == Some(name@),
            None => charset_param(content_type@) is None,
        },
{
    match content_type.parse::<mime::Mime>() {
        Ok(parsed) => match parsed.get_param("charset") {
            Some(name) => Some(name.as_str().to_owned()),
            None => None,
        },
        Err(_) => None,
    }
}

/// Looks `label` up with `encoding_rs::Encoding::for_label` and decodes
/// `bytes` with `encoding_rs::Encoding::decode`. The decoder gives up on
/// inputs for which it cannot size its buffer; those are left out.
#[verifier::external_body]
fn decode_labelled(label: &[u8], bytes: &[u8]) -> (decoded: Option<(String, bool)>)
    requires
        bytes.len() <= max_decodable(),
    ensures
        match decoded {
            Some((text, malformed)) => label_decoded(label@, bytes@) == Some((text@, malformed)),
            None => label_decoded(label@, bytes@) is None,
        },
{
    match encoding_rs::Encoding::for_label(label) {
        Some(encoding) => {
            let (text, _, malformed) = encoding.decode(bytes);
            Some((text.into_owned(), malformed))
        },
        None => None,
    }
}

/// Decodes `bytes` with `encoding_rs::Encoding::decode` on
/// `encoding_rs::UTF_8`, under the same limit on the input's length.
#[verifier::external_body]
fn decode_utf8(bytes: &[u8]) -> (decoded: (String, bool))
    requires
        bytes.len() <= max_decodable(),
    ensures
        (decoded.0@, decoded.1) == utf8_decoded(bytes@),
{
    let (text, _, malformed) = encoding_rs::UTF_8.decode(bytes);
    (text.into_owned(), malformed)
}

/// The label of the encoding to decode in: the content type's `charset`
/// where it has one, the default otherwise.
pub open spec fn chosen_label(charset: Option<Seq<char>>, default_encoding: Seq<char>) -> Seq<char> {
    match charset {
        Some(name) => name,
        None => default_encoding,
    }
}

/// The label of the encoding in which a body with the content type
/// `content_type` is decoded.
pub open spec fn label_for(content_type: Option<Seq<char>>, default_encoding: Seq<char>) -> Seq<
    char,
> {
    match content_type {
        Some(value) => chosen_label(charset_param(value), default_encoding),
        None => default_encoding,
    }
}

/// What `bytes` decode to under `label`: in the encoding that the label
/// names, or as UTF-8 where it names none.
pub open spec fn decoded_under(label: Seq<char>, bytes: Seq<u8>) -> (Seq<char>, bool) {
    match label_decoded(vstd::utf8::encode_utf8(label), bytes) {
        Some(decoded) => decoded,
        None => utf8_decoded(bytes),
    }
}

/// Picks the label of the encoding to decode in.
pub fn choose_label(charset: Option<String>, default_encoding: &str) -> (label: String)
    ensures
        label@ == chosen_label(
            match charset {
                Some(name) => Some(name@),
                None => None,
            },
            default_encoding@,
        ),
{
    match charset {
        Some(name) => name,
        None => default_encoding.to_owned(),
    }
}

/// Accepts decoded text only where nothing in the input was malformed;
/// otherwise the failure names the label that the input was decoded under.
pub fn accept_decoded(label: String, text: String, malformed: bool) -> (accepted: Result<
    String,
    Error,
>)
    ensures
        match accepted {
            Ok(t) => !malformed && t == text,
            Err(e) => malformed && e == Error::Utf8ParseError(label),
        },
{
    if malformed {
        Err(Error::Utf8ParseError(label))
    } else {
        Ok(text)
    }
}

/// The label of the encoding in which a body with the content type
/// `content_type` is decoded.
pub fn encoding_label(content_type: Option<&str>, default_encoding: &str) -> (label: String)
    ensures
        label@ == label_for(
            match content_type {
                Some(value) => Some(value@),
                None => None,
            },
            default_encoding@,
        ),
{
    match content_type {
        Some(value) => choose_label(mime_charset(value), default_encoding),
        None => default_encoding.to_owned(),
    }
}

/// Decodes a body under the label of an encoding. A label that names no
/// encoding stands for UTF-8. Malformed input is an error.
pub fn decode_body(label: &str, body: &[u8]) -> (text: Result<String, Error>)
    requires
        body.len() <= max_decodable(),
    ensures
        match text {
            Ok(t) => decoded_under(label@, body@) == (t@, false),
            Err(Error::Utf8ParseError(under)) => decoded_under(label@, body@).1 && under@
                == label@,
            Err(_) => false,
        },
{
    let (decoded, malformed) = match decode_labelled(label.as_bytes(), body) {
        Some(known) => known,
        None => decode_utf8(body),
    };
    accept_decoded(label.to_owned(), decoded, malformed)
}

} // verus!
