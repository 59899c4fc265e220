//! Resolving the relative links of a catalog against the URL it was read from.

use crate::error::Error;
use vstd::prelude::*;

verus! {

/// The error of the `url` crate's parser.
#[verifier::external_type_specification]
#[verifier::external_body]
pub struct ExParseError(url::ParseError);

/// The text of the URL that `reference` denotes when it is read relative to
/// the absolute URL `base`, as `url::Url::join` resolves it on the URL that
/// `url::Url::parse` makes of `base`; `None` where either of the two refuses
/// its input.
pub uninterp spec fn resolved_url(base: Seq<char>, reference: Seq<char>) -> Option<Seq<char>>;

/// `url::Url::parse` on `base`, then `url::Url::join` with `reference`: the
/// serialization of the resulting URL, or the parser's error.
#[verifier::external_body]
fn url_join(base: &str, reference: &str) -> (joined: Result<String, url::ParseError>)
    ensures
        match joined {
            Ok(text) => resolved_url(base@, reference@) == Some(text@),
            Err(_) => resolved_url(base@, reference@) is None,
        },
{
    let parsed = url::Url::parse(base)?;
    let target = parsed.join(reference)?;
    Ok(String::from(target))
}

/// The description that `url::ParseError` gives of itself through `Display`.
#[verifier::external_body]
fn parse_error_text(e: &url::ParseError) -> (text: String) {
    format!("{}", e)
}

/// Resolves `reference` against the absolute URL `base`, as the `url` crate
/// does. Fails with `InvalidUrl` where `base` is no absolute URL or
/// `reference` cannot be resolved against it.
pub fn join_url(base: &str, reference: &str) -> (joined: Result<String, Error>)
    ensures
        match joined {
            Ok(text) => resolved_url(base@, reference@) == Some(text@),
            Err(e) => resolved_url(base@, reference@) is None && e is InvalidUrl,
        },
{
    match url_join(base, reference) {
        Ok(text) => Ok(text),
        Err(e) => Err(Error::InvalidUrl(parse_error_text(&e))),
    }
}

} // verus!
