//! What can go wrong, as plain values.

use crate::lookup::views;
use crate::text::{decimal_digits, decimal_text};
use vstd::prelude::*;

verus! {

/// A failure of the library or of the work that its caller does for it.
///
/// Failures that arise outside the library (in the file system, in the
/// transport, in a decoder) are carried as the text that describes them.
#[derive(Debug, Clone, PartialEq, Eq)]
pub enum Error {
    /// Bytes that are no text in the encoding they were read in; holds the
    /// label of that encoding.
    Utf8ParseError(String),
    /// The logger could not be started.
    LogError(String),
    /// The file system refused a read or a write.
    IoError(String),
    /// A stored record or a catalog is no valid JSON of the expected shape.
    JsonError(String),
    /// The request did not reach the server, or no response came back.
    HttpError(String),
    /// The server answered with a status that is neither a success nor
    /// "not modified"; holds the status code.
    HttpStatusError(u16),
    /// A text that is no URL, or that cannot be resolved against its base.
    InvalidUrl(String),
    /// No product category was asked for; holds the legal values.
    MissingProductCategory(Vec<String>),
    /// The product category asked for does not exist; holds it and the legal values.
    InvalidProductCategory(String, Vec<String>),
    /// No target system was asked for; holds the legal values.
    MissingTargetOS(Vec<String>),
    /// The target system asked for does not exist; holds it and the legal values.
    InvalidTargetOS(String, Vec<String>),
    /// No release was asked for; holds the legal values.
    MissingRelease(Vec<String>),
    /// The release asked for does not exist; holds it and the legal values.
    InvalidRelease(String, Vec<String>),
    /// The release names no component catalog; holds the release's title.
    L2RepoReleaseMissingUrl(String),
    /// No section has this identifier.
    InvalidSection(String),
    /// No group has this identifier.
    InvalidGroup(String),
    /// No component has this identifier.
    InvalidComponent(String),
    /// The checksum algorithm is not one the verifier knows.
    UnsupportedChecksumType(String),
    /// The file to verify does not exist.
    FileNotExist(String),
    /// The file's digest is not the expected one.
    FileDigestInvalid { file: String, cktype: String, expected: String, actual: String },
}

/// The standard reason phrase of a status code, as the `http` crate knows
/// it: `None` for a number that is no status code, and for a status code
/// without a standard phrase.
pub uninterp spec fn reason_phrase(code: u16) -> Option<Seq<char>>;

/// `http::StatusCode::from_u16`, then `http::StatusCode::canonical_reason`.
#[verifier::external_body]
fn canonical_reason(code: u16) -> (reason: Option<&'static str>)
    ensures
        match reason {
            Some(phrase) => reason_phrase(code) == Some(phrase@),
            None => reason_phrase(code) is None,
        },
{
    match http::StatusCode::from_u16(code) {
        Ok(status) => status.canonical_reason(),
        Err(_) => None,
    }
}

/// Each text of a list after a tabulator, one after the other.
pub open spec fn tabbed(items: Seq<Seq<char>>) -> Seq<char>
    decreases items.len(),
{
    if items.len() == 0 {
        Seq::empty()
    } else {
        tabbed(items.drop_last()) + "\t"@ + items.last()
    }
}

/// A status as it is shown: its number, and its reason phrase where it has
/// a standard one.
pub open spec fn status_text(code: u16, phrase: Option<Seq<char>>) -> Seq<char> {
    decimal_digits(code as nat) + " "@ + match phrase {
        Some(words) => words,
        None => "<unknown status code>"@,
    }
}

/// Appends each text of `items` to `text`, after a tabulator.
fn push_tabbed(text: &mut String, items: &Vec<String>)
    ensures
        final(text)@ == old(text)@ + tabbed(views(items@)),
{
    let ghost all = views(items@);
    let mut i: usize = 0;
    assert(all.take(0) =~= Seq::<Seq<char>>::empty());
    assert(text@ + tabbed(all.take(0)) =~= text@);
    while i < items.len()
        invariant
            i <= items.len(),
            all == views(items@),
            text@ == old(text)@ + tabbed(all.take(i as int)),
        decreases items.len() - i,
    {
        text.append("\t");
        text.append(items[i].as_str());
        proof {
            let grown = all.take(i as int + 1);
            assert(grown.drop_last() =~= all.take(i as int));
            assert(grown.last() == items@[i as int]@);
            assert(text@ =~= old(text)@ + tabbed(grown));
        }
        i = i + 1;
    }
    assert(all.take(i as int) =~= all);
}

/// Shows a status: its number, then its reason phrase or a note that it
/// has none.
pub fn show_status(code: u16, phrase: Option<&str>) -> (text: String)
    ensures
        text@ == status_text(
            code,
            match phrase {
                Some(words) => Some(words@),
                None => None,
            },
        ),
{
    let mut text = decimal_text(code as u64);
    text.append(" ");
    match phrase {
        Some(words) => text.append(words),
        None => text.append("<unknown status code>"),
    }
    text
}

impl Error {
    /// The line that reports the error to the user.
    pub open spec fn message(&self) -> Seq<char> {
        match *self {
            Error::Utf8ParseError(label) => "ERROR: malformed text in the encoding "@ + label@,
            Error::LogError(text) => "ERROR: "@ + text@,
            Error::IoError(text) => "ERROR: "@ + text@,
            Error::JsonError(text) => "ERROR: "@ + text@,
            Error::HttpError(text) => "ERROR: "@ + text@,
            Error::HttpStatusError(code) => "ERROR: "@ + status_text(code, reason_phrase(code)),
            Error::InvalidUrl(text) => "ERROR: "@ + text@,
            Error::MissingProductCategory(legal) =>
                "ERROR: Required option --product-category is missing. Legal values:"@ + tabbed(
                    views(legal@),
                ),
            Error::InvalidProductCategory(name, legal) => "ERROR: Invalid value "@ + name@
                + " for option --product-category. Legal values:"@ + tabbed(views(legal@)),
            Error::MissingTargetOS(legal) =>
                "ERROR: Required option --target-os is missing. Legal values:"@ + tabbed(
                    views(legal@),
                ),
            Error::InvalidTargetOS(name, legal) => "ERROR: Invalid value "@ + name@
                + " for option --target-os. Legal values:"@ + tabbed(views(legal@)),
            Error::MissingRelease(legal) =>
                "ERROR: Required option --release is missing. Legal values:"@ + tabbed(
                    views(legal@),
                ),
            Error::InvalidRelease(name, legal) => "ERROR: Invalid value "@ + name@
                + " for option --release. Legal values:"@ + tabbed(views(legal@)),
            Error::L2RepoReleaseMissingUrl(title) =>
                "ERROR: The L2 repo doesn't specify a URL for the requested release "@ + title@
                    + "."@,
            Error::InvalidSection(id) => "ERROR: Invalid section specified "@ + id@ + "."@,
            Error::InvalidGroup(id) => "ERROR: Invalid group specified "@ + id@ + "."@,
            Error::InvalidComponent(id) => "ERROR: Invalid component specified "@ + id@ + "."@,
            Error::UnsupportedChecksumType(name) =>
                "ERROR: Unsupported package checksum type specified "@ + name@ + "."@,
            Error::FileNotExist(file) => "ERROR: The specified file does not exist: "@ + file@,
            Error::FileDigestInvalid { file, cktype, expected, actual } =>
                "ERROR: The checksum for "@ + file@ + " was invalid "@ + cktype@ + "["@ + actual@
                    + " != "@ + expected@ + "]"@,
        }
    }

    /// The line that reports the error to the user.
    pub fn to_message(&self) -> (text: String)
        ensures
            text@ == self.message(),
    {
        match self {
            Error::Utf8ParseError(label) => {
                let mut text = "ERROR: malformed text in the encoding ".to_owned();
                text.append(label.as_str());
                text
            },
            Error::LogError(cause) => {
                let mut text = "ERROR: ".to_owned();
                text.append(cause.as_str());
                text
            },
            Error::IoError(cause) => {
                let mut text = "ERROR: ".to_owned();
                text.append(cause.as_str());
                text
            },
            Error::JsonError(cause) => {
                let mut text = "ERROR: ".to_owned();
                text.append(cause.as_str());
                text
            },
            Error::HttpError(cause) => {
                let mut text = "ERROR: ".to_owned();
                text.append(cause.as_str());
                text
            },
            Error::HttpStatusError(code) => {
                let mut text = "ERROR: ".to_owned();
                let status = show_status(*code, canonical_reason(*code));
                text.append(status.as_str());
                text
            },
            Error::InvalidUrl(cause) => {
                let mut text = "ERROR: ".to_owned();
                text.append(cause.as_str());
                text
            },
            Error::MissingProductCategory(legal) => {
                let mut text =
                    "ERROR: Required option --product-category is missing. Legal values:".to_owned();
                push_tabbed(&mut text, legal);
                text
            },
            Error::InvalidProductCategory(name, legal) => {
                let mut text = "ERROR: Invalid value ".to_owned();
                text.append(name.as_str());
                text.append(" for option --product-category. Legal values:");
                push_tabbed(&mut text, legal);
                text
            },
            Error::MissingTargetOS(legal) => {
                let mut text =
                    "ERROR: Required option --target-os is missing. Legal values:".to_owned();
                push_tabbed(&mut text, legal);
                text
            },
            Error::InvalidTargetOS(name, legal) => {
                let mut text = "ERROR: Invalid value ".to_owned();
                text.append(name.as_str());
                text.append(" for option --target-os. Legal values:");
                push_tabbed(&mut text, legal);
                text
            },
            Error::MissingRelease(legal) => {
                let mut text =
                    "ERROR: Required option --release is missing. Legal values:".to_owned();
                push_tabbed(&mut text, legal);
                text
            },
            Error::InvalidRelease(name, legal) => {
                let mut text = "ERROR: Invalid value ".to_owned();
                text.append(name.as_str());
                text.append(" for option --release. Legal values:");
                push_tabbed(&mut text, legal);
                text
            },
            Error::L2RepoReleaseMissingUrl(title) => {
                let mut text =
                    "ERROR: The L2 repo doesn't specify a URL for the requested release ".to_owned();
                text.append(title.as_str());
                text.append(".");
                text
            },
            Error::InvalidSection(id) => {
                let mut text = "ERROR: Invalid section specified ".to_owned();
                text.append(id.as_str());
                text.append(".");
                text
            },
            Error::InvalidGroup(id) => {
                let mut text = "ERROR: Invalid group specified ".to_owned();
                text.append(id.as_str());
                text.append(".");
                text
            },
            Error::InvalidComponent(id) => {
                let mut text = "ERROR: Invalid component specified ".to_owned();
                text.append(id.as_str());
                text.append(".");
                text
            },
            Error::UnsupportedChecksumType(name) => {
                let mut text = "ERROR: Unsupported package checksum type specified ".to_owned();
                text.append(name.as_str());
                text.append(".");
                text
            },
            Error::FileNotExist(file) => {
                let mut text = "ERROR: The specified file does not exist: ".to_owned();
                text.append(file.as_str());
                text
            },
            Error::FileDigestInvalid { file, cktype, expected, actual } => {
                let mut text = "ERROR: The checksum for ".to_owned();
                text.append(file.as_str());
                text.append(" was invalid ");
                text.append(cktype.as_str());
                text.append("[");
                text.append(actual.as_str());
                text.append(" != ");
                text.append(expected.as_str());
                text.append("]");
                text
            },
        }
    }
}

} // verus!
