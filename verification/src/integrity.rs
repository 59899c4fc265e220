//! Checking a file against the checksum that the catalog gives for it.
//!
//! The caller reads the file; the library never sees more of it than the
//! piece at hand. A verification starts with `start_verification`, which
//! settles at once what can be settled without reading. Otherwise the caller
//! feeds the file's bytes piece by piece to the `FileVerifier` it got, and
//! ends with `finish`.

use crate::digest::{digest_hex, Md5Stream};
use crate::error::Error;
use crate::hex::{hex_char_at, hex_lower};
use crate::text::{ascii_lower, lower_char, str_eq, to_ascii_lower};
use vstd::prelude::*;

verus! {

/// The one checksum algorithm that the verifier knows.
pub const MD5: &'static str = "md5";

/// What a verification found.
#[derive(Debug, Clone, PartialEq, Eq)]
pub enum VerificationOutcome {
    /// The file's digest is the expected one.
    Valid,
    /// The file's digest was computed and is another than the expected one.
    DigestMismatch { expected: String, actual: String },
    /// There is no such file.
    Missing,
    /// The checksum algorithm asked for is not known; holds its name.
    UnsupportedAlgorithm(String),
}

/// What a verification found, as a mathematical value.
pub enum OutcomeView {
    Valid,
    DigestMismatch { expected: Seq<char>, actual: Seq<char> },
    Missing,
    UnsupportedAlgorithm(Seq<char>),
}

impl View for VerificationOutcome {
    type V = OutcomeView;

    open spec fn view(&self) -> OutcomeView {
        match *self {
            VerificationOutcome::Valid => OutcomeView::Valid,
            VerificationOutcome::DigestMismatch { expected, actual } => OutcomeView::DigestMismatch {
                expected: expected@,
                actual: actual@,
            },
            VerificationOutcome::Missing => OutcomeView::Missing,
            VerificationOutcome::UnsupportedAlgorithm(name) => OutcomeView::UnsupportedAlgorithm(
                name@,
            ),
        }
    }
}

/// The verdict on a file whose digest, in lower-case hexadecimal, is
/// `actual`: valid where the expected checksum is the same text once its
/// letters are made lower-case; a mismatch that reports both otherwise.
pub open spec fn verdict_of(expected: Seq<char>, actual: Seq<char>) -> OutcomeView {
    if ascii_lower(expected) == actual {
        OutcomeView::Valid
    } else {
        OutcomeView::DigestMismatch { expected, actual }
    }
}

/// What can be said before any byte is read: a file that is not there is
/// missing, whatever algorithm was asked for; for a file that is there, an
/// algorithm other than `md5` is unsupported. `None`: the file must be read.
pub open spec fn settled_unread(exists: bool, algorithm: Seq<char>) -> Option<OutcomeView> {
    if !exists {
        Some(OutcomeView::Missing)
    } else if algorithm != MD5@ {
        Some(OutcomeView::UnsupportedAlgorithm(algorithm))
    } else {
        None
    }
}

/// The outcome of verifying a file with the content `content` (`None`:
/// there is no such file) against the checksum `expected` of the algorithm
/// `algorithm`.
pub open spec fn outcome_of(content: Option<Seq<u8>>, expected: Seq<char>, algorithm: Seq<char>)
    -> OutcomeView {
    match settled_unread(content is Some, algorithm) {
        Some(outcome) => outcome,
        None => verdict_of(expected, digest_hex(content->0)),
    }
}

/// Compares an expected checksum with the digest that was computed.
pub fn verdict(expected: &str, actual: String) -> (outcome: VerificationOutcome)
    ensures
        outcome@ == verdict_of(expected@, actual@),
{
    let normal = to_ascii_lower(expected);
    if str_eq(normal.as_str(), actual.as_str()) {
        VerificationOutcome::Valid
    } else {
        VerificationOutcome::DigestMismatch { expected: expected.to_owned(), actual }
    }
}

/// A verification that reads: the digest of the bytes seen so far.
pub struct FileVerifier {
    stream: Md5Stream,
}

impl FileVerifier {
    /// The bytes fed in so far.
    pub closed spec fn seen(&self) -> Seq<u8> {
        self.stream.input()
    }

    /// Feeds the next piece of the file. The result is the number of bytes
    /// by which the caller's progress display advances.
    pub fn update(&mut self, chunk: &[u8]) -> (advance: u64)
        ensures
            final(self).seen() == old(self).seen() + chunk@,
            advance == chunk@.len(),
    {
        self.stream.update(chunk);
        chunk.len() as u64
    }

    /// Ends the verification of a file whose whole content has been fed in.
    pub fn finish(self, expected: &str) -> (outcome: VerificationOutcome)
        ensures
            outcome@ == verdict_of(expected@, digest_hex(self.seen())),
    {
        verdict(expected, self.stream.finish())
    }
}

/// How a verification starts.
pub enum Verification {
    /// The outcome is known without reading the file.
    Settled(VerificationOutcome),
    /// The file is to be read and fed to the verifier.
    Reading(FileVerifier),
}

/// Starts the verification of a file. `exists` says whether the file is
/// there; `algorithm` names the checksum algorithm.
///
/// A missing file and an unknown algorithm are settled here, so that the
/// caller never opens or reads a file for them.
pub fn start_verification(exists: bool, algorithm: &str) -> (start: Verification)
    ensures
        match start {
            Verification::Settled(outcome) => settled_unread(exists, algorithm@) == Some(
                outcome@,
            ),
            Verification::Reading(verifier) => settled_unread(exists, algorithm@) is None
                && verifier.seen() == Seq::<u8>::empty(),
        },
{
    if !exists {
        Verification::Settled(VerificationOutcome::Missing)
    } else if !str_eq(algorithm, MD5) {
        Verification::Settled(VerificationOutcome::UnsupportedAlgorithm(algorithm.to_owned()))
    } else {
        Verification::Reading(FileVerifier { stream: Md5Stream::new() })
    }
}

/// Verifies a file whose content is at hand as a whole. `None` stands for a
/// file that is not there.
pub fn verify_content(content: Option<&[u8]>, expected: &str, algorithm: &str) -> (outcome:
    VerificationOutcome)
    ensures
        outcome@ == outcome_of(
            match content {
                Some(bytes) => Some(bytes@),
                None => None,
            },
            expected@,
            algorithm@,
        ),
{
    match start_verification(content.is_some(), algorithm) {
        Verification::Settled(outcome) => outcome,
        Verification::Reading(mut verifier) => {
            let bytes = content.unwrap();
            verifier.update(bytes);
            assert(Seq::<u8>::empty() + bytes@ =~= bytes@);
            verifier.finish(expected)
        },
    }
}

/// The failure that an outcome stands for, if it stands for one. `file`
/// names the file that was verified, `cktype` the algorithm.
pub open spec fn failure_of(outcome: OutcomeView, file: Seq<char>, cktype: Seq<char>) -> Option<
    ErrorView,
> {
    match outcome {
        OutcomeView::Valid => None,
        OutcomeView::DigestMismatch { expected, actual } => Some(
            ErrorView::FileDigestInvalid { file, cktype, expected, actual },
        ),
        OutcomeView::Missing => Some(ErrorView::FileNotExist(file)),
        OutcomeView::UnsupportedAlgorithm(name) => Some(ErrorView::UnsupportedChecksumType(name)),
    }
}

/// The failures of a verification, as mathematical values.
pub enum ErrorView {
    FileDigestInvalid { file: Seq<char>, cktype: Seq<char>, expected: Seq<char>, actual: Seq<char> },
    FileNotExist(Seq<char>),
    UnsupportedChecksumType(Seq<char>),
}

/// The view of a failure of a verification; `None` for any other error.
pub open spec fn failure_view(e: Error) -> Option<ErrorView> {
    match e {
        Error::FileDigestInvalid { file, cktype, expected, actual } => Some(
            ErrorView::FileDigestInvalid {
                file: file@,
                cktype: cktype@,
                expected: expected@,
                actual: actual@,
            },
        ),
        Error::FileNotExist(file) => Some(ErrorView::FileNotExist(file@)),
        Error::UnsupportedChecksumType(name) => Some(ErrorView::UnsupportedChecksumType(name@)),
        _ => None,
    }
}

impl VerificationOutcome {
    /// The outcome as success or failure: `Ok` for a valid file, and for
    /// each other outcome the error that reports it.
    pub fn into_result(self, file: &str, cktype: &str) -> (result: Result<(), Error>)
        ensures
            match result {
                Ok(_) => failure_of(self@, file@, cktype@) is None,
                Err(e) => failure_view(e) is Some && failure_view(e) == failure_of(
                    self@,
                    file@,
                    cktype@,
                ),
            },
    {
        match self {
            VerificationOutcome::Valid => Ok(()),
            VerificationOutcome::DigestMismatch { expected, actual } => Err(
                Error::FileDigestInvalid {
                    file: file.to_owned(),
                    cktype: cktype.to_owned(),
                    expected,
                    actual,
                },
            ),
            VerificationOutcome::Missing => Err(Error::FileNotExist(file.to_owned())),
            VerificationOutcome::UnsupportedAlgorithm(name) => Err(
                Error::UnsupportedChecksumType(name),
            ),
        }
    }
}

/// Hexadecimal text has no upper-case letter: making it lower-case changes
/// nothing.
pub proof fn lemma_hex_is_lower_case(bytes: Seq<u8>)
    ensures
        ascii_lower(hex_lower(bytes)) == hex_lower(bytes),
{
    assert forall|i: int| 0 <= i < hex_lower(bytes).len() implies lower_char(hex_lower(bytes)[i])
        == hex_lower(bytes)[i] by {
        assert(hex_lower(bytes)[i] == hex_char_at(bytes, i));
    }
    assert(ascii_lower(hex_lower(bytes)) =~= hex_lower(bytes));
}

/// A file is valid exactly where the expected checksum, with its letters
/// made lower-case, is the file's digest; any other file that is there and
/// is checked with `md5` is a mismatch that reports the expected checksum
/// as it was given and the digest as it was computed.
pub proof fn law_valid_exactly_on_the_digest(content: Seq<u8>, expected: Seq<char>)
    ensures
        outcome_of(Some(content), expected, MD5@) == (if ascii_lower(expected) == digest_hex(
            content,
        ) {
            OutcomeView::Valid
        } else {
            OutcomeView::DigestMismatch { expected, actual: digest_hex(content) }
        }),
{
}

/// A file whose digest is the expected checksum is valid.
pub proof fn law_matching_digest_is_valid(content: Seq<u8>)
    ensures
        outcome_of(Some(content), digest_hex(content), MD5@) == OutcomeView::Valid,
{
    lemma_hex_is_lower_case(crate::digest::md5_digest(content));
}

/// A file that is not there is missing, whatever checksum and algorithm
/// were given, and nothing is read to find that out.
pub proof fn law_absent_file_is_missing(expected: Seq<char>, algorithm: Seq<char>)
    ensures
        outcome_of(None, expected, algorithm) == OutcomeView::Missing,
        settled_unread(false, algorithm) == Some(OutcomeView::Missing),
{
}

/// For a file that is there, an algorithm other than `md5` is unsupported,
/// whatever the file holds, and nothing is read to find that out.
pub proof fn law_unknown_algorithm_is_unsupported(
    content: Seq<u8>,
    expected: Seq<char>,
    algorithm: Seq<char>,
)
    requires
        algorithm != MD5@,
    ensures
        outcome_of(Some(content), expected, algorithm) == OutcomeView::UnsupportedAlgorithm(
            algorithm,
        ),
        settled_unread(true, algorithm) == Some(OutcomeView::UnsupportedAlgorithm(algorithm)),
{
}

} // verus!
