//! MD5 digests, computed incrementally by the `md5` crate.

use crate::hex::{hex_lower, is_hex_char, lemma_hex_lower_chars, to_hex_lower};
use vstd::prelude::*;

verus! {

/// The digest state of the `md5` crate. Nothing of its inside is visible here.
#[verifier::external_type_specification]
#[verifier::external_body]
pub struct ExContext(md5::Context);

/// The sixteen-byte MD5 digest of `data`, as `md5::Context::compute` gives it
/// for a context that has consumed exactly `data`.
pub uninterp spec fn md5_digest(data: Seq<u8>) -> Seq<u8>;

/// What `context` holds: the bytes that it has consumed since it was made,
/// in the order in which they were handed to it.
pub uninterp spec fn consumed(context: md5::Context) -> Seq<u8>;

/// `md5::Context::new`: a context that has consumed nothing yet.
#[verifier::external_body]
fn context_new() -> (context: md5::Context)
    ensures
        consumed(context) == Seq::<u8>::empty(),
{
    md5::Context::new()
}

/// `md5::Context::consume`: the context takes in `data` after all it has
/// consumed before. How the input is cut into calls makes no difference to it.
#[verifier::external_body]
fn context_consume(context: &mut md5::Context, data: &[u8])
    ensures
        consumed(*final(context)) == consumed(*old(context)) + data@,
{
    context.consume(data)
}

/// `md5::Context::compute`: the digest of everything the context has consumed.
#[verifier::external_body]
fn context_compute(context: md5::Context) -> (digest: [u8; 16])
    ensures
        digest@ == md5_digest(consumed(context)),
{
    context.compute().0
}

/// The MD5 digest of `data` as 32 lower-case hexadecimal digits.
pub open spec fn digest_hex(data: Seq<u8>) -> Seq<char> {
    hex_lower(md5_digest(data))
}

/// Whether a text has the form of a digest: 32 hexadecimal digits in lower
/// case.
pub open spec fn is_digest_text(text: Seq<char>) -> bool {
    &&& text.len() == 32
    &&& forall|i: int| 0 <= i < text.len() ==> is_hex_char(#[trigger] text[i])
}

/// An MD5 computation in progress: input arrives in pieces of any size, and
/// the digest is that of the pieces laid end to end.
pub struct Md5Stream {
    context: md5::Context,
}

impl Md5Stream {
    /// Everything fed in so far.
    pub closed spec fn input(&self) -> Seq<u8> {
        consumed(self.context)
    }

    /// A computation that has seen no input.
    pub fn new() -> (stream: Md5Stream)
        ensures
            stream.input() == Seq::<u8>::empty(),
    {
        Md5Stream { context: context_new() }
    }

    /// Feeds the next piece of input.
    pub fn update(&mut self, chunk: &[u8])
        ensures
            final(self).input() == old(self).input() + chunk@,
    {
        context_consume(&mut self.context, chunk);
    }

    /// Ends the computation and gives the digest as hexadecimal text: 32
    /// hexadecimal digits.
    pub fn finish(self) -> (text: String)
        ensures
            text@ == digest_hex(self.input()),
            is_digest_text(text@),
    {
        let digest = context_compute(self.context);
        proof {
            lemma_hex_lower_chars(digest@);
        }
        to_hex_lower(digest.as_slice())
    }
}

/// The hexadecimal MD5 digest of a byte string held in memory.
pub fn md5_hex(data: &[u8]) -> (text: String)
    ensures
        text@ == digest_hex(data@),
        is_digest_text(text@),
{
    let mut stream = Md5Stream::new();
    stream.update(data);
    assert(Seq::<u8>::empty() + data@ =~= data@);
    stream.finish()
}

} // verus!
