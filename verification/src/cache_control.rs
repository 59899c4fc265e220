//! What a response's `Cache-Control` header says about reusing the response.
//!
//! Only the first directive of the header is read: the text before the first
//! comma, without the blanks around it and without regard to the case of its
//! letters. `no-store` and `no-cache` are understood, and `max-age=` followed
//! by decimal digits. Anything else is taken as an order to revalidate.

use crate::text::{
    all_digits, ascii_lower, chars_of, decimal_value, digits_only, parse_digits, str_eq, text_of,
    to_ascii_lower,
};
use crate::time::Timestamp;
use vstd::prelude::*;

verus! {

/// How a cached response may be reused.
#[derive(Debug, Clone, Copy, PartialEq, Eq, Structural)]
pub enum CacheControlPolicy {
    /// The cached copy is never to be trusted.
    NoStore,
    /// The cached copy may be kept, and is confirmed with the server each time.
    NoCache,
    /// The server called the response good until this point in time.
    Expires(Timestamp),
    /// Nothing usable was said: the cached copy is confirmed with the server.
    MustRevalidate,
}

/// A space or a tabulator.
pub open spec fn is_blank(c: char) -> bool {
    c == ' ' || c == '\t'
}

/// The number of characters before the first comma, or of all characters
/// where there is no comma.
pub open spec fn until_comma(text: Seq<char>) -> nat
    decreases text.len(),
{
    if text.len() == 0 || text[0] == ',' {
        0
    } else {
        1 + until_comma(text.drop_first())
    }
}

/// The number of blanks that a text starts with.
pub open spec fn leading_blanks(text: Seq<char>) -> nat
    decreases text.len(),
{
    if text.len() > 0 && is_blank(text[0]) {
        1 + leading_blanks(text.drop_first())
    } else {
        0
    }
}

/// The number of blanks that a text ends with.
pub open spec fn trailing_blanks(text: Seq<char>) -> nat
    decreases text.len(),
{
    if text.len() > 0 && is_blank(text.last()) {
        1 + trailing_blanks(text.drop_last())
    } else {
        0
    }
}

/// The first directive of a header value: what stands before the first
/// comma, without the blanks before and after it.
pub open spec fn first_directive(value: Seq<char>) -> Seq<char> {
    let head = value.take(until_comma(value) as int);
    let rest = head.skip(leading_blanks(head) as int);
    rest.take(rest.len() - trailing_blanks(rest))
}

/// Whether a directive is `max-age=` followed by at least one digit and by
/// digits only.
pub open spec fn is_max_age(directive: Seq<char>) -> bool {
    &&& directive.len() > 8
    &&& directive.take(8) == "max-age="@
    &&& all_digits(directive.skip(8))
}

/// The policy that the header value `value` states, for a response that
/// arrived at `now`.
///
/// `max-age=N` makes the response good until `N` seconds after `now`; where
/// `N` or that point in time is more than the time stamp can hold, the
/// directive is not understood.
pub open spec fn policy_of(value: Seq<char>, now: Timestamp) -> CacheControlPolicy {
    let directive = first_directive(ascii_lower(value));
    if directive == "no-store"@ {
        CacheControlPolicy::NoStore
    } else if directive == "no-cache"@ {
        CacheControlPolicy::NoCache
    } else if is_max_age(directive) {
        match now.plus_seconds(decimal_value(directive.skip(8)) as int) {
            Some(until) => CacheControlPolicy::Expires(until),
            None => CacheControlPolicy::MustRevalidate,
        }
    } else {
        CacheControlPolicy::MustRevalidate
    }
}

proof fn lemma_until_comma(text: Seq<char>, k: int)
    requires
        0 <= k <= text.len(),
        forall|j: int| 0 <= j < k ==> text[j] != ',',
        k == text.len() || text[k] == ',',
    ensures
        until_comma(text) == k,
    decreases k,
{
    if k > 0 {
        let rest = text.drop_first();
        assert forall|j: int| 0 <= j < k - 1 implies rest[j] != ',' by {
            assert(rest[j] == text[j + 1]);
        }
        lemma_until_comma(rest, k - 1);
    }
}

proof fn lemma_leading_blanks(text: Seq<char>, k: int)
    requires
        0 <= k <= text.len(),
        forall|j: int| 0 <= j < k ==> is_blank(text[j]),
        k == text.len() || !is_blank(text[k]),
    ensures
        leading_blanks(text) == k,
    decreases k,
{
    if k > 0 {
        let rest = text.drop_first();
        assert forall|j: int| 0 <= j < k - 1 implies is_blank(rest[j]) by {
            assert(rest[j] == text[j + 1]);
        }
        lemma_leading_blanks(rest, k - 1);
    }
}

proof fn lemma_trailing_blanks(text: Seq<char>, k: int)
    requires
        0 <= k <= text.len(),
        forall|j: int| text.len() - k <= j < text.len() ==> is_blank(text[j]),
        k == text.len() || !is_blank(text[text.len() - k - 1]),
    ensures
        trailing_blanks(text) == k,
    decreases k,
{
    if k > 0 {
        let rest = text.drop_last();
        assert forall|j: int| rest.len() - (k - 1) <= j < rest.len() implies is_blank(rest[j]) by {
            assert(rest[j] == text[j]);
        }
        lemma_trailing_blanks(rest, k - 1);
    }
}

/// Reads the policy that a `Cache-Control` header value states, for a
/// response that arrived at `now`.
pub fn parse_cache_control(value: &str, now: Timestamp) -> (policy: CacheControlPolicy)
    ensures
        policy == policy_of(value@, now),
{
    let lower = to_ascii_lower(value);
    let chars = chars_of(lower.as_str());
    let ghost text = chars@;
    let mut end: usize = 0;
    while end < chars.len() && chars[end] != ','
        invariant
            end <= chars.len(),
            forall|j: int| 0 <= j < end ==> chars@[j] != ',',
        decreases chars.len() - end,
    {
        end = end + 1;
    }
    let ghost head = text.take(end as int);
    let mut from: usize = 0;
    while from < end && (chars[from] == ' ' || chars[from] == '\t')
        invariant
            from <= end <= chars.len(),
            forall|j: int| 0 <= j < from ==> is_blank(chars@[j]),
        decreases end - from,
    {
        from = from + 1;
    }
    let mut to: usize = end;
    while to > from && (chars[to - 1] == ' ' || chars[to - 1] == '\t')
        invariant
            from <= to <= end <= chars.len(),
            forall|j: int| to <= j < end ==> is_blank(chars@[j]),
        decreases to - from,
    {
        to = to - 1;
    }
    let ghost rest = head.skip(from as int);
    let ghost directive = text.subrange(from as int, to as int);
    proof {
        lemma_until_comma(text, end as int);
        lemma_leading_blanks(head, from as int);
        assert forall|j: int| rest.len() - (end - to) <= j < rest.len() implies is_blank(
            rest[j],
        ) by {
            assert(rest[j] == text[j + from]);
        }
        lemma_trailing_blanks(rest, end - to);
        assert(rest.take(rest.len() - (end - to)) =~= directive);
        assert(first_directive(text) == directive);
    }
    let word = text_of(&chars, from, to);
    if str_eq(word.as_str(), "no-store") {
        return CacheControlPolicy::NoStore;
    }
    if str_eq(word.as_str(), "no-cache") {
        return CacheControlPolicy::NoCache;
    }
    if to - from <= 8 {
        return CacheControlPolicy::MustRevalidate;
    }
    let prefix = text_of(&chars, from, from + 8);
    assert(directive.take(8) =~= text.subrange(from as int, from + 8));
    if !str_eq(prefix.as_str(), "max-age=") {
        return CacheControlPolicy::MustRevalidate;
    }
    let ghost digits = text.subrange(from + 8, to as int);
    assert(directive.skip(8) =~= digits);
    if !digits_only(&chars, from + 8, to) {
        return CacheControlPolicy::MustRevalidate;
    }
    match parse_digits(&chars, from + 8, to, 0x7fff_ffff_ffff_ffffu64) {
        Some(seconds) => {
            let until: i128 = now.secs as i128 + seconds as i128;
            if until <= 0x7fff_ffff_ffff_ffffi128 {
                CacheControlPolicy::Expires(Timestamp { secs: until as i64, nanos: now.nanos })
            } else {
                CacheControlPolicy::MustRevalidate
            }
        },
        None => CacheControlPolicy::MustRevalidate,
    }
}

} // verus!
