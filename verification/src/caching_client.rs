//! The revalidating cache of HTTP responses: where an entry lives, what is
//! remembered of a response, which validators go out with the next request,
//! and what a response does to the entry.

use crate::cache::{join_path, joined_path};
use crate::cache_control::{parse_cache_control, policy_of, CacheControlPolicy};
use crate::charset::{decode_body, decoded_under, encoding_label, label_for, max_decodable};
use crate::digest::{digest_hex, is_digest_text, md5_digest, md5_hex};
use crate::error::Error;
use crate::headers::{
    copy_entries, distinct_names, entries_map, first_line_value, gather, gathered,
    lemma_entries_map_same, lemma_first_gathered_value, line_views, HeaderEntry,
};
use crate::hex::lemma_hex_lower_injective;
use crate::lookup::{keys_of, position, views};
use crate::text::{ascii_lower, read_number, str_eq, to_ascii_lower, written_number};
use crate::time::Timestamp;
use vstd::prelude::*;

verus! {

/// The name of the file that holds an entry's response body.
pub const DATA_FILE: &'static str = "data";

/// The name of the file that holds an entry's metadata record.
pub const METADATA_FILE: &'static str = "metadata";

/// The key under which the response to `url` is cached: the hexadecimal MD5
/// digest of the URL's text, taken as it is written.
pub open spec fn cache_key(url: Seq<char>) -> Seq<char> {
    digest_hex(vstd::utf8::encode_utf8(url))
}

/// The directory of the entry for `url` inside `cache_dir`.
pub open spec fn entry_dir(cache_dir: Seq<char>, url: Seq<char>) -> Seq<char> {
    joined_path(cache_dir, cache_key(url))
}

/// Two URLs have the same key exactly where their texts have the same MD5
/// digest.
pub proof fn law_same_key_same_digest(first: Seq<char>, second: Seq<char>)
    ensures
        cache_key(first) == cache_key(second) <==> md5_digest(vstd::utf8::encode_utf8(first))
            == md5_digest(vstd::utf8::encode_utf8(second)),
{
    if cache_key(first) == cache_key(second) {
        lemma_hex_lower_injective(
            md5_digest(vstd::utf8::encode_utf8(first)),
            md5_digest(vstd::utf8::encode_utf8(second)),
        );
    }
}

/// The key under which the response to `url` is cached. The same URL has
/// the same key on every call, in every run. The key is made of 32
/// hexadecimal digits, and so names a file or directory.
pub fn url_cache_key(url: &str) -> (key: String)
    ensures
        key@ == cache_key(url@),
        is_digest_text(key@),
{
    md5_hex(url.as_bytes())
}

/// The directory of the entry for `url` inside `cache_dir`.
pub fn url_cache_path(cache_dir: &str, url: &str) -> (path: String)
    ensures
        path@ == entry_dir(cache_dir@, url@),
{
    let key = url_cache_key(url);
    join_path(cache_dir, key.as_str())
}

/// The file that holds the metadata record of the entry for `url`.
pub fn url_metadata_cache_path(cache_dir: &str, url: &str) -> (path: String)
    ensures
        path@ == joined_path(entry_dir(cache_dir@, url@), METADATA_FILE@),
{
    let dir = url_cache_path(cache_dir, url);
    join_path(dir.as_str(), METADATA_FILE)
}

/// The file that holds the response body of the entry for `url`.
pub fn url_data_cache_path(cache_dir: &str, url: &str) -> (path: String)
    ensures
        path@ == joined_path(entry_dir(cache_dir@, url@), DATA_FILE@),
{
    let dir = url_cache_path(cache_dir, url);
    join_path(dir.as_str(), DATA_FILE)
}

/// Who may use a cached response: anyone, or only the user it was fetched for.
/// The cache treats both alike.
#[derive(Debug, Clone, Copy, PartialEq, Eq, Structural)]
pub enum CacheType {
    Public,
    Private,
}

/// The header under which a response names its entity tag.
pub const ETAG: &'static str = "etag";

/// The header under which a response says when its content last changed.
pub const LAST_MODIFIED: &'static str = "last-modified";

/// The header under which a response says how it may be reused.
pub const CACHE_CONTROL: &'static str = "cache-control";

/// What is remembered of the response that filled a cache entry.
#[derive(Debug, PartialEq, Eq)]
pub struct RequestMetadata {
    source: String,
    timestamp: Timestamp,
    response_headers: Vec<HeaderEntry>,
}

/// The metadata of a cache entry as a mathematical value.
pub struct MetadataView {
    /// The URL that the response came from.
    pub source: Seq<char>,
    /// When the response arrived.
    pub timestamp: Timestamp,
    /// The response's headers: each lower-case name with its values in order.
    pub headers: Map<Seq<char>, Seq<Seq<char>>>,
}

impl View for RequestMetadata {
    type V = MetadataView;

    closed spec fn view(&self) -> MetadataView {
        MetadataView {
            source: self.source@,
            timestamp: self.timestamp,
            headers: entries_map(self.response_headers@),
        }
    }
}

/// The first of the values that `headers` holds under `name`, if there is one.
pub open spec fn first_value(headers: Map<Seq<char>, Seq<Seq<char>>>, name: Seq<char>) -> Option<
    Seq<char>,
> {
    if headers.contains_key(name) && headers[name].len() > 0 {
        Some(headers[name][0])
    } else {
        None
    }
}

/// Whether a URL, a time and a list of header entries are the parts that
/// the record `metadata` is stored as.
pub open spec fn are_parts_of(
    metadata: MetadataView,
    source: Seq<char>,
    timestamp: Timestamp,
    entries: Seq<HeaderEntry>,
) -> bool {
    &&& distinct_names(entries)
    &&& source == metadata.source
    &&& timestamp == metadata.timestamp
    &&& entries_map(entries) == metadata.headers
}

/// A record that is put together from the parts of a record is that record.
pub proof fn law_parts_make_the_same_record(
    metadata: MetadataView,
    source: Seq<char>,
    timestamp: Timestamp,
    entries: Seq<HeaderEntry>,
)
    requires
        are_parts_of(metadata, source, timestamp, entries),
    ensures
        distinct_names(entries),
        (MetadataView { source, timestamp, headers: entries_map(entries) }) == metadata,
{
}

impl Clone for RequestMetadata {
    fn clone(&self) -> (copy: RequestMetadata)
        ensures
            copy@ == self@,
    {
        proof {
            use_type_invariant(self);
        }
        let entries = copy_entries(&self.response_headers);
        proof {
            lemma_entries_map_same(self.response_headers@, entries@);
        }
        RequestMetadata {
            source: self.source.clone(),
            timestamp: self.timestamp,
            response_headers: entries,
        }
    }
}

impl RequestMetadata {
    /// No header name stands twice in the record.
    #[verifier::type_invariant]
    spec fn wf(self) -> bool {
        distinct_names(self.response_headers@)
    }

    /// What is remembered of a response: the URL it came from, when it
    /// arrived, and its header lines gathered by lower-case name.
    pub fn from_response(url: &str, now: Timestamp, lines: &Vec<(String, String)>) -> (metadata:
        RequestMetadata)
        ensures
            metadata@ == (MetadataView {
                source: url@,
                timestamp: now,
                headers: gathered(line_views(lines@)),
            }),
    {
        RequestMetadata { source: url.to_owned(), timestamp: now, response_headers: gather(lines) }
    }

    /// A record put together from its stored parts. There is none where a
    /// header name stands twice among `entries`.
    pub fn from_parts(source: String, timestamp: Timestamp, entries: Vec<HeaderEntry>) -> (record:
        Option<RequestMetadata>)
        ensures
            match record {
                Some(metadata) => are_parts_of(metadata@, source@, timestamp, entries@),
                None => !distinct_names(entries@),
            },
    {
        let mut i: usize = 0;
        while i < entries.len()
            invariant
                i <= entries.len(),
                keys_of(entries@.take(i as int)).no_duplicates(),
            decreases entries.len() - i,
        {
            let ghost seen = keys_of(entries@.take(i as int));
            let ghost name = entries@[i as int].name@;
            let mut j: usize = 0;
            while j < i
                invariant
                    j <= i < entries.len(),
                    name == entries@[i as int].name@,
                    forall|k: int| 0 <= k < j ==> entries@[k].name@ != name,
                decreases i - j,
            {
                if str_eq(entries[j].name.as_str(), entries[i].name.as_str()) {
                    proof {
                        assert(keys_of(entries@)[j as int] == keys_of(entries@)[i as int]);
                    }
                    return None;
                }
                j = j + 1;
            }
            proof {
                let grown = keys_of(entries@.take(i as int + 1));
                assert forall|a: int, b: int|
                    0 <= a < grown.len() && 0 <= b < grown.len() && a != b implies grown[a]
                    != grown[b] by {
                    if a < i && b < i {
                        assert(seen[a] != seen[b]);
                    }
                }
            }
            i = i + 1;
        }
        assert(entries@.take(i as int) =~= entries@);
        Some(RequestMetadata { source, timestamp, response_headers: entries })
    }

    /// The record taken apart into what is stored of it: the URL, the time,
    /// and the headers, each name once. `from_parts` puts it together again.
    pub fn into_parts(self) -> (parts: (String, Timestamp, Vec<HeaderEntry>))
        ensures
            are_parts_of(self@, parts.0@, parts.1, parts.2@),
    {
        proof {
            use_type_invariant(&self);
        }
        (self.source, self.timestamp, self.response_headers)
    }

    /// The URL that the response came from.
    pub fn source(&self) -> (url: &str)
        ensures
            url@ == self@.source,
    {
        self.source.as_str()
    }

    /// When the response arrived.
    pub fn timestamp(&self) -> (at: Timestamp)
        ensures
            at == self@.timestamp,
    {
        self.timestamp
    }

    /// The response's headers, each name once.
    pub fn response_headers(&self) -> (entries: &Vec<HeaderEntry>)
        ensures
            distinct_names(entries@),
            entries_map(entries@) == self@.headers,
    {
        proof {
            use_type_invariant(self);
        }
        &self.response_headers
    }

    /// The first of the values that the response gave for the header with
    /// the lower-case name `name`.
    pub fn first_header(&self, name: &str) -> (value: Option<&String>)
        ensures
            match value {
                Some(text) => first_value(self@.headers, name@) == Some(text@),
                None => first_value(self@.headers, name@) is None,
            },
    {
        proof {
            use_type_invariant(self);
        }
        let ghost names = keys_of(self.response_headers@);
        match position(&self.response_headers, name) {
            Some(k) => {
                proof {
                    assert(names[k as int] == name@);
                    assert(names.contains(name@));
                    let at = names.index_of(name@);
                    assert(names[at] == name@);
                    assert(at == k);
                    assert(views(self.response_headers@[k as int].values@).len()
                        == self.response_headers@[k as int].values@.len());
                }
                let values = &self.response_headers[k].values;
                if values.len() > 0 {
                    Some(&values[0])
                } else {
                    None
                }
            },
            None => None,
        }
    }
}

/// The request header that carries an entity tag back to the server.
pub const IF_NONE_MATCH: &'static str = "if-none-match";

/// The request header that carries a modification date back to the server.
pub const IF_MODIFIED_SINCE: &'static str = "if-modified-since";

/// The status with which a server confirms that a cached copy is still good.
pub const NOT_MODIFIED: u16 = 304;

/// What a server gave to recognise a response by, and gets back with the
/// next request for the same URL.
#[derive(Debug, Clone, PartialEq, Eq)]
pub struct Validators {
    pub etag: Option<String>,
    pub last_modified: Option<String>,
}

/// Validators as a mathematical value.
pub struct ValidatorsView {
    pub etag: Option<Seq<char>>,
    pub last_modified: Option<Seq<char>>,
}

/// The view of a text that may be absent.
pub open spec fn optional_view(text: Option<String>) -> Option<Seq<char>> {
    match text {
        Some(t) => Some(t@),
        None => None,
    }
}

impl View for Validators {
    type V = ValidatorsView;

    open spec fn view(&self) -> ValidatorsView {
        ValidatorsView {
            etag: optional_view(self.etag),
            last_modified: optional_view(self.last_modified),
        }
    }
}

/// No validator at all.
pub open spec fn no_validators() -> ValidatorsView {
    ValidatorsView { etag: None, last_modified: None }
}

/// The validators that stored headers hold: the first entity tag and the
/// first modification date, each absent where the response gave none.
pub open spec fn stored_validators(headers: Map<Seq<char>, Seq<Seq<char>>>) -> ValidatorsView {
    ValidatorsView {
        etag: first_value(headers, ETAG@),
        last_modified: first_value(headers, LAST_MODIFIED@),
    }
}

/// The policy that stored metadata states: that of the first `Cache-Control`
/// value, read for the time at which the response arrived. A response
/// without that header is to be revalidated.
pub open spec fn stored_policy(metadata: MetadataView) -> CacheControlPolicy {
    match first_value(metadata.headers, CACHE_CONTROL@) {
        Some(value) => policy_of(value, metadata.timestamp),
        None => CacheControlPolicy::MustRevalidate,
    }
}

/// The validators that go out with a request made at `now`, given what is
/// stored of the last response for the same URL.
///
/// Nothing stored: none. `NoStore`: none. Good until a time that `now` has
/// not reached: none, so that the server sends the content again. In every
/// other case: all that is stored.
pub open spec fn effective_validators(prior: Option<MetadataView>, now: Timestamp) -> ValidatorsView {
    match prior {
        None => no_validators(),
        Some(metadata) => match stored_policy(metadata) {
            CacheControlPolicy::NoStore => no_validators(),
            CacheControlPolicy::Expires(until) => if until.after(now) {
                no_validators()
            } else {
                stored_validators(metadata.headers)
            },
            CacheControlPolicy::NoCache => stored_validators(metadata.headers),
            CacheControlPolicy::MustRevalidate => stored_validators(metadata.headers),
        },
    }
}

/// The view of metadata that may be absent.
pub open spec fn optional_metadata(prior: Option<&RequestMetadata>) -> Option<MetadataView> {
    match prior {
        Some(metadata) => Some(metadata@),
        None => None,
    }
}

/// The header lines that carry validators to the server: `if-none-match`
/// for an entity tag, then `if-modified-since` for a modification date.
pub open spec fn conditional_lines(validators: ValidatorsView) -> Seq<(Seq<char>, Seq<char>)> {
    (match validators.etag {
        Some(tag) => seq![(IF_NONE_MATCH@, tag)],
        None => Seq::empty(),
    }) + (match validators.last_modified {
        Some(date) => seq![(IF_MODIFIED_SINCE@, date)],
        None => Seq::empty(),
    })
}

impl RequestMetadata {
    /// The validators that the response gave.
    pub fn validators(&self) -> (validators: Validators)
        ensures
            validators@ == stored_validators(self@.headers),
    {
        let etag = match self.first_header(ETAG) {
            Some(tag) => Some(tag.clone()),
            None => None,
        };
        let last_modified = match self.first_header(LAST_MODIFIED) {
            Some(date) => Some(date.clone()),
            None => None,
        };
        Validators { etag, last_modified }
    }

    /// The policy that the response stated for its reuse.
    pub fn cache_control(&self) -> (policy: CacheControlPolicy)
        ensures
            policy == stored_policy(self@),
    {
        match self.first_header(CACHE_CONTROL) {
            Some(value) => parse_cache_control(value.as_str(), self.timestamp),
            None => CacheControlPolicy::MustRevalidate,
        }
    }
}

/// Decides which validators go out with a request made at `now`, given what
/// is stored of the last response for the same URL.
pub fn evaluate(prior: Option<&RequestMetadata>, now: Timestamp) -> (validators: Validators)
    ensures
        validators@ == effective_validators(optional_metadata(prior), now),
        prior is None ==> validators@ == no_validators(),
{
    match prior {
        None => Validators { etag: None, last_modified: None },
        Some(metadata) => match metadata.cache_control() {
            CacheControlPolicy::NoStore => Validators { etag: None, last_modified: None },
            CacheControlPolicy::Expires(until) => {
                if until.is_after(&now) {
                    Validators { etag: None, last_modified: None }
                } else {
                    metadata.validators()
                }
            },
            CacheControlPolicy::NoCache => metadata.validators(),
            CacheControlPolicy::MustRevalidate => metadata.validators(),
        },
    }
}

impl Validators {
    /// The header lines that carry these validators to the server.
    pub fn request_headers(&self) -> (lines: Vec<(String, String)>)
        ensures
            line_views(lines@) == conditional_lines(self@),
    {
        let mut lines: Vec<(String, String)> = Vec::new();
        match &self.etag {
            Some(tag) => {
                lines.push((IF_NONE_MATCH.to_owned(), tag.clone()));
            },
            None => {},
        }
        match &self.last_modified {
            Some(date) => {
                lines.push((IF_MODIFIED_SINCE.to_owned(), date.clone()));
            },
            None => {},
        }
        assert(line_views(lines@) =~= conditional_lines(self@));
        lines
    }
}

/// The header under which a response names the media type of its body.
pub const CONTENT_TYPE: &'static str = "content-type";

/// The header under which a response says how many bytes its body has.
pub const CONTENT_LENGTH: &'static str = "content-length";

/// The encoding in which a body is read where its response names none.
pub const DEFAULT_ENCODING: &'static str = "utf-8";

/// Whether a header line carries a validator to the server.
pub open spec fn is_conditional(line: (Seq<char>, Seq<char>)) -> bool {
    ascii_lower(line.0) == IF_NONE_MATCH@ || ascii_lower(line.0) == IF_MODIFIED_SINCE@
}

/// The test that a header line carries no validator.
pub open spec fn unconditional() -> spec_fn((Seq<char>, Seq<char>)) -> bool {
    |line: (Seq<char>, Seq<char>)| !is_conditional(line)
}

/// The header lines of the request that goes out: the caller's own lines
/// without any that carries a validator, then the lines for `validators`.
pub open spec fn outgoing_lines(
    own: Seq<(Seq<char>, Seq<char>)>,
    validators: ValidatorsView,
) -> Seq<(Seq<char>, Seq<char>)> {
    own.filter(unconditional()) + conditional_lines(validators)
}

/// A request for a URL whose response is kept in the cache below `cache_dir`.
#[derive(Debug, Clone, PartialEq, Eq)]
pub struct CachedRequest {
    pub cache_type: CacheType,
    pub cache_dir: String,
    pub url: String,
    pub headers: Vec<(String, String)>,
}

impl CachedRequest {
    /// A request for `url` with the caller's own header lines.
    pub fn new(
        cache_type: CacheType,
        cache_dir: &str,
        url: &str,
        headers: Vec<(String, String)>,
    ) -> (request: CachedRequest)
        ensures
            request.cache_type == cache_type,
            request.cache_dir@ == cache_dir@,
            request.url@ == url@,
            request.headers == headers,
    {
        CachedRequest { cache_type, cache_dir: cache_dir.to_owned(), url: url.to_owned(), headers }
    }

    /// The directory of the cache entry for the request's URL.
    pub fn url_cache_path(&self) -> (path: String)
        ensures
            path@ == entry_dir(self.cache_dir@, self.url@),
    {
        url_cache_path(self.cache_dir.as_str(), self.url.as_str())
    }

    /// The file that holds the cached response body for the request's URL.
    pub fn url_data_cache_path(&self) -> (path: String)
        ensures
            path@ == joined_path(entry_dir(self.cache_dir@, self.url@), DATA_FILE@),
    {
        url_data_cache_path(self.cache_dir.as_str(), self.url.as_str())
    }

    /// The file that holds the metadata record for the request's URL.
    pub fn url_metadata_cache_path(&self) -> (path: String)
        ensures
            path@ == joined_path(entry_dir(self.cache_dir@, self.url@), METADATA_FILE@),
    {
        url_metadata_cache_path(self.cache_dir.as_str(), self.url.as_str())
    }

    /// The request as it goes out at `now`, given what is stored of the last
    /// response for its URL: it asks the server to confirm the cached copy
    /// with exactly the validators that `evaluate` selects, and with no other.
    pub fn revalidating(self, prior: Option<&RequestMetadata>, now: Timestamp) -> (request:
        CachedRequest)
        ensures
            request.cache_type == self.cache_type,
            request.cache_dir == self.cache_dir,
            request.url == self.url,
            line_views(request.headers@) == outgoing_lines(
                line_views(self.headers@),
                effective_validators(optional_metadata(prior), now),
            ),
            prior is None ==> line_views(request.headers@) == line_views(self.headers@).filter(
                unconditional(),
            ),
    {
        let validators = evaluate(prior, now);
        let ghost own = line_views(self.headers@);
        let mut headers: Vec<(String, String)> = Vec::new();
        let mut i: usize = 0;
        proof {
            reveal(Seq::filter);
            assert(own.take(0).filter(unconditional()) =~= Seq::empty());
        }
        while i < self.headers.len()
            invariant
                i <= self.headers.len(),
                own == line_views(self.headers@),
                line_views(headers@) == own.take(i as int).filter(unconditional()),
            decreases self.headers.len() - i,
        {
            let name = to_ascii_lower(self.headers[i].0.as_str());
            let ghost kept = line_views(headers@);
            proof {
                assert(own.take(i as int + 1) =~= own.take(i as int).push(own[i as int]));
                own.take(i as int).lemma_filter_push(own[i as int], unconditional());
            }
            if !str_eq(name.as_str(), IF_NONE_MATCH) && !str_eq(name.as_str(), IF_MODIFIED_SINCE) {
                headers.push((self.headers[i].0.clone(), self.headers[i].1.clone()));
                assert(line_views(headers@) =~= kept.push(own[i as int]));
            }
            i = i + 1;
        }
        assert(own.take(i as int) =~= own);
        let ghost kept = line_views(headers@);
        let mut extra = validators.request_headers();
        let ghost added = line_views(extra@);
        headers.append(&mut extra);
        proof {
            assert(line_views(headers@) =~= kept + added);
            if prior is None {
                assert(added =~= Seq::empty());
                assert(kept + added =~= kept);
            }
        }
        CachedRequest {
            cache_type: self.cache_type,
            cache_dir: self.cache_dir,
            url: self.url,
            headers,
        }
    }
}

/// What is needed to make a request for the cache below `cache_dir`.
#[derive(Debug, Clone, PartialEq, Eq)]
pub struct CachedRequestBuilder {
    pub cache_type: CacheType,
    pub cache_dir: String,
    pub url: String,
    pub headers: Vec<(String, String)>,
}

impl CachedRequestBuilder {
    /// The makings of a request for `url` with the caller's own header lines.
    pub fn new(
        cache_type: CacheType,
        cache_dir: &str,
        url: &str,
        headers: Vec<(String, String)>,
    ) -> (builder: CachedRequestBuilder)
        ensures
            builder.cache_type == cache_type,
            builder.cache_dir@ == cache_dir@,
            builder.url@ == url@,
            builder.headers == headers,
    {
        CachedRequestBuilder {
            cache_type,
            cache_dir: cache_dir.to_owned(),
            url: url.to_owned(),
            headers,
        }
    }

    /// The request.
    pub fn build(self) -> (request: CachedRequest)
        ensures
            request.cache_type == self.cache_type,
            request.cache_dir == self.cache_dir,
            request.url == self.url,
            request.headers == self.headers,
    {
        CachedRequest {
            cache_type: self.cache_type,
            cache_dir: self.cache_dir,
            url: self.url,
            headers: self.headers,
        }
    }
}

/// What a server sent back, as far as the cache reads it.
#[derive(Debug, Clone, PartialEq, Eq)]
pub struct ResponseParts {
    /// The URL that the response came from.
    pub url: String,
    pub status: u16,
    pub headers: Vec<(String, String)>,
}

/// What is needed to read a response for the cache below `cache_dir`.
#[derive(Debug, Clone, PartialEq, Eq)]
pub struct CachedResponseBuilder {
    pub cache_type: CacheType,
    pub cache_dir: String,
    pub response: Option<ResponseParts>,
}

impl CachedResponseBuilder {
    /// The makings of a response; what the server sent is still to be set.
    pub fn new(cache_type: CacheType, cache_dir: &str) -> (builder: CachedResponseBuilder)
        ensures
            builder.cache_type == cache_type,
            builder.cache_dir@ == cache_dir@,
            builder.response is None,
    {
        CachedResponseBuilder { cache_type, cache_dir: cache_dir.to_owned(), response: None }
    }

    /// Sets what the server sent.
    pub fn response(self, resp: ResponseParts) -> (builder: CachedResponseBuilder)
        ensures
            builder.cache_type == self.cache_type,
            builder.cache_dir == self.cache_dir,
            builder.response == Some(resp),
    {
        CachedResponseBuilder {
            cache_type: self.cache_type,
            cache_dir: self.cache_dir,
            response: Some(resp),
        }
    }

    /// The response. What the server sent must have been set.
    pub fn build(self) -> (response: CachedResponse)
        requires
            self.response is Some,
        ensures
            response.cache_type == self.cache_type,
            response.cache_dir == self.cache_dir,
            response.url == self.response->0.url,
            response.status == self.response->0.status,
            response.headers == self.response->0.headers,
    {
        let parts = self.response.unwrap();
        CachedResponse {
            cache_type: self.cache_type,
            cache_dir: self.cache_dir,
            url: parts.url,
            status: parts.status,
            headers: parts.headers,
        }
    }
}

/// Whether a status reports success.
pub open spec fn is_success(status: u16) -> bool {
    200 <= status < 300
}

/// Whether a status reports success.
pub fn status_is_success(status: u16) -> (success: bool)
    ensures
        success == is_success(status),
{
    200 <= status && status < 300
}

/// What is to be done to a cache entry after a response.
#[derive(Debug, PartialEq, Eq)]
pub enum CacheUpdate {
    /// The response brought content: the directory `entry_dir` is made if it
    /// is not there, the response body replaces what `data_path` holds, and
    /// `metadata` replaces the record at `metadata_path`.
    Store { entry_dir: String, data_path: String, metadata_path: String, metadata: RequestMetadata },
    /// The server confirmed the cached copy: nothing is written, and
    /// `data_path` holds the content as before.
    Keep { data_path: String },
}

impl CacheUpdate {
    /// The file that holds the content once the update is carried out.
    pub fn data_path(&self) -> (path: &str)
        ensures
            path@ == match *self {
                CacheUpdate::Store { data_path, .. } => data_path@,
                CacheUpdate::Keep { data_path } => data_path@,
            },
    {
        match self {
            CacheUpdate::Store { data_path, .. } => data_path.as_str(),
            CacheUpdate::Keep { data_path } => data_path.as_str(),
        }
    }
}

/// A response, as far as the cache reads it: the URL it came from, its
/// status, and its header lines.
#[derive(Debug, Clone, PartialEq, Eq)]
pub struct CachedResponse {
    pub cache_type: CacheType,
    pub cache_dir: String,
    pub url: String,
    pub status: u16,
    pub headers: Vec<(String, String)>,
}

impl CachedResponse {
    /// The header lines as mathematical values.
    pub open spec fn lines(&self) -> Seq<(Seq<char>, Seq<char>)> {
        line_views(self.headers@)
    }

    /// The metadata that a response which arrived at `now` leaves behind.
    pub open spec fn fresh_metadata(&self, now: Timestamp) -> MetadataView {
        MetadataView { source: self.url@, timestamp: now, headers: gathered(self.lines()) }
    }

    /// The file that holds the entry's content.
    pub open spec fn data_file(&self) -> Seq<char> {
        joined_path(entry_dir(self.cache_dir@, self.url@), DATA_FILE@)
    }

    /// Whether `outcome` is what the response asks of the cache when it
    /// arrives at `now`: to store for a success, to keep for "not modified",
    /// and to fail with the status for anything else.
    pub open spec fn decides(&self, now: Timestamp, outcome: Result<CacheUpdate, Error>) -> bool {
        if is_success(self.status) {
            &&& outcome matches Ok(
                CacheUpdate::Store { entry_dir: dir, data_path, metadata_path, metadata },
            )
            &&& dir@ == entry_dir(self.cache_dir@, self.url@)
            &&& data_path@ == self.data_file()
            &&& metadata_path@ == joined_path(
                entry_dir(self.cache_dir@, self.url@),
                METADATA_FILE@,
            )
            &&& metadata@ == self.fresh_metadata(now)
        } else if self.status == NOT_MODIFIED {
            &&& outcome matches Ok(CacheUpdate::Keep { data_path })
            &&& data_path@ == self.data_file()
        } else {
            &&& outcome matches Err(Error::HttpStatusError(code))
            &&& code == self.status
        }
    }

    /// A response for the cache below `cache_dir`.
    pub fn new(
        cache_type: CacheType,
        cache_dir: &str,
        url: &str,
        status: u16,
        headers: Vec<(String, String)>,
    ) -> (response: CachedResponse)
        ensures
            response.cache_type == cache_type,
            response.cache_dir@ == cache_dir@,
            response.url@ == url@,
            response.status == status,
            response.headers == headers,
    {
        CachedResponse {
            cache_type,
            cache_dir: cache_dir.to_owned(),
            url: url.to_owned(),
            status,
            headers,
        }
    }

    /// The directory of the cache entry for the response's URL.
    pub fn url_cache_path(&self) -> (path: String)
        ensures
            path@ == entry_dir(self.cache_dir@, self.url@),
    {
        url_cache_path(self.cache_dir.as_str(), self.url.as_str())
    }

    /// The file that holds the cached body for the response's URL.
    pub fn url_data_cache_path(&self) -> (path: String)
        ensures
            path@ == self.data_file(),
    {
        url_data_cache_path(self.cache_dir.as_str(), self.url.as_str())
    }

    /// The file that holds the metadata record for the response's URL.
    pub fn url_metadata_cache_path(&self) -> (path: String)
        ensures
            path@ == joined_path(entry_dir(self.cache_dir@, self.url@), METADATA_FILE@),
    {
        url_metadata_cache_path(self.cache_dir.as_str(), self.url.as_str())
    }

    /// Decides what a response that arrived at `now` does to the cache
    /// entry, and where the content is found afterwards.
    ///
    /// A success stores the new content and new metadata. "Not modified"
    /// keeps the entry as it is. Any other status is an error that carries
    /// the status, and asks for no change.
    pub fn cached_file_path(&self, now: Timestamp) -> (outcome: Result<CacheUpdate, Error>)
        ensures
            self.decides(now, outcome),
    {
        if status_is_success(self.status) {
            Ok(
                CacheUpdate::Store {
                    entry_dir: self.url_cache_path(),
                    data_path: self.url_data_cache_path(),
                    metadata_path: self.url_metadata_cache_path(),
                    metadata: RequestMetadata::from_response(
                        self.url.as_str(),
                        now,
                        &self.headers,
                    ),
                },
            )
        } else if self.status == NOT_MODIFIED {
            Ok(CacheUpdate::Keep { data_path: self.url_data_cache_path() })
        } else {
            Err(Error::HttpStatusError(self.status))
        }
    }

    /// The value of the response's first line with the lower-case name `name`.
    pub fn first_header(&self, name: &str) -> (value: Option<&str>)
        ensures
            match value {
                Some(text) => first_line_value(self.lines(), name@) == Some(text@),
                None => first_line_value(self.lines(), name@) is None,
            },
    {
        let ghost lines = self.lines();
        let mut i: usize = 0;
        assert(lines.skip(0) =~= lines);
        while i < self.headers.len()
            invariant
                i <= self.headers.len(),
                lines == line_views(self.headers@),
                first_line_value(lines, name@) == first_line_value(lines.skip(i as int), name@),
            decreases self.headers.len() - i,
        {
            let lower = to_ascii_lower(self.headers[i].0.as_str());
            proof {
                assert(lines.skip(i as int)[0] == lines[i as int]);
                assert(lines.skip(i as int).drop_first() =~= lines.skip(i as int + 1));
            }
            if str_eq(lower.as_str(), name) {
                return Some(self.headers[i].1.as_str());
            }
            i = i + 1;
        }
        assert(lines.skip(i as int).len() == 0);
        None
    }

    /// The value of the response's first `Content-Type` line.
    pub fn content_type(&self) -> (value: Option<&str>)
        ensures
            match value {
                Some(text) => first_line_value(self.lines(), CONTENT_TYPE@) == Some(text@),
                None => first_line_value(self.lines(), CONTENT_TYPE@) is None,
            },
    {
        self.first_header(CONTENT_TYPE)
    }

    /// The number of bytes that the response declares for its body: what
    /// its first `Content-Length` line writes in decimal digits.
    pub open spec fn declared_length(&self) -> Option<nat> {
        match first_line_value(self.lines(), CONTENT_LENGTH@) {
            Some(value) => written_number(value, u64::MAX as nat),
            None => None,
        }
    }

    /// The number of bytes that the response declares for its body.
    pub fn content_length(&self) -> (length: Option<u64>)
        ensures
            match length {
                Some(n) => self.declared_length() == Some(n as nat),
                None => self.declared_length() is None,
            },
    {
        match self.first_header(CONTENT_LENGTH) {
            Some(value) => read_number(value, u64::MAX),
            None => None,
        }
    }

    /// The label of the encoding in which the response's body is read: the
    /// `charset` of its content type, or `default_encoding`.
    pub open spec fn body_label(&self, default_encoding: Seq<char>) -> Seq<char> {
        label_for(first_line_value(self.lines(), CONTENT_TYPE@), default_encoding)
    }

    /// The cached body `body` as text, read in the encoding that the
    /// response's content type names, or in `default_encoding` where it
    /// names none. A label that names no encoding stands for UTF-8.
    /// Malformed input is an error that names the label.
    pub fn cached_text_with_charset(&self, default_encoding: &str, body: &[u8]) -> (text: Result<
        String,
        Error,
    >)
        requires
            body.len() <= max_decodable(),
        ensures
            match text {
                Ok(t) => decoded_under(self.body_label(default_encoding@), body@) == (t@, false),
                Err(Error::Utf8ParseError(under)) => decoded_under(
                    self.body_label(default_encoding@),
                    body@,
                ).1 && under@ == self.body_label(default_encoding@),
                Err(_) => false,
            },
    {
        let label = encoding_label(self.content_type(), default_encoding);
        decode_body(label.as_str(), body)
    }

    /// The cached body `body` as text, read as UTF-8 where the response's
    /// content type names no encoding.
    pub fn cached_text(&self, body: &[u8]) -> (text: Result<String, Error>)
        requires
            body.len() <= max_decodable(),
        ensures
            match text {
                Ok(t) => decoded_under(self.body_label(DEFAULT_ENCODING@), body@) == (t@, false),
                Err(Error::Utf8ParseError(under)) => decoded_under(
                    self.body_label(DEFAULT_ENCODING@),
                    body@,
                ).1 && under@ == self.body_label(DEFAULT_ENCODING@),
                Err(_) => false,
            },
    {
        self.cached_text_with_charset(DEFAULT_ENCODING, body)
    }
}

/// A cache entry as a mathematical value: the content it holds and what is
/// remembered of the response that brought it.
pub struct EntryView {
    pub data: Seq<u8>,
    pub metadata: MetadataView,
}

/// The entry after the caller has carried out `outcome` for a response with
/// the body `body`, given the entry before (`None`: there was no entry).
/// A failure is carried out by doing nothing.
pub open spec fn entry_after(
    outcome: Result<CacheUpdate, Error>,
    before: Option<EntryView>,
    body: Seq<u8>,
) -> Option<EntryView> {
    match outcome {
        Ok(CacheUpdate::Store { metadata, .. }) => Some(
            EntryView { data: body, metadata: metadata@ },
        ),
        Ok(CacheUpdate::Keep { .. }) => before,
        Err(_) => before,
    }
}

/// The validators that a response's header lines give: the value of the
/// first `ETag` line and that of the first `Last-Modified` line.
pub open spec fn given_validators(lines: Seq<(Seq<char>, Seq<char>)>) -> ValidatorsView {
    ValidatorsView {
        etag: first_line_value(lines, ETAG@),
        last_modified: first_line_value(lines, LAST_MODIFIED@),
    }
}

/// The first value that gathered header lines hold under a name is the
/// value of the first line of that name.
pub proof fn law_gathered_first_value(lines: Seq<(Seq<char>, Seq<char>)>, name: Seq<char>)
    ensures
        first_value(gathered(lines), name) == first_line_value(lines, name),
{
    lemma_first_gathered_value(lines, name);
}

/// Where nothing is stored for a URL, the request goes out without any
/// validator, whatever header lines the caller gave it: the server cannot
/// answer it with "not modified".
pub proof fn law_first_request_is_unconditional(own: Seq<(Seq<char>, Seq<char>)>, now: Timestamp)
    ensures
        effective_validators(None, now) == no_validators(),
        forall|i: int|
            0 <= i < outgoing_lines(own, effective_validators(None, now)).len()
                ==> !is_conditional(
                #[trigger] outgoing_lines(own, effective_validators(None, now))[i],
            ),
{
    let out = outgoing_lines(own, effective_validators(None, now));
    assert(conditional_lines(no_validators()) =~= Seq::empty());
    assert(out =~= own.filter(unconditional()));
    assert forall|i: int| 0 <= i < out.len() implies !is_conditional(#[trigger] out[i]) by {
        own.lemma_filter_pred(unconditional(), i);
    }
}

/// After a response that reports success, the entry holds the response's
/// body, and the validators stored with it are exactly those that the
/// response gave: each absent where the response gave none.
pub proof fn law_success_stores_the_response(
    response: CachedResponse,
    now: Timestamp,
    outcome: Result<CacheUpdate, Error>,
    before: Option<EntryView>,
    body: Seq<u8>,
)
    requires
        is_success(response.status),
        response.decides(now, outcome),
    ensures
        entry_after(outcome, before, body) == Some(
            EntryView { data: body, metadata: response.fresh_metadata(now) },
        ),
        stored_validators(response.fresh_metadata(now).headers) == given_validators(
            response.lines(),
        ),
{
    law_gathered_first_value(response.lines(), ETAG@);
    law_gathered_first_value(response.lines(), LAST_MODIFIED@);
}

/// After a response that reports no success ("not modified" or any other
/// status), the entry is what it was: the same content and the same metadata.
pub proof fn law_no_success_changes_nothing(
    response: CachedResponse,
    now: Timestamp,
    outcome: Result<CacheUpdate, Error>,
    before: Option<EntryView>,
    body: Seq<u8>,
)
    requires
        !is_success(response.status),
        response.decides(now, outcome),
    ensures
        entry_after(outcome, before, body) == before,
        outcome is Ok <==> response.status == NOT_MODIFIED,
{
}

/// An entry, once made, is never taken away: whatever the response, there
/// is an entry afterwards where there was one before.
pub proof fn law_entries_stay(
    outcome: Result<CacheUpdate, Error>,
    before: Option<EntryView>,
    body: Seq<u8>,
)
    requires
        before is Some,
    ensures
        entry_after(outcome, before, body) is Some,
{
}

/// The cached copy is reused only where the server itself answered "not
/// modified".
pub proof fn law_reuse_needs_the_servers_word(
    response: CachedResponse,
    now: Timestamp,
    outcome: Result<CacheUpdate, Error>,
)
    requires
        response.decides(now, outcome),
        outcome matches Ok(CacheUpdate::Keep { .. }),
    ensures
        response.status == NOT_MODIFIED,
{
}

/// Where the stored response gave neither an entity tag nor a modification
/// date, no validator goes out with the next request, at whatever time and
/// under whatever policy.
pub proof fn law_nothing_stored_nothing_sent(metadata: MetadataView, now: Timestamp)
    requires
        stored_validators(metadata.headers) == no_validators(),
    ensures
        effective_validators(Some(metadata), now) == no_validators(),
{
}

/// Where the stored response is to be revalidated (it said so, said nothing
/// usable, or the time it called itself good for has passed), the next
/// request carries exactly the stored validators.
pub proof fn law_revalidation_sends_what_is_stored(metadata: MetadataView, now: Timestamp)
    requires
        stored_policy(metadata) != CacheControlPolicy::NoStore,
        stored_policy(metadata) matches CacheControlPolicy::Expires(until) ==> !until.after(now),
    ensures
        effective_validators(Some(metadata), now) == stored_validators(metadata.headers),
{
}

} // verus!
