//! Activation links as the URL parser sees them. Parsing and
//! percent-decoding are the work of the `url` and `percent-encoding` crates;
//! this module holds what they return as plain text and names their results.

use vstd::prelude::*;
use crate::text::{same_text, text_of};

verus! {

/// `url::ParseError`, the error of `url::Url::parse`. Nothing is known of its
/// values.
#[verifier::external_type_specification]
#[verifier::external_body]
pub struct ExUrlParseError(url::ParseError);

/// What link handling reads of a parsed URL: its scheme and the pairs of its
/// query string, each a key and a value, already form-decoded and in the
/// order in which they stand.
#[derive(Debug, Clone, PartialEq, Eq)]
pub struct ParsedLink {
    pub scheme: String,
    pub query: Vec<(String, String)>,
}

/// A query pair as text: the key first, the value second.
pub type PairText = (Seq<char>, Seq<char>);

/// A parsed link as text.
pub struct LinkParts {
    pub scheme: Seq<char>,
    pub query: Seq<PairText>,
}

impl View for ParsedLink {
    type V = LinkParts;

    open spec fn view(&self) -> LinkParts {
        LinkParts {
            scheme: self.scheme@,
            query: self.query@.map_values(|pair: (String, String)| (pair.0@, pair.1@)),
        }
    }
}

/// What `url::Url::parse` makes of `input`: the scheme of the URL and the
/// pairs of its query string, or `None` where `input` is rejected as an
/// absolute URL.
pub uninterp spec fn url_parts(input: Seq<char>) -> Option<LinkParts>;

/// What `percent_encoding::percent_decode_str` followed by
/// `decode_utf8_lossy` makes of `text`: every `%` followed by two hexadecimal
/// digits becomes the byte they spell, and the bytes are read as UTF-8 with
/// the replacement character in place of what is not.
pub uninterp spec fn percent_decoded(text: Seq<char>) -> Seq<char>;

/// Calls `url::Url::parse` on `input` and copies out of the URL what
/// `Url::scheme` and `Url::query_pairs` return. Not proved: that the parts
/// returned are those named by `url_parts`, and that the parser's error comes
/// back exactly where `url_parts` is `None`. This says no more than that
/// parsing depends on `input` alone.
#[verifier::external_body]
pub(crate) fn parse_url(input: &str) -> (parsed: Result<ParsedLink, url::ParseError>)
    ensures
        match parsed {
            Ok(link) => url_parts(input@) == Some(link@),
            Err(_) => url_parts(input@) is None,
        },
{
    let url = url::Url::parse(input)?;
    Ok(ParsedLink { scheme: url.scheme().to_owned(), query: url.query_pairs().into_owned().collect() })
}

/// Calls `percent_encoding::percent_decode_str` on `text` and reads the bytes
/// with `PercentDecode::decode_utf8_lossy`. Not proved: that the result is
/// the text named by `percent_decoded`. This says no more than that decoding
/// depends on `text` alone.
#[verifier::external_body]
pub(crate) fn percent_decode(text: &str) -> (decoded: String)
    ensures
        decoded@ == percent_decoded(text@),
{
    percent_encoding::percent_decode_str(text).decode_utf8_lossy().into_owned()
}

/// The value of the first pair of `query`, from position `from` on, whose key
/// is `key`.
pub open spec fn first_value_from(query: Seq<PairText>, key: Seq<char>, from: int) -> Option<Seq<char>>
    decreases query.len() - from,
{
    if from < 0 || from >= query.len() {
        None
    } else if query[from].0 == key {
        Some(query[from].1)
    } else {
        first_value_from(query, key, from + 1)
    }
}

/// The value of the first pair of `query` whose key is `key`.
pub open spec fn first_value(query: Seq<PairText>, key: Seq<char>) -> Option<Seq<char>> {
    first_value_from(query, key, 0)
}

/// The value of the last pair of `query` whose key is `key`.
pub open spec fn last_value(query: Seq<PairText>, key: Seq<char>) -> Option<Seq<char>>
    decreases query.len(),
{
    if query.len() == 0 {
        None
    } else if query.last().0 == key {
        Some(query.last().1)
    } else {
        last_value(query.drop_last(), key)
    }
}

/// Finds the first pair of `link` whose key is `key` and returns its value.
pub fn first_query_value(link: &ParsedLink, key: &str) -> (value: Option<String>)
    ensures
        text_of(value) == first_value(link@.query, key@),
{
    let n = link.query.len();
    let mut i: usize = 0;
    while i < n
        invariant
            i <= n,
            n == link.query.len(),
            first_value(link@.query, key@) == first_value_from(link@.query, key@, i as int),
        decreases n - i,
    {
        if same_text(link.query[i].0.as_str(), key) {
            return Some(link.query[i].1.clone());
        }
        i += 1;
    }
    None
}

/// Finds the last pair of `link` whose key is `key` and returns its value.
pub fn last_query_value(link: &ParsedLink, key: &str) -> (value: Option<String>)
    ensures
        text_of(value) == last_value(link@.query, key@),
{
    let n = link.query.len();
    let mut found: Option<String> = None;
    let mut i: usize = 0;
    assert(link@.query.take(0) =~= Seq::empty());
    while i < n
        invariant
            i <= n,
            n == link.query.len(),
            text_of(found) == last_value(link@.query.take(i as int), key@),
        decreases n - i,
    {
        assert(link@.query.take(i + 1).drop_last() =~= link@.query.take(i as int));
        if same_text(link.query[i].0.as_str(), key) {
            found = Some(link.query[i].1.clone());
        }
        i += 1;
    }
    assert(link@.query.take(n as int) =~= link@.query);
    found
}

/// What `first_value` finds is the value at the least position that holds
/// the key; it finds nothing only if no pair holds the key.
pub proof fn first_value_is_at_least_position(query: Seq<PairText>, key: Seq<char>, from: int)
    requires
        0 <= from,
    ensures
        match first_value_from(query, key, from) {
            Some(value) => exists|i: int|
                from <= i < query.len() && (#[trigger] query[i]).0 == key && query[i].1 == value
                    && forall|j: int| from <= j < i ==> (#[trigger] query[j]).0 != key,
            None => forall|j: int| from <= j < query.len() ==> (#[trigger] query[j]).0 != key,
        },
    decreases query.len() - from,
{
    if from < query.len() {
        if query[from].0 == key {
            assert(query[from].0 == key && query[from].1 == query[from].1);
        } else {
            first_value_is_at_least_position(query, key, from + 1);
            match first_value_from(query, key, from + 1) {
                Some(value) => {
                    let i = choose|i: int|
                        from + 1 <= i < query.len() && (#[trigger] query[i]).0 == key && query[i].1
                            == value && forall|j: int| from + 1 <= j < i ==> (#[trigger] query[j]).0 != key;
                    assert(from <= i < query.len() && query[i].0 == key && query[i].1 == value);
                    assert forall|j: int| from <= j < i implies (#[trigger] query[j]).0 != key by {
                        if j > from {
                        }
                    }
                },
                None => {
                    assert forall|j: int| from <= j < query.len() implies #[trigger] query[j].0
                        != key by {
                        if j > from {
                        }
                    }
                },
            }
        }
    }
}

/// What `last_value` finds is the value at the greatest position that holds
/// the key; it finds nothing only if no pair holds the key.
pub proof fn last_value_is_at_greatest_position(query: Seq<PairText>, key: Seq<char>)
    ensures
        match last_value(query, key) {
            Some(value) => exists|i: int|
                0 <= i < query.len() && (#[trigger] query[i]).0 == key && query[i].1 == value
                    && forall|j: int| i < j < query.len() ==> (#[trigger] query[j]).0 != key,
            None => forall|j: int| 0 <= j < query.len() ==> (#[trigger] query[j]).0 != key,
        },
    decreases query.len(),
{
    if query.len() > 0 {
        let n = query.len() - 1;
        if query.last().0 == key {
            assert(query[n].0 == key && query[n].1 == query[n].1);
        } else {
            let rest = query.drop_last();
            last_value_is_at_greatest_position(rest, key);
            match last_value(rest, key) {
                Some(value) => {
                    let i = choose|i: int|
                        0 <= i < rest.len() && (#[trigger] rest[i]).0 == key && rest[i].1 == value
                            && forall|j: int| i < j < rest.len() ==> (#[trigger] rest[j]).0 != key;
                    assert(query[i] == rest[i]);
                    assert forall|j: int| i < j < query.len() implies (#[trigger] query[j]).0 != key by {
                        if j < n {
                            assert(query[j] == rest[j]);
                        }
                    }
                    assert(0 <= i < query.len() && query[i].0 == key && query[i].1 == value);
                },
                None => {
                    assert forall|j: int| 0 <= j < query.len() implies #[trigger] query[j].0
                        != key by {
                        if j < n {
                            assert(query[j] == rest[j]);
                        }
                    }
                },
            }
        }
    }
}

} // verus!
