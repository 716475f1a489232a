//! Extraction of the search text from a request URI's query string.

use crate::text::str_eq;
use crate::uri::RequestUri;
use crate::uri::RequestUriView;
use vstd::prelude::*;
use vstd::utf8::encode_utf8;

verus! {

/// The name of the query parameter that carries the search text.
pub const QUERY_KEY: &'static str = "q";

/// The search text of one request.
#[derive(Clone, Debug, PartialEq, Eq)]
pub struct Query {
    pub query: String,
}

impl View for Query {
    type V = Seq<char>;

    open spec fn view(&self) -> Seq<char> {
        self.query@
    }
}

impl DeepView for Query {
    type V = Seq<char>;

    open spec fn deep_view(&self) -> Seq<char> {
        self.query@
    }
}

/// The decoded (name, value) pairs that the bytes of a query string in
/// `application/x-www-form-urlencoded` syntax stand for, in the order in which
/// they appear. This is what `form_urlencoded::parse` yields; the decoding
/// itself (percent-escapes, `+` for a space, a replacement character for
/// bytes that are not UTF-8) is that crate's and is not restated here.
pub uninterp spec fn form_pairs(input: Seq<u8>) -> Seq<(Seq<char>, Seq<char>)>;

/// Runs `form_urlencoded::parse` over `input` and collects every pair it
/// yields, names and values as owned strings.
///
/// Trusted: the pairs returned are, in order, the ones that [`form_pairs`]
/// names for these bytes. The parser reads nothing but its input and never
/// fails, so equal bytes always give equal pairs.
#[verifier::external_body]
fn parse_form(input: &[u8]) -> (pairs: Vec<(String, String)>)
    ensures
        pairs.deep_view() == form_pairs(input@),
{
    form_urlencoded::parse(input).into_owned().collect()
}

/// The value of the first pair named `key`, if any pair has that name.
pub open spec fn first_value(pairs: Seq<(Seq<char>, Seq<char>)>, key: Seq<char>) -> Option<
    Seq<char>,
>
    decreases pairs.len(),
{
    if pairs.len() == 0 {
        None
    } else if pairs[0].0 == key {
        Some(pairs[0].1)
    } else {
        first_value(pairs.drop_first(), key)
    }
}

/// Whether `i` is the position of the first pair named `key`.
pub open spec fn is_first_named(pairs: Seq<(Seq<char>, Seq<char>)>, key: Seq<char>, i: int) -> bool {
    &&& 0 <= i < pairs.len()
    &&& pairs[i].0 == key
    &&& forall|j: int| 0 <= j < i ==> pairs[j].0 != key
}

/// The decoded pairs of a request URI's query string; none if the URI has
/// no query string.
pub open spec fn query_pairs(uri: RequestUriView) -> Seq<(Seq<char>, Seq<char>)> {
    match uri.query {
        Some(q) => form_pairs(encode_utf8(q)),
        None => Seq::empty(),
    }
}

/// The search text that a request URI carries: the value of the first `q`
/// pair of its query string, and nothing if it has no query string or no
/// pair of that name.
pub open spec fn query_of(uri: RequestUriView) -> Option<Seq<char>> {
    first_value(query_pairs(uri), QUERY_KEY@)
}

/// The first pair with a given name decides the value; pairs after it,
/// of that name or any other, change nothing.
pub proof fn lemma_first_named_wins(pairs: Seq<(Seq<char>, Seq<char>)>, key: Seq<char>, i: int)
    requires
        is_first_named(pairs, key, i),
    ensures
        first_value(pairs, key) == Some(pairs[i].1),
    decreases pairs.len(),
{
    if i > 0 {
        let rest = pairs.drop_first();
        assert(pairs[0].0 != key);
        assert forall|j: int| 0 <= j < i - 1 implies rest[j].0 != key by {
            assert(rest[j] == pairs[j + 1]);
        }
        lemma_first_named_wins(rest, key, i - 1);
    }
}

/// No value is found exactly when no pair has the name.
pub proof fn lemma_absent_iff_unnamed(pairs: Seq<(Seq<char>, Seq<char>)>, key: Seq<char>)
    ensures
        first_value(pairs, key) is None <==> forall|j: int|
            0 <= j < pairs.len() ==> pairs[j].0 != key,
    decreases pairs.len(),
{
    if pairs.len() > 0 {
        let rest = pairs.drop_first();
        lemma_absent_iff_unnamed(rest, key);
        if pairs[0].0 != key {
            if first_value(pairs, key) is None {
                assert forall|j: int| 0 <= j < pairs.len() implies pairs[j].0 != key by {
                    if j > 0 {
                        assert(rest[j - 1] == pairs[j]);
                    }
                }
            } else {
                let j = choose|j: int| 0 <= j < rest.len() && rest[j].0 == key;
                assert(pairs[j + 1].0 == key);
            }
        }
    }
}

/// A value that is found is the value of the first pair with the name.
pub proof fn lemma_found_is_first_named(pairs: Seq<(Seq<char>, Seq<char>)>, key: Seq<char>)
    requires
        first_value(pairs, key) is Some,
    ensures
        exists|i: int| #[trigger]
            is_first_named(pairs, key, i) && first_value(pairs, key) == Some(pairs[i].1),
    decreases pairs.len(),
{
    if pairs[0].0 == key {
        assert(is_first_named(pairs, key, 0));
    } else {
        let rest = pairs.drop_first();
        lemma_found_is_first_named(rest, key);
        let i = choose|i: int| #[trigger]
            is_first_named(rest, key, i) && first_value(rest, key) == Some(rest[i].1);
        assert forall|j: int| 0 <= j < i + 1 implies pairs[j].0 != key by {
            if j > 0 {
                assert(rest[j - 1] == pairs[j]);
            }
        }
        assert(rest[i] == pairs[i + 1]);
        assert(is_first_named(pairs, key, i + 1));
    }
}

impl Query {
    /// The search text among decoded pairs: the value of the first pair
    /// named `q`, whatever follows it, and nothing if no pair has that name.
    pub fn from_pairs(pairs: &Vec<(String, String)>) -> (found: Option<Query>)
        ensures
            found.deep_view() == first_value(pairs.deep_view(), QUERY_KEY@),
            forall|i: int| #[trigger]
                is_first_named(pairs.deep_view(), QUERY_KEY@, i) ==> found.deep_view() == Some(
                    pairs.deep_view()[i].1,
                ),
            found is None <==> forall|j: int|
                0 <= j < pairs.deep_view().len() ==> pairs.deep_view()[j].0 != QUERY_KEY@,
    {
        proof {
            let decoded = pairs.deep_view();
            lemma_absent_iff_unnamed(decoded, QUERY_KEY@);
            assert forall|i: int| #[trigger] is_first_named(decoded, QUERY_KEY@, i) implies
                first_value(decoded, QUERY_KEY@) == Some(decoded[i].1) by {
                lemma_first_named_wins(decoded, QUERY_KEY@, i);
            }
        }
        let mut i: usize = 0;
        while i < pairs.len()
            invariant
                i <= pairs.len(),
                forall|j: int| 0 <= j < i ==> pairs.deep_view()[j].0 != QUERY_KEY@,
            decreases pairs.len() - i,
        {
            if str_eq(pairs[i].0.as_str(), QUERY_KEY) {
                proof {
                    lemma_first_named_wins(pairs.deep_view(), QUERY_KEY@, i as int);
                }
                return Some(Query { query: pairs[i].1.clone() });
            }
            i += 1;
        }
        None
    }

    /// Extracts the search text from a request URI.
    ///
    /// The query string, if the URI has one, is decoded as form pairs and the
    /// first pair named `q` gives the text; later pairs of that name are
    /// ignored. Nothing is found exactly when there is no query string or no
    /// pair named `q` in it. Malformed escapes are decoded as far as they
    /// go; nothing is rejected.
    pub fn parse(uri: &RequestUri) -> (found: Option<Query>)
        ensures
            found.deep_view() == query_of(uri@),
            forall|i: int| #[trigger]
                is_first_named(query_pairs(uri@), QUERY_KEY@, i) ==> found.deep_view() == Some(
                    query_pairs(uri@)[i].1,
                ),
            found is None <==> forall|j: int|
                0 <= j < query_pairs(uri@).len() ==> query_pairs(uri@)[j].0 != QUERY_KEY@,
            uri.query is None ==> found is None,
    {
        match &uri.query {
            Some(q) => {
                let pairs = parse_form(q.as_str().as_bytes());
                Query::from_pairs(&pairs)
            },
            None => None,
        }
    }
}

} // verus!
