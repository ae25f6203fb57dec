use vstd::prelude::*;
use vstd::string::*;

use crate::text::{find_either, find_from, lemma_find_from_bounds, lemma_find_from_is_first, pairs_view};

verus! {

/// The serialization of the absolute URL that `url::Url::parse` reads from
/// `s`, or `None` where it refuses `s`.
pub uninterp spec fn url_serialization(s: Seq<char>) -> Option<Seq<char>>;

#[verifier::external_type_specification]
#[verifier::external_body]
pub struct ExParseError(url::ParseError);

/// Relies on `url::Url::parse`, which accepts absolute URLs only, and on
/// the URL's serialization (`Url::as_str`).
#[verifier::external_body]
pub(crate) fn parse_absolute(s: &str) -> (r: Result<String, url::ParseError>)
    ensures
        r is Ok <==> url_serialization(s@) is Some,
        r matches Ok(u) ==> url_serialization(s@) == Some(u@),
{
    url::Url::parse(s).map(String::from)
}

/// The query of the URL that `url::Url::parse` reads from `s` (`None` inside
/// where it has no `?`), or `None` where it refuses `s`.
pub uninterp spec fn url_query(s: Seq<char>) -> Option<Option<Seq<char>>>;

pub open spec fn opt_view(o: Option<String>) -> Option<Seq<char>> {
    match o {
        Some(s) => Some(s@),
        None => None,
    }
}

/// Relies on `url::Url::parse` and `url::Url::query`.
#[verifier::external_body]
pub(crate) fn parse_query(s: &str) -> (r: Result<Option<String>, url::ParseError>)
    ensures
        r is Ok <==> url_query(s@) is Some,
        r matches Ok(q) ==> url_query(s@) == Some(opt_view(q)),
{
    match url::Url::parse(s) {
        Ok(u) => Ok(u.query().map(String::from)),
        Err(e) => Err(e),
    }
}

/// A character that `application/x-www-form-urlencoded` serialization emits.
pub open spec fn form_safe(c: char) -> bool {
    ||| ('a' <= c && c <= 'z')
    ||| ('A' <= c && c <= 'Z')
    ||| ('0' <= c && c <= '9')
    ||| c == '*' || c == '-' || c == '.' || c == '_'
    ||| c == '+' || c == '%'
}

/// The `application/x-www-form-urlencoded` serialization of the UTF-8 bytes of `s`.
pub uninterp spec fn form_encoded(s: Seq<char>) -> Seq<char>;

/// Relies on `url::form_urlencoded::byte_serialize`: it keeps ASCII letters,
/// digits and `*-._`, writes a space as `+` and every other byte as `%XX`.
#[verifier::external_body]
pub(crate) fn form_encode(s: &str) -> (r: String)
    ensures
        r@ == form_encoded(s@),
        forall|k: int| 0 <= k < r@.len() ==> form_safe(#[trigger] r@[k]),
{
    url::form_urlencoded::byte_serialize(s.as_bytes()).collect()
}

/// The name/value pairs, percent-decoded, of the form-encoded query `q`.
pub uninterp spec fn form_decoded(q: Seq<char>) -> Seq<(Seq<char>, Seq<char>)>;

/// Relies on `url::form_urlencoded::parse`, which splits on `&` and `=` and
/// decodes each name and value.
#[verifier::external_body]
pub(crate) fn form_decode(q: &str) -> (r: Vec<(String, String)>)
    ensures
        pairs_view(r@) == form_decoded(q@),
{
    url::form_urlencoded::parse(q.as_bytes()).map(|(k, v)| (k.into_owned(), v.into_owned())).collect()
}

/// Where the path of the serialized URL `base` ends: at its first `?` or `#`.
pub open spec fn path_end(base: Seq<char>) -> int {
    find_from(base, 0, '?', '#')
}

/// Where the fragment of the serialized URL `base` starts: at its first `#`.
pub open spec fn fragment_start(base: Seq<char>) -> int {
    find_from(base, 0, '#', '#')
}

/// `base` with its query, if any, replaced by `query`; its fragment is kept.
pub open spec fn with_query(base: Seq<char>, query: Seq<char>) -> Seq<char> {
    base.subrange(0, path_end(base)) + "?"@ + query + base.subrange(
        fragment_start(base),
        base.len() as int,
    )
}

/// The query of a serialized URL: what lies between its first `?` or `#`
/// (where that is a `?`) and its first `#`.
pub open spec fn query_of(u: Seq<char>) -> Seq<char> {
    u.subrange(path_end(u) + 1, fragment_start(u))
}

/// Setting a query that holds no `#` and reading it back gives that query.
pub proof fn lemma_query_of_with_query(base: Seq<char>, query: Seq<char>)
    requires
        forall|k: int| 0 <= k < query.len() ==> query[k] != '#',
    ensures
        query_of(with_query(base, query)) == query,
{
    reveal_strlit("?");
    let p = path_end(base);
    let f = fragment_start(base);
    lemma_find_from_bounds(base, 0, '?', '#');
    lemma_find_from_bounds(base, 0, '#', '#');
    let r = with_query(base, query);
    let head = base.subrange(0, p);
    assert(r[p] == '?');
    assert forall|k: int| 0 <= k < p implies r[k] != '?' && r[k] != '#' by {
        assert(r[k] == base[k]);
    }
    lemma_find_from_is_first(r, 0, p, '?', '#');
    let e = p + 1 + query.len();
    if f < p {
        assert(base[f] == '#');
    }
    assert(p <= f);
    assert forall|k: int| 0 <= k < e implies r[k] != '#' && r[k] != '#' by {
        if k < p {
            assert(r[k] == base[k]);
        } else if k > p {
            assert(r[k] == query[k - p - 1]);
        }
    }
    if e < r.len() {
        assert(r[e] == base[f]);
    }
    lemma_find_from_is_first(r, 0, e, '#', '#');
    assert(query_of(r) =~= query);
}

/// Replaces the query of the serialized URL `base` by `query`.
pub fn set_query(base: &str, query: &str) -> (r: String)
    ensures
        r@ == with_query(base@, query@),
{
    let p = find_either(base, '?', '#');
    let f = find_either(base, '#', '#');
    let n = base.unicode_len();
    let mut r = base.substring_char(0, p).to_owned();
    r.append("?");
    r.append(query);
    r.append(base.substring_char(f, n));
    r
}

} // verus!
