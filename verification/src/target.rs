//! Construction of the target URL: the upstream host is chosen from the
//! caller's `path` value, the raw path is appended to it, and the remaining
//! query parameters are re-attached by the `url` crate.

use vstd::prelude::*;
use vstd::string::StrSliceExecFns;
use vstd::string::StringExecFns;

use crate::query::filter_params;
use crate::query::pair_views;
use crate::query::path_of;
use crate::query::path_param;
use crate::query::without_path;

verus! {

/// Whether a path routes to the futures host: it starts with `fapi`.
pub open spec fn is_fapi(p: Seq<char>) -> bool {
    p.len() >= 4 && p[0] == 'f' && p[1] == 'a' && p[2] == 'p' && p[3] == 'i'
}

/// The upstream base for a given path value.
pub open spec fn base_of(p: Seq<char>) -> Seq<char> {
    if is_fapi(p) {
        "https://fapi.binance.com/"@
    } else {
        "https://api.binance.com/"@
    }
}

/// The string handed to the URL parser: the selected base followed by the raw
/// path value.
pub open spec fn target_base(p: Seq<char>) -> Seq<char> {
    base_of(p) + p
}

/// Whether `url::Url::parse` accepts a string as an absolute URL.
pub uninterp spec fn url_accepts(s: Seq<char>) -> bool;

/// The serialization of the URL parsed from `s`, untouched.
pub uninterp spec fn url_plain(s: Seq<char>) -> Seq<char>;

/// The serialization of the URL parsed from `s` after the pairs `q` were
/// appended to its query, form-url-encoded.
pub uninterp spec fn url_serialized(s: Seq<char>, q: Seq<(Seq<char>, Seq<char>)>) -> Seq<char>;

/// The parse error's text when `url::Url::parse` rejects `s`.
pub uninterp spec fn url_parse_error(s: Seq<char>) -> Seq<char>;

/// Whether a path value starts with `fapi`.
pub fn starts_with_fapi(path: &str) -> (r: bool)
    ensures
        r == is_fapi(path@),
{
    if path.unicode_len() < 4 {
        return false;
    }
    path.get_char(0) == 'f' && path.get_char(1) == 'a' && path.get_char(2) == 'p'
        && path.get_char(3) == 'i'
}

/// The selected base with the raw path appended, ready for the URL parser.
pub fn target_base_string(path: &str) -> (r: String)
    ensures
        r@ == target_base(path@),
{
    let mut s: String = if starts_with_fapi(path) {
        "https://fapi.binance.com/".to_owned()
    } else {
        "https://api.binance.com/".to_owned()
    };
    s.append(path);
    s
}

/// Relies on `url::Url::parse` and `Url`'s `Display`: parsing either yields a
/// URL whose serialization is a function of the input string alone, or a
/// parse error whose text is likewise a function of the input alone.
#[verifier::external_body]
fn url_normalize(base: &str) -> (r: Result<String, String>)
    ensures
        r is Ok <==> url_accepts(base@),
        r matches Ok(t) ==> t@ == url_plain(base@),
        r matches Err(e) ==> e@ == url_parse_error(base@),
{
    match url::Url::parse(base) {
        Ok(u) => Ok(u.to_string()),
        Err(e) => Err(format!("{}", e)),
    }
}

/// Relies on `url::Url::parse`, `Url::query_pairs_mut` and
/// `form_urlencoded::Serializer::extend_pairs`: appending pairs to the query
/// and serializing is a function of the input string and the pairs alone; a
/// parse failure yields the same error text as parsing alone would.
#[verifier::external_body]
fn url_with_pairs(base: &str, pairs: &Vec<(String, String)>) -> (r: Result<String, String>)
    ensures
        r is Ok <==> url_accepts(base@),
        r matches Ok(t) ==> t@ == url_serialized(base@, pair_views(pairs@)),
        r matches Err(e) ==> e@ == url_parse_error(base@),
{
    match url::Url::parse(base) {
        Ok(mut u) => {
            u.query_pairs_mut().extend_pairs(pairs.iter());
            Ok(u.to_string())
        },
        Err(e) => Err(format!("{}", e)),
    }
}

/// The target URL for a caller's pair list: the base selected by the `path`
/// value with the raw path appended, parsed, and with the remaining pairs
/// re-attached as the query. When no pairs remain, the query is left
/// untouched, so the target carries no query string at all.
pub open spec fn target_of(q: Seq<(Seq<char>, Seq<char>)>) -> Seq<char> {
    let base = target_base(path_of(q));
    if without_path(q).len() == 0 {
        url_plain(base)
    } else {
        url_serialized(base, without_path(q))
    }
}

/// Builds the target URL from the caller's parameters, or reports the parse
/// error's text. No network is touched here: the result is a plain string.
pub fn build_target(params: &Vec<(String, String)>) -> (r: Result<String, String>)
    ensures
        r is Ok <==> url_accepts(target_base(path_of(pair_views(params@)))),
        r matches Ok(t) ==> t@ == target_of(pair_views(params@)),
        r matches Err(e) ==> e@ == url_parse_error(target_base(path_of(pair_views(params@)))),
{
    let path = path_param(params);
    let base = target_base_string(path.as_str());
    let rest = filter_params(params);
    if rest.len() == 0 {
        url_normalize(base.as_str())
    } else {
        url_with_pairs(base.as_str(), &rest)
    }
}

/// Host-selection law: the string handed to the URL parser begins with the
/// futures base exactly when the path starts with `fapi`, and with the spot
/// base otherwise; in both cases the rest is the raw path value.
pub proof fn lemma_target_base_host(p: Seq<char>)
    ensures
        is_fapi(p) ==> target_base(p).take(25) == "https://fapi.binance.com/"@
            && target_base(p).skip(25) == p,
        !is_fapi(p) ==> target_base(p).take(24) == "https://api.binance.com/"@
            && target_base(p).skip(24) == p,
{
    reveal_strlit("https://fapi.binance.com/");
    reveal_strlit("https://api.binance.com/");
    if is_fapi(p) {
        assert(("https://fapi.binance.com/"@ + p).take(25) =~= "https://fapi.binance.com/"@);
        assert(("https://fapi.binance.com/"@ + p).skip(25) =~= p);
    } else {
        assert(("https://api.binance.com/"@ + p).take(24) =~= "https://api.binance.com/"@);
        assert(("https://api.binance.com/"@ + p).skip(24) =~= p);
    }
}

} // verus!
