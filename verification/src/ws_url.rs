//! Deriving a proxy configuration from a websocket url.
//!
//! The credential issuer answers with a websocket url of the shape
//! `wss://host/path?token=JWT&...`; the cacheable configuration is the url
//! without its query — scheme, host and path — together with the value of
//! its `token` parameter. Parsing leans on the `url` crate behind trusted
//! wrappers; the lookup and reassembly are verified.

use vstd::prelude::*;

use url::Url;

verus! {

/// The parts of a parsed url that this library reads.
pub struct UrlModel {
    pub scheme: Seq<char>,
    pub host: Option<Seq<char>>,
    pub path: Seq<char>,
    pub query_pairs: Seq<(Seq<char>, Seq<char>)>,
}

#[verifier::external_type_specification]
#[verifier::external_body]
pub struct ExUrl(Url);

/// The parts held by a parsed `url::Url`; the query appears as its decoded
/// key/value pairs in order.
pub uninterp spec fn url_model(u: Url) -> UrlModel;

/// What parsing a text as an absolute url yields: its parts, or nothing when
/// the text is not a valid url.
pub uninterp spec fn url_of(s: Seq<char>) -> Option<UrlModel>;

/// Relies on `url::Url::parse`: the result is a function of the input text
/// alone, and parsing fails exactly when the text is not a valid url.
#[verifier::external_body]
pub(crate) fn url_parse(s: &str) -> (r: Option<Url>)
    ensures
        r is Some <==> url_of(s@) is Some,
        r is Some ==> Some(url_model(r->0)) == url_of(s@),
{
    Url::parse(s).ok()
}

/// Relies on `url::Url::scheme`.
#[verifier::external_body]
pub(crate) fn url_scheme(u: &Url) -> (r: String)
    ensures
        r@ == url_model(*u).scheme,
{
    u.scheme().to_owned()
}

/// Relies on `url::Url::host_str`.
#[verifier::external_body]
pub(crate) fn url_host_str(u: &Url) -> (r: Option<String>)
    ensures
        r is Some <==> url_model(*u).host is Some,
        r is Some ==> Some(r->0@) == url_model(*u).host,
{
    u.host_str().map(|h| h.to_owned())
}

/// Relies on `url::Url::path`.
#[verifier::external_body]
pub(crate) fn url_path(u: &Url) -> (r: String)
    ensures
        r@ == url_model(*u).path,
{
    u.path().to_owned()
}

/// Relies on `url::Url::query_pairs`: the decoded key/value pairs of the
/// query, in order of appearance.
#[verifier::external_body]
pub(crate) fn url_query_pairs(u: &Url) -> (r: Vec<(String, String)>)
    ensures
        r@.len() == url_model(*u).query_pairs.len(),
        forall|i: int|
            0 <= i < r@.len() ==> ({
                let p = #[trigger] r@[i];
                let q = url_model(*u).query_pairs[i];
                p.0@ == q.0 && p.1@ == q.1
            }),
{
    u.query_pairs().map(|(k, v)| (k.into_owned(), v.into_owned())).collect()
}

/// The mathematical content of a list of owned string pairs.
pub open spec fn pairs_view(v: Seq<(String, String)>) -> Seq<(Seq<char>, Seq<char>)> {
    Seq::new(v.len(), |i: int| (v[i].0@, v[i].1@))
}

/// The value of the first pair whose key is `key`, if any.
pub open spec fn first_pair_value(pairs: Seq<(Seq<char>, Seq<char>)>, key: Seq<char>) -> Option<
    Seq<char>,
>
    decreases pairs.len(),
{
    if pairs.len() == 0 {
        None
    } else if pairs[0].0 == key {
        Some(pairs[0].1)
    } else {
        first_pair_value(pairs.skip(1), key)
    }
}

/// Finds the value of the first pair carrying the given key.
fn find_pair_value(pairs: &Vec<(String, String)>, key: &String) -> (r: Option<String>)
    ensures
        r is Some <==> first_pair_value(pairs_view(pairs@), key@) is Some,
        r is Some ==> Some(r->0@) == first_pair_value(pairs_view(pairs@), key@),
{
    let ghost pv = pairs_view(pairs@);
    let n = pairs.len();
    let mut i: usize = 0;
    proof {
        assert(pv.skip(0) =~= pv);
    }
    while i < n
        invariant
            i <= n,
            n == pairs@.len(),
            pv == pairs_view(pairs@),
            first_pair_value(pv, key@) == first_pair_value(pv.skip(i as int), key@),
        decreases n - i,
    {
        proof {
            assert(pv.skip(i as int)[0] == pv[i as int]);
        }
        if pairs[i].0 == *key {
            return Some(pairs[i].1.clone());
        }
        proof {
            assert(pv.skip(i as int).skip(1) =~= pv.skip(i as int + 1));
        }
        i = i + 1;
    }
    proof {
        assert(pv.skip(n as int) =~= Seq::<(Seq<char>, Seq<char>)>::empty());
    }
    None
}

/// The host part of a url model, or the empty text when the url has none.
pub open spec fn host_or_empty(h: Option<Seq<char>>) -> Seq<char> {
    match h {
        Some(x) => x,
        None => Seq::empty(),
    }
}

/// What deriving a proxy configuration from a websocket url yields: the url
/// reassembled from scheme, host and path with no query, paired with the
/// value of its first `token` parameter; absent when the text is not a valid
/// url or carries no `token` parameter.
pub open spec fn proxy_from_ws_url(s: Seq<char>) -> Option<(Seq<char>, Seq<char>)> {
    match url_of(s) {
        None => None,
        Some(m) => match first_pair_value(m.query_pairs, "token"@) {
            None => None,
            Some(tok) => Some((m.scheme + "://"@ + host_or_empty(m.host) + m.path, tok)),
        },
    }
}

/// Derives the cacheable proxy base url (scheme, host and path, no query)
/// and the bearer token from a websocket url such as
/// `wss://proxy.example/path?token=JWT&model=m`.
pub fn extract_proxy_config_from_ws_url(ws_url: &str) -> (r: Option<(String, String)>)
    ensures
        r is Some <==> proxy_from_ws_url(ws_url@) is Some,
        r is Some ==> ({
            let p = r->0;
            Some((p.0@, p.1@)) == proxy_from_ws_url(ws_url@)
        }),
{
    let u = match url_parse(ws_url) {
        Some(u) => u,
        None => {
            return None;
        },
    };
    let pairs = url_query_pairs(&u);
    let key = "token".to_owned();
    proof {
        assert(pairs_view(pairs@) =~= url_model(u).query_pairs);
    }
    let jwt = match find_pair_value(&pairs, &key) {
        Some(j) => j,
        None => {
            return None;
        },
    };
    let mut base = url_scheme(&u);
    base.append("://");
    let host = match url_host_str(&u) {
        Some(h) => h,
        None => String::new(),
    };
    base.append(host.as_str());
    let path = url_path(&u);
    base.append(path.as_str());
    Some((base, jwt))
}

} // verus!
