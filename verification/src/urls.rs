//! Addresses and query strings, as far as the `url` and `serde_urlencoded`
//! crates read them.  The contracts here are believed, not proved.

use crate::config::BrokerUrl;
use crate::text::opt_view;
use vstd::prelude::*;

verus! {

/// What the `url` crate reads from `text` as an address of its own: scheme,
/// host, port, user and password; `None` where it rejects the text.
pub uninterp spec fn url_parts(text: Seq<char>) -> Option<
    (Seq<char>, Option<Seq<char>>, Option<u16>, Seq<char>, Option<Seq<char>>),
>;

/// The path and the query that the `url` crate reads from `reference` taken
/// relative to `base`, both still percent-encoded; `None` where it rejects
/// either.
pub uninterp spec fn url_path_and_query(base: Seq<char>, reference: Seq<char>) -> Option<
    (Seq<char>, Option<Seq<char>>),
>;

/// The pairs of name and value that `serde_urlencoded` reads from a query
/// string, decoded and in their order; `None` where it rejects the string.
pub uninterp spec fn form_pairs(query: Seq<char>) -> Option<Seq<(Seq<char>, Seq<char>)>>;

/// The parts of a broker's address, by their characters.
pub open spec fn broker_url_view(url: BrokerUrl) -> (
    Seq<char>,
    Option<Seq<char>>,
    Option<u16>,
    Seq<char>,
    Option<Seq<char>>,
) {
    (url.scheme@, opt_view(url.host), url.port, url.username@, opt_view(url.password))
}

/// The pairs of a query, by their characters.
pub open spec fn pairs_view(pairs: Seq<(String, String)>) -> Seq<(Seq<char>, Seq<char>)> {
    pairs.map_values(|p: (String, String)| (p.0@, p.1@))
}

/// Calls `url::Url::parse` and reads the parts of the address with the
/// accessors `scheme`, `host_str`, `port`, `username` and `password`.
#[verifier::external_body]
pub(crate) fn parse_broker_url(text: &str) -> (r: Option<BrokerUrl>)
    ensures
        match r {
            Some(url) => url_parts(text@) == Some(broker_url_view(url)),
            None => url_parts(text@) is None,
        },
{
    let url = url::Url::parse(text).ok()?;
    Some(
        BrokerUrl {
            scheme: url.scheme().to_owned(),
            host: url.host_str().map(str::to_owned),
            port: url.port(),
            username: url.username().to_owned(),
            password: url.password().map(str::to_owned),
        },
    )
}

/// Calls `url::Url::parse` on `base`, then `url::ParseOptions::parse` on
/// `reference` with that base, and reads `path` and `query` of the result.
#[verifier::external_body]
pub(crate) fn parse_reference(base: &str, reference: &str) -> (r: Option<(String, Option<String>)>)
    ensures
        match r {
            Some((path, query)) => url_path_and_query(base@, reference@) == Some(
                (path@, opt_view(query)),
            ),
            None => url_path_and_query(base@, reference@) is None,
        },
{
    let base = url::Url::parse(base).ok()?;
    let url = url::Url::options().base_url(Some(&base)).parse(reference).ok()?;
    Some((url.path().to_owned(), url.query().map(str::to_owned)))
}

/// Calls `serde_urlencoded::from_str` for a list of pairs of strings.
#[verifier::external_body]
pub(crate) fn parse_query(query: &str) -> (r: Option<Vec<(String, String)>>)
    ensures
        match r {
            Some(pairs) => form_pairs(query@) == Some(pairs_view(pairs@)),
            None => form_pairs(query@) is None,
        },
{
    serde_urlencoded::from_str::<Vec<(String, String)>>(query).ok()
}

} // verus!
