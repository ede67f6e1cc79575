//! Building the HTTP client that each worker sends its requests with.
use crate::config::ConfigError;
use vstd::prelude::*;

verus! {

#[verifier::external_type_specification]
#[verifier::external_body]
pub struct ExClient(reqwest::Client);

#[verifier::external_type_specification]
#[verifier::external_body]
pub struct ExClientBuilder(reqwest::ClientBuilder);

#[verifier::external_type_specification]
#[verifier::external_body]
pub struct ExProxy(reqwest::Proxy);

#[verifier::external_type_specification]
#[verifier::external_body]
pub struct ExReqwestError(reqwest::Error);

#[verifier::external_type_specification]
#[verifier::external_body]
pub struct ExHeaderValue(reqwest::header::HeaderValue);

#[verifier::external_type_specification]
#[verifier::external_body]
#[verifier::reject_recursive_types(T)]
pub struct ExHeaderMap<T>(reqwest::header::HeaderMap<T>);

/// What a header map holds: for each header name, in lower case, the value
/// that a lookup of that name finds.
pub uninterp spec fn header_entries(m: reqwest::header::HeaderMap) -> Map<Seq<char>, Seq<char>>;

/// Whether reqwest accepts a string as a proxy URL.
pub uninterp spec fn proxy_url_accepted(s: Seq<char>) -> bool;

/// A character that may stand in a header name given in lower case.
pub open spec fn is_header_name_char(c: char) -> bool {
    ('a' <= c && c <= 'z') || ('0' <= c && c <= '9') || c == '-'
}

/// A character that may stand in a header value: visible ASCII or a space.
pub open spec fn is_header_value_char(c: char) -> bool {
    ' ' <= c && c <= '~'
}

/// A header map with nothing in it.
pub open spec fn no_header_entries() -> Map<Seq<char>, Seq<char>> {
    Map::empty()
}

/// The headers that every request of a batch carries.
pub open spec fn default_header_entries() -> Map<Seq<char>, Seq<char>> {
    map![
        "accept"@ => "*/*"@,
        "connection"@ => "keep-alive"@,
        "user-agent"@ => "Mozilla/5.0 (Windows NT 10.0; WOW64; rv:70.0) Gecko/20100101 Firefox/70.0"@,
    ]
}

/// Relies on reqwest::header::HeaderMap::new: the new map holds no header.
#[verifier::external_body]
fn empty_header_map() -> (r: reqwest::header::HeaderMap)
    ensures
        header_entries(r) == no_header_entries(),
{
    reqwest::header::HeaderMap::new()
}

/// Relies on reqwest::header::HeaderMap::insert: the name now maps to the
/// value alone, and other names keep theirs. The name and value are made with
/// `from_static`, which accepts them by the character rules required here;
/// a map of a few entries stays far below the size at which `insert` panics.
#[verifier::external_body]
fn insert_header(m: &mut reqwest::header::HeaderMap, name: &'static str, value: &'static str)
    requires
        1 <= name@.len() <= 100,
        forall|i: int| 0 <= i < name@.len() ==> is_header_name_char(#[trigger] name@[i]),
        forall|i: int| 0 <= i < value@.len() ==> is_header_value_char(#[trigger] value@[i]),
        header_entries(*old(m)).dom().finite(),
        header_entries(*old(m)).dom().len() < 16,
    ensures
        header_entries(*final(m)) == header_entries(*old(m)).insert(name@, value@),
{
    m.insert(
        reqwest::header::HeaderName::from_static(name),
        reqwest::header::HeaderValue::from_static(value),
    );
}

/// The header map that every client of a batch is built with.
pub fn default_headers() -> (r: reqwest::header::HeaderMap)
    ensures
        header_entries(r) == default_header_entries(),
{
    let mut m = empty_header_map();
    proof {
        reveal_strlit("accept");
        reveal_strlit("*/*");
        reveal_strlit("connection");
        reveal_strlit("keep-alive");
        reveal_strlit("user-agent");
        reveal_strlit(
            "Mozilla/5.0 (Windows NT 10.0; WOW64; rv:70.0) Gecko/20100101 Firefox/70.0",
        );
    }
    insert_header(&mut m, "accept", "*/*");
    insert_header(&mut m, "connection", "keep-alive");
    insert_header(
        &mut m,
        "user-agent",
        "Mozilla/5.0 (Windows NT 10.0; WOW64; rv:70.0) Gecko/20100101 Firefox/70.0",
    );
    assert(header_entries(m) =~= default_header_entries());
    m
}

/// Relies on reqwest::Proxy::all: it parses the string as the URL of a proxy
/// for all traffic, and fails exactly where reqwest rejects that URL.
#[verifier::external_body]
fn proxy_for_all(p: &str) -> (r: Result<reqwest::Proxy, reqwest::Error>)
    ensures
        r is Ok == proxy_url_accepted(p@),
{
    reqwest::Proxy::all(p)
}

/// Relies on reqwest::ClientBuilder::new: a builder with reqwest's defaults.
pub assume_specification[ reqwest::ClientBuilder::new ]() -> reqwest::ClientBuilder;

/// Relies on reqwest::ClientBuilder::default_headers: it adds the headers to
/// every request of the client.
pub assume_specification[ reqwest::ClientBuilder::default_headers ](
    b: reqwest::ClientBuilder,
    headers: reqwest::header::HeaderMap,
) -> reqwest::ClientBuilder;

/// Relies on reqwest::ClientBuilder::proxy: the client sends through the proxy.
pub assume_specification[ reqwest::ClientBuilder::proxy ](
    b: reqwest::ClientBuilder,
    proxy: reqwest::Proxy,
) -> reqwest::ClientBuilder;

/// Relies on reqwest::ClientBuilder::build, which may fail where the TLS
/// backend or the system resolver configuration cannot be loaded.
pub assume_specification[ reqwest::ClientBuilder::build ](b: reqwest::ClientBuilder) -> Result<
    reqwest::Client,
    reqwest::Error,
>;

/// Builds one worker's HTTP client: the default headers, and the proxy when
/// one is given. A proxy URL that reqwest rejects gives `InvalidProxy`; any
/// other failure to build gives `TransportBuild`.
pub fn build_client(proxy: &Option<String>) -> (r: Result<reqwest::Client, ConfigError>)
    ensures
        (r == Err::<reqwest::Client, ConfigError>(ConfigError::InvalidProxy)) <==> (
        proxy matches Some(p) && !proxy_url_accepted(p@)),
        r matches Err(e) ==> e == ConfigError::InvalidProxy || e == ConfigError::TransportBuild,
{
    let mut builder = reqwest::ClientBuilder::new().default_headers(default_headers());
    match proxy {
        Some(p) => {
            match proxy_for_all(p.as_str()) {
                Ok(px) => {
                    builder = builder.proxy(px);
                },
                Err(_) => {
                    return Err(ConfigError::InvalidProxy);
                },
            }
        },
        None => {},
    }
    match builder.build() {
        Ok(client) => Ok(client),
        Err(_) => Err(ConfigError::TransportBuild),
    }
}

} // verus!
