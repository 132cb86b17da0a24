use ruma::api::client::discovery::{discover_homeserver, get_supported_versions};
use ruma::api::IncomingResponseExt;
use vstd::prelude::*;

verus! {

/// `s` begins with `p`.
pub open spec fn starts_with(s: Seq<char>, p: Seq<char>) -> bool {
    p.len() <= s.len() && s.subrange(0, p.len() as int) == p
}

/// `u` already names its scheme.
pub open spec fn has_scheme(u: Seq<char>) -> bool {
    starts_with(u, "https://"@) || starts_with(u, "http://"@)
}

/// The base that requests go to: `u` itself when it names a scheme, else `https://u`.
pub open spec fn base_of(u: Seq<char>) -> Seq<char> {
    if has_scheme(u) {
        u
    } else {
        "https://"@ + u
    }
}

/// Where the client well-known document of the domain `name` is served.
pub open spec fn well_known_url(name: Seq<char>) -> Seq<char> {
    "https://"@ + name + "/.well-known/matrix/client"@
}

/// Where the homeserver at `u` lists the client API versions it supports.
pub open spec fn versions_url(u: Seq<char>) -> Seq<char> {
    base_of(u) + "/_matrix/client/versions"@
}

/// The base URL that a client well-known response with this status and body
/// announces, if it is a well-formed document.
pub uninterp spec fn well_known_base_url(status: u16, body: Seq<u8>) -> Option<Seq<char>>;

/// A versions response with this status and body is a well-formed list of
/// supported versions.
pub uninterp spec fn versions_accepted(status: u16, body: Seq<u8>) -> bool;

/// Relies on ruma's `discover_homeserver::Response::try_from_http_response`,
/// which reads `m.homeserver.base_url` from a client well-known document and
/// refuses every response whose status is 400 or more.
#[verifier::external_body]
fn parse_well_known(status: u16, body: &[u8]) -> (r: Option<String>)
    ensures
        r is Some <==> well_known_base_url(status, body@) is Some,
        r is Some ==> well_known_base_url(status, body@) == Some(r->0@),
        status >= 400 ==> r is None,
{
    let mut response = http::Response::new(body);
    *response.status_mut() = match http::StatusCode::from_u16(status) {
        Ok(s) => s,
        Err(_) => return None,
    };
    match discover_homeserver::Response::try_from_http_response(response) {
        Ok(r) => Some(r.homeserver.base_url),
        Err(_) => None,
    }
}

/// Relies on ruma's `get_supported_versions::Response::try_from_http_response`,
/// which reads a list of supported versions and refuses every response whose
/// status is 400 or more.
#[verifier::external_body]
fn parse_versions(status: u16, body: &[u8]) -> (r: bool)
    ensures
        r == versions_accepted(status, body@),
        status >= 400 ==> !r,
{
    let mut response = http::Response::new(body);
    *response.status_mut() = match http::StatusCode::from_u16(status) {
        Ok(s) => s,
        Err(_) => return false,
    };
    get_supported_versions::Response::try_from_http_response(response).is_ok()
}

/// The base URL announced by a client well-known response.
pub fn well_known_base_url_of(status: u16, body: &Vec<u8>) -> (r: Option<String>)
    ensures
        r is Some <==> well_known_base_url(status, body@) is Some,
        r is Some ==> well_known_base_url(status, body@) == Some(r->0@),
{
    parse_well_known(status, body.as_slice())
}

/// Whether a versions response shows a working homeserver: status 200 and a
/// well-formed list of supported versions.
pub fn versions_ok(status: u16, body: &Vec<u8>) -> (r: bool)
    ensures
        r == (status == 200 && versions_accepted(status, body@)),
{
    status == 200 && parse_versions(status, body.as_slice())
}

/// Whether `s` begins with `p`.
pub fn str_starts_with(s: &str, p: &str) -> (r: bool)
    ensures
        r == starts_with(s@, p@),
{
    let n = p.unicode_len();
    let m = s.unicode_len();
    if n > m {
        return false;
    }
    let mut i: usize = 0;
    while i < n
        invariant
            i <= n <= m,
            n == p@.len(),
            m == s@.len(),
            forall|j: int| 0 <= j < i ==> s@[j] == p@[j],
        decreases n - i,
    {
        if s.get_char(i) != p.get_char(i) {
            assert(s@.subrange(0, n as int)[i as int] != p@[i as int]);
            return false;
        }
        i = i + 1;
    }
    assert(s@.subrange(0, n as int) =~= p@);
    true
}

/// The URL of the client well-known document of the domain `name`.
pub fn well_known_url_of(name: &str) -> (r: String)
    ensures
        r@ == well_known_url(name@),
{
    let mut u = String::from_str("https://");
    u.append(name);
    u.append("/.well-known/matrix/client");
    u
}

/// The URL of the versions list of the homeserver at `url`.
pub fn versions_url_of(url: &str) -> (r: String)
    ensures
        r@ == versions_url(url@),
{
    let mut u = if str_starts_with(url, "https://") || str_starts_with(url, "http://") {
        String::from_str(url)
    } else {
        let mut b = String::from_str("https://");
        b.append(url);
        b
    };
    u.append("/_matrix/client/versions");
    u
}

} // verus!
