//! Plain-value views of inbound request metadata.
//!
//! The instrumentation layer reads a fixed set of facts about each inbound
//! request: method, matched route pattern, protocol version, scheme, host,
//! client IP, user agent and the path-and-query target. They are modelled here
//! as plain values so that the span-building logic is independent of any
//! particular server framework; the surrounding process converts its own
//! request type into a [`RequestMetadata`] at the boundary.

use vstd::prelude::*;
use vstd::string::*;

verus! {

/// A transport method, the well-known ones by name.
#[derive(Clone, Debug)]
pub enum HttpMethod {
    Options,
    Get,
    Post,
    Put,
    Delete,
    Head,
    Trace,
    Connect,
    Patch,
    /// Any other method, carried as its textual form.
    Other(String),
}

/// A protocol version, the well-known ones by name.
#[derive(Clone, Debug)]
pub enum HttpVersion {
    V09,
    V10,
    V11,
    V2,
    V3,
    /// Any other version, carried as its textual form.
    Other(String),
}

/// The textual form of a method, as recorded on spans.
pub open spec fn method_name(m: HttpMethod) -> Seq<char> {
    match m {
        HttpMethod::Options => "OPTIONS"@,
        HttpMethod::Get => "GET"@,
        HttpMethod::Post => "POST"@,
        HttpMethod::Put => "PUT"@,
        HttpMethod::Delete => "DELETE"@,
        HttpMethod::Head => "HEAD"@,
        HttpMethod::Trace => "TRACE"@,
        HttpMethod::Connect => "CONNECT"@,
        HttpMethod::Patch => "PATCH"@,
        HttpMethod::Other(s) => s@,
    }
}

/// The textual form of a protocol version, as recorded on spans.
pub open spec fn flavor_name(v: HttpVersion) -> Seq<char> {
    match v {
        HttpVersion::V09 => "0.9"@,
        HttpVersion::V10 => "1.0"@,
        HttpVersion::V11 => "1.1"@,
        HttpVersion::V2 => "2.0"@,
        HttpVersion::V3 => "3.0"@,
        HttpVersion::Other(s) => s@,
    }
}

/// Render a method in its textual form.
pub fn http_method_str(method: &HttpMethod) -> (r: String)
    ensures
        r@ == method_name(*method),
{
    match method {
        HttpMethod::Options => String::from_str("OPTIONS"),
        HttpMethod::Get => String::from_str("GET"),
        HttpMethod::Post => String::from_str("POST"),
        HttpMethod::Put => String::from_str("PUT"),
        HttpMethod::Delete => String::from_str("DELETE"),
        HttpMethod::Head => String::from_str("HEAD"),
        HttpMethod::Trace => String::from_str("TRACE"),
        HttpMethod::Connect => String::from_str("CONNECT"),
        HttpMethod::Patch => String::from_str("PATCH"),
        HttpMethod::Other(s) => s.clone(),
    }
}

/// Render a protocol version in its textual form.
pub fn http_flavor(version: &HttpVersion) -> (r: String)
    ensures
        r@ == flavor_name(*version),
{
    match version {
        HttpVersion::V09 => String::from_str("0.9"),
        HttpVersion::V10 => String::from_str("1.0"),
        HttpVersion::V11 => String::from_str("1.1"),
        HttpVersion::V2 => String::from_str("2.0"),
        HttpVersion::V3 => String::from_str("3.0"),
        HttpVersion::Other(s) => s.clone(),
    }
}

/// Normalise a scheme for recording on a span. Every scheme passes through
/// with its content unchanged; the well-known schemes are simply the common
/// case.
pub fn http_scheme(scheme: &str) -> (r: String)
    ensures
        r@ == scheme@,
{
    String::from_str(scheme)
}

/// The route attribute recorded when no route pattern matched.
pub open spec fn default_route() -> Seq<char> {
    "default"@
}

/// The facts about one inbound request that the root span records.
#[derive(Clone, Debug)]
pub struct RequestMetadata {
    pub method: HttpMethod,
    /// The matched route pattern, or `None` when nothing matched.
    pub route: Option<String>,
    pub version: HttpVersion,
    pub scheme: String,
    pub host: String,
    /// Best-effort client address; may be empty.
    pub client_ip: String,
    /// The user-agent header; may be empty.
    pub user_agent: String,
    /// The path-and-query target.
    pub target: String,
}

/// The route attribute for a request: the matched pattern, or the fixed
/// fallback literal when nothing matched.
pub open spec fn route_name(route: Option<Seq<char>>) -> Seq<char> {
    match route {
        Some(r) => r,
        None => default_route(),
    }
}

/// Render the route attribute of a request.
pub fn http_route(route: &Option<String>) -> (r: String)
    ensures
        r@ == route_name(match route {
            Some(s) => Some(s@),
            None => None,
        }),
{
    match route {
        Some(s) => s.clone(),
        None => String::from_str("default"),
    }
}

} // verus!
