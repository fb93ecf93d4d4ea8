//! The inbound RPC context extractor.

use vstd::prelude::*;
use vstd::string::*;
use crate::carrier::{HeaderCarrier, lookup};
use crate::relay::interceptor::carries_identifier;
use crate::relay::request_id_key;
use crate::request::{HttpMethod, HttpVersion, flavor_name, http_flavor, http_method_str,
    method_name};
use crate::request_id::{RequestId, canonical_value, is_canonical};
use crate::scope::ScopedContext;

verus! {

/// The identifier an inbound call resolves to: the one its metadata carries
/// under the fixed key when that value is a canonical rendering; the freshly
/// minted `fresh` when the key is absent or its value malformed. Absence is
/// the expected case for calls originating outside any instrumented frontend,
/// not an error.
pub open spec fn resolved_identifier(entries: Seq<(Seq<char>, Seq<char>)>, fresh: u128) -> u128 {
    match lookup(entries, request_id_key()) {
        Some(s) => if is_canonical(s) {
            canonical_value(s) as u128
        } else {
            fresh
        },
        None => fresh,
    }
}

/// Read the identifier of an inbound call from its metadata, adopting the
/// carried identifier when it parses and falling back to `fresh` otherwise.
pub fn resolve_request_id(metadata: &HeaderCarrier, fresh: RequestId) -> (r: RequestId)
    ensures
        r@ == resolved_identifier(metadata@, fresh@),
{
    match metadata.get("request_id") {
        Some(v) => match RequestId::parse_canonical(v.as_str()) {
            Some(id) => id,
            None => fresh,
        },
        None => fresh,
    }
}

/// The facts about one inbound RPC call that its span records, together with
/// the call's metadata carrier.
#[derive(Clone, Debug)]
pub struct RpcCallMetadata {
    pub method: HttpMethod,
    pub version: HttpVersion,
    /// The call's target URI.
    pub target: String,
    pub metadata: HeaderCarrier,
}

/// The span opened for one inbound RPC call: its method, protocol version,
/// target and resolved request identifier, all valued at creation.
pub struct RpcSpan {
    pub name: String,
    pub request_id: String,
    pub method: String,
    pub version: String,
    pub target: String,
}

/// Open the span for an inbound RPC call carrying the resolved identifier.
pub fn open_call_span(call: &RpcCallMetadata, request_id: RequestId) -> (span: RpcSpan)
    ensures
        span.name@ == "Request"@,
        is_canonical(span.request_id@),
        canonical_value(span.request_id@) == request_id@ as int,
        span.method@ == method_name(call.method),
        span.version@ == flavor_name(call.version),
        span.target@ == call.target@,
{
    RpcSpan {
        name: String::from_str("Request"),
        request_id: request_id.to_canonical(),
        method: http_method_str(&call.method),
        version: http_flavor(&call.version),
        target: call.target.clone(),
    }
}

/// The wrapper around an RPC service implementation: on each incoming call it
/// resolves the request identifier from the call metadata, opens a span, and
/// re-establishes the scoped context around the wrapped call, whose result or
/// failure passes through unchanged.
#[derive(Clone, Debug)]
pub struct RelayService<S> {
    inner: S,
}

impl<S> RelayService<S> {
    /// The wrapped service implementation.
    pub closed spec fn inner_spec(&self) -> S {
        self.inner
    }

    /// Wrap a service implementation.
    pub fn new(inner: S) -> (r: Self)
        ensures
            r.inner_spec() == inner,
    {
        RelayService { inner }
    }

    /// A reference to the wrapped service, to dispatch the call to it.
    pub fn service(&self) -> (r: &S)
        ensures
            r == self.inner_spec(),
    {
        &self.inner
    }

    /// The wrapped service, for callers that need it mutable to dispatch.
    pub fn service_mut(&mut self) -> (r: &mut S)
        ensures
            *r == old(self).inner_spec(),
            final(self).inner_spec() == *final(r),
    {
        &mut self.inner
    }

    /// Entry bookkeeping for one inbound call: resolve the identifier from
    /// the call's metadata (adopting a carried one, else taking the freshly
    /// minted `fresh`), open the call span, and establish the scoped context
    /// with the resolved identifier.
    pub fn begin_call(&self, call: &RpcCallMetadata, fresh: RequestId, ctx: &mut ScopedContext)
        -> (r: (RequestId, RpcSpan))
        ensures
            r.0@ == resolved_identifier(call.metadata@, fresh@),
            final(ctx)@ =~= old(ctx)@.push(r.0@),
            r.1.name@ == "Request"@,
            is_canonical(r.1.request_id@),
            canonical_value(r.1.request_id@) == r.0@ as int,
            r.1.method@ == method_name(call.method),
            r.1.version@ == flavor_name(call.version),
            r.1.target@ == call.target@,
    {
        let request_id = resolve_request_id(&call.metadata, fresh);
        let span = open_call_span(call, request_id);
        ctx.establish(request_id);
        (request_id, span)
    }

    /// Completion bookkeeping: revert the scoped context once the wrapped
    /// call has fully resolved.
    pub fn end_call(&self, ctx: &mut ScopedContext)
        requires
            old(ctx)@.len() > 0,
        ensures
            final(ctx)@ =~= old(ctx)@.drop_last(),
    {
        ctx.exit();
    }
}

/// Law: round trip. An identifier the injector wrote into a carrier is
/// adopted unchanged by the extractor on the receiving side — never replaced
/// by the freshly minted fallback.
pub proof fn lemma_injected_identifier_adopted(
    entries: Seq<(Seq<char>, Seq<char>)>,
    v: u128,
    fresh: u128,
)
    requires
        carries_identifier(entries, v),
    ensures
        resolved_identifier(entries, fresh) == v,
{
}

/// Law: a call arriving without identifier metadata resolves to the freshly
/// minted identifier.
pub proof fn lemma_absent_identifier_mints_fresh(entries: Seq<(Seq<char>, Seq<char>)>, fresh: u128)
    requires
        lookup(entries, request_id_key()) is None,
    ensures
        resolved_identifier(entries, fresh) == fresh,
{
}

/// Law: identifier metadata that is present but not a canonical rendering is
/// treated exactly like absence — the freshly minted identifier is used and
/// no failure surfaces to the caller.
pub proof fn lemma_malformed_identifier_mints_fresh(
    entries: Seq<(Seq<char>, Seq<char>)>,
    fresh: u128,
)
    requires
        lookup(entries, request_id_key()) is Some,
        !is_canonical(lookup(entries, request_id_key())->Some_0),
    ensures
        resolved_identifier(entries, fresh) == fresh,
{
}

} // verus!
