//! Piping the [`RequestId`](crate::RequestId) across RPC calls.
//!
//! On the calling side the [`interceptor::RelayInterceptor`] reads the
//! ambient identifier from the scoped context and writes its canonical form
//! into the outgoing call's metadata under a fixed, case-insensitive key. On
//! the receiving side the [`service::RelayService`] reads that key back,
//! adopts the identifier it finds — or mints a fresh one when the key is
//! absent or its value malformed — and re-establishes the scoped context
//! around the wrapped call. The [`middleware::Relay`] middleware exposes the
//! identifier of an inbound HTTP request to the interceptor by establishing
//! the same scoped context on the handling task.

use vstd::prelude::*;

pub mod interceptor;
pub mod middleware;
pub mod service;

verus! {

/// The fixed metadata key under which the canonical identifier travels.
/// Carriers compare keys case-insensitively.
pub open spec fn request_id_key() -> Seq<char> {
    "request_id"@
}

} // verus!
