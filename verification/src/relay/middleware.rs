//! The middleware that exposes an inbound HTTP request's identifier to the
//! outbound RPC interceptor.
//!
//! It runs beneath the instrumentation middleware, reads the identifier that
//! the latter stored for the request, and establishes the scoped context on
//! the handling task so that the
//! [`RelayInterceptor`](crate::relay::interceptor::RelayInterceptor) finds it
//! there for every RPC call the handler makes.

use vstd::prelude::*;
use crate::request_id::RequestId;
use crate::scope::ScopedContext;

verus! {

/// The relay middleware constructor.
#[derive(Clone, Copy, Debug)]
pub struct Relay;

impl Relay {
    /// Wrap a service.
    pub fn new_transform<S>(&self, service: S) -> (m: RelayMiddleware<S>)
        ensures
            m.inner() == service,
    {
        RelayMiddleware { service }
    }
}

/// The relay middleware around one wrapped service. The request identifier it
/// establishes is the one the instrumentation middleware stored for the
/// request; a request that never passed through the instrumentation
/// middleware has none, which is a configuration error the caller must fail
/// on before entering the scope.
pub struct RelayMiddleware<S> {
    service: S,
}

impl<S> RelayMiddleware<S> {
    /// The wrapped service.
    pub closed spec fn inner(&self) -> S {
        self.service
    }

    /// A reference to the wrapped service, to dispatch the request to it.
    pub fn service(&self) -> (r: &S)
        ensures
            r == self.inner(),
    {
        &self.service
    }

    /// Establish the request's identifier as the ambient value for the
    /// duration of the wrapped call.
    pub fn enter_scope(&self, request_id: RequestId, ctx: &mut ScopedContext)
        ensures
            final(ctx)@ =~= old(ctx)@.push(request_id@),
    {
        ctx.establish(request_id);
    }

    /// Revert the scope once the wrapped call has fully resolved.
    pub fn leave_scope(&self, ctx: &mut ScopedContext)
        requires
            old(ctx)@.len() > 0,
        ensures
            final(ctx)@ =~= old(ctx)@.drop_last(),
    {
        ctx.exit();
    }
}

} // verus!
