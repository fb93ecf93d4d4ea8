//! Request-tracing instrumentation for services built from an HTTP frontend
//! and downstream RPC backends.
//!
//! For every inbound request the library mints (or adopts) a [`RequestId`],
//! builds a root [`span::Span`] with a fixed attribute schema, keeps the
//! identifier visible through a [`scope::ScopedContext`] while the request is
//! handled, and carries it across process boundaries through RPC call
//! metadata, so that one logical request can be correlated end to end.
//!
//! The instrumentation is bookkeeping only: it never alters, wraps or
//! swallows the wrapped handler's response or failure.

use vstd::prelude::*;

pub mod carrier;
pub mod otel;
pub mod relay;
pub mod request;
pub mod request_id;
pub mod root_span;
pub mod root_span_builder;
pub mod scope;
pub mod span;

pub use request_id::RequestId;
pub use request_id::generate_request_id;
pub use root_span::RootSpan;
pub use root_span_builder::{DefaultRootSpanBuilder, RootSpanBuilder, RequestOutcome};

use crate::request::RequestMetadata;
use crate::request_id::{canonical_value, is_canonical};
use crate::root_span_builder::{is_client_error, outcome_classification, outcome_status,
    root_span_schema};
use crate::scope::ScopedContext;
use crate::span::{SpanView, Span, can_record_classification, can_record_status};

verus! {

/// The level of the log event optionally emitted when a request completes in
/// failure.
#[derive(Clone, Copy, PartialEq, Eq, Structural, Debug)]
pub enum LogLevel {
    Warning,
    Error,
}

/// The log event owed for an outcome when error logging is configured:
/// nothing for a produced response, a warning for a client-caused failure, an
/// error for a server-caused one.
pub open spec fn error_event_level(o: RequestOutcome) -> Option<LogLevel> {
    match o {
        RequestOutcome::Success { .. } => None,
        RequestOutcome::Failure { status_code } => if is_client_error(status_code) {
            Some(LogLevel::Warning)
        } else {
            Some(LogLevel::Error)
        },
    }
}

/// The level of the log event to emit for an outcome, if any.
pub fn error_log_level(o: &RequestOutcome) -> (r: Option<LogLevel>)
    ensures
        r == error_event_level(*o),
{
    match o {
        RequestOutcome::Success { .. } => None,
        RequestOutcome::Failure { status_code } => {
            if 400 <= *status_code && *status_code < 500 {
                Some(LogLevel::Warning)
            } else {
                Some(LogLevel::Error)
            }
        },
    }
}

/// The instrumentation middleware constructor: wraps a request-handling
/// service so that every inbound request is traced.
pub struct TracingLogger;

impl TracingLogger {
    /// Wrap a service.
    pub fn new_transform<S>(&self, service: S) -> (m: TracingLoggerMiddleware<S>)
        ensures
            m.inner() == service,
    {
        TracingLoggerMiddleware { service }
    }
}

/// The middleware around one wrapped service. For each inbound request it
/// mints a [`RequestId`], opens the root span, establishes the scoped
/// context, and — once the wrapped service has fully resolved — records the
/// completion attributes and reverts the context. The wrapped service's
/// outcome is forwarded unchanged.
pub struct TracingLoggerMiddleware<S> {
    service: S,
}

impl<S> TracingLoggerMiddleware<S> {
    /// The wrapped service.
    pub closed spec fn inner(&self) -> S {
        self.service
    }

    /// A reference to the wrapped service, to dispatch the request to it.
    pub fn service(&self) -> (r: &S)
        ensures
            r == self.inner(),
    {
        &self.service
    }

    /// Entry bookkeeping for one inbound request: mint a fresh identifier,
    /// build the root span with the fixed attribute schema, and establish the
    /// scoped context so that everything run on behalf of this request can
    /// read the identifier.
    pub fn begin_request(&self, meta: &RequestMetadata, ctx: &mut ScopedContext) -> (r: (
        RequestId,
        RootSpan,
    ))
        ensures
            final(ctx)@ =~= old(ctx)@.push(r.0@),
            is_canonical(r.1@.request_id),
            canonical_value(r.1@.request_id) == r.0@ as int,
            r.1@ == root_span_schema(*meta, r.1@.request_id),
    {
        let request_id = RequestId::generate();
        let span = DefaultRootSpanBuilder::build_root_span(meta, request_id);
        ctx.establish(request_id);
        (request_id, span)
    }

    /// Completion bookkeeping, run after the wrapped service has fully
    /// resolved: record the status code and the tracing-status classification
    /// exactly once, and revert the scoped context. The outcome itself is
    /// only read, never altered.
    pub fn end_request(&self, span: &mut Span, outcome: &RequestOutcome, ctx: &mut ScopedContext)
        requires
            can_record_status(old(span)@),
            can_record_classification(old(span)@),
            old(ctx)@.len() > 0,
        ensures
            final(span)@ == (SpanView {
                http_status_code: Some(outcome_status(*outcome)),
                otel_status_code: Some(outcome_classification(*outcome)),
                ..old(span)@
            }),
            final(ctx)@ =~= old(ctx)@.drop_last(),
    {
        DefaultRootSpanBuilder::finish_root_span(span, outcome);
        ctx.exit();
    }
}

} // verus!
