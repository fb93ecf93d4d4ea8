//! The pluggable policy that opens a request's root span and finalises it.
//!
//! A [`RootSpanBuilder`] is invoked at two lifecycle points: request start,
//! where it computes the root span's attribute set from the request metadata,
//! and request end, where it records the completion attributes from the final
//! outcome. The [`DefaultRootSpanBuilder`] records the fixed schema; custom
//! builders are selected by configuration, not by subclassing.

use vstd::prelude::*;
use vstd::string::*;
use crate::request::{RequestMetadata, method_name, flavor_name, route_name, http_method_str,
    http_flavor, http_route, http_scheme};
use crate::request_id::{RequestId, is_canonical, canonical_value};
use crate::root_span::RootSpan;
use crate::span::{Span, SpanView, TracingStatus, can_record_status, can_record_classification};

verus! {

/// The final outcome of one handled request, as the tracing layer sees it: a
/// response was produced, or the handler failed. Either way a numeric status
/// code describes the outcome. The underlying response or failure value is
/// never altered by the tracing layer; this value is only its bookkeeping
/// view.
#[derive(Clone, Copy, PartialEq, Eq, Structural, Debug)]
pub enum RequestOutcome {
    Success { status_code: u16 },
    Failure { status_code: u16 },
}

/// The numeric status code of an outcome.
pub open spec fn outcome_status(o: RequestOutcome) -> u16 {
    match o {
        RequestOutcome::Success { status_code } => status_code,
        RequestOutcome::Failure { status_code } => status_code,
    }
}

/// Whether a status code marks a client-caused failure.
pub open spec fn is_client_error(status: u16) -> bool {
    400 <= status < 500
}

/// The tracing-status classification policy: a produced response is a
/// tracing success whatever its status code; a handler failure is a tracing
/// success when client-caused and a tracing error only when server-caused,
/// since client errors are not the service's fault.
pub open spec fn outcome_classification(o: RequestOutcome) -> TracingStatus {
    match o {
        RequestOutcome::Success { .. } => TracingStatus::Success,
        RequestOutcome::Failure { status_code } => if is_client_error(status_code) {
            TracingStatus::Success
        } else {
            TracingStatus::Error
        },
    }
}

/// The numeric status code of an outcome.
pub fn outcome_status_code(o: &RequestOutcome) -> (r: u16)
    ensures
        r == outcome_status(*o),
{
    match o {
        RequestOutcome::Success { status_code } => *status_code,
        RequestOutcome::Failure { status_code } => *status_code,
    }
}

/// Classify an outcome at the tracing layer.
pub fn classify_outcome(o: &RequestOutcome) -> (r: TracingStatus)
    ensures
        r == outcome_classification(*o),
{
    match o {
        RequestOutcome::Success { .. } => TracingStatus::Success,
        RequestOutcome::Failure { status_code } => {
            if 400 <= *status_code && *status_code < 500 {
                TracingStatus::Success
            } else {
                TracingStatus::Error
            }
        },
    }
}

/// The fixed attribute schema of a root span built from request metadata: the
/// request attributes valued eagerly, the completion attributes and the trace
/// identifier declared empty.
pub open spec fn root_span_schema(meta: RequestMetadata, request_id_text: Seq<char>) -> SpanView {
    SpanView {
        name: "HTTP request"@,
        http_method: method_name(meta.method),
        http_route: route_name(
            match meta.route {
                Some(s) => Some(s@),
                None => None,
            },
        ),
        http_flavor: flavor_name(meta.version),
        http_scheme: meta.scheme@,
        http_host: meta.host@,
        http_client_ip: meta.client_ip@,
        http_user_agent: meta.user_agent@,
        http_target: meta.target@,
        otel_kind: "server"@,
        request_id: request_id_text,
        http_status_code: None,
        otel_status_code: None,
        trace_id: None,
    }
}

/// The policy invoked at the two request lifecycle points. Whatever the
/// policy, the span it opens carries the request identifier in canonical form
/// with its completion attributes still empty, and finalising records the
/// outcome's status code and classification exactly once.
pub trait RootSpanBuilder {
    fn on_request_start(meta: &RequestMetadata, request_id: RequestId) -> (span: RootSpan)
        ensures
            is_canonical(span@.request_id),
            canonical_value(span@.request_id) == request_id@ as int,
            span@.http_status_code is None,
            span@.otel_status_code is None,
    ;

    fn on_request_end(span: &mut Span, outcome: &RequestOutcome)
        requires
            can_record_status(old(span)@),
            can_record_classification(old(span)@),
        ensures
            final(span)@ == (SpanView {
                http_status_code: Some(outcome_status(*outcome)),
                otel_status_code: Some(outcome_classification(*outcome)),
                ..old(span)@
            }),
    ;
}

/// The provided policy: the fixed attribute schema at start, status code and
/// classification at end.
pub struct DefaultRootSpanBuilder;

impl DefaultRootSpanBuilder {
    /// Build the root span with the fixed attribute schema.
    pub fn build_root_span(meta: &RequestMetadata, request_id: RequestId) -> (span: RootSpan)
        ensures
            is_canonical(span@.request_id),
            canonical_value(span@.request_id) == request_id@ as int,
            span@ == root_span_schema(*meta, span@.request_id),
    {
        let request_id_text = request_id.to_canonical();
        let span = Span::new(
            String::from_str("HTTP request"),
            http_method_str(&meta.method),
            http_route(&meta.route),
            http_flavor(&meta.version),
            http_scheme(meta.scheme.as_str()),
            meta.host.clone(),
            meta.client_ip.clone(),
            meta.user_agent.clone(),
            meta.target.clone(),
            String::from_str("server"),
            request_id_text,
        );
        RootSpan::new(span)
    }

    /// Record the completion attributes from the final outcome.
    pub fn finish_root_span(span: &mut Span, outcome: &RequestOutcome)
        requires
            can_record_status(old(span)@),
            can_record_classification(old(span)@),
        ensures
            final(span)@ == (SpanView {
                http_status_code: Some(outcome_status(*outcome)),
                otel_status_code: Some(outcome_classification(*outcome)),
                ..old(span)@
            }),
    {
        span.record_status_code(outcome_status_code(outcome));
        span.record_tracing_status(classify_outcome(outcome));
    }
}

impl RootSpanBuilder for DefaultRootSpanBuilder {
    fn on_request_start(meta: &RequestMetadata, request_id: RequestId) -> (span: RootSpan) {
        DefaultRootSpanBuilder::build_root_span(meta, request_id)
    }

    fn on_request_end(span: &mut Span, outcome: &RequestOutcome) {
        DefaultRootSpanBuilder::finish_root_span(span, outcome)
    }
}

/// Law: over one request's lifecycle the root span's status code is recorded
/// exactly once and matches the numeric status of the final outcome. The span
/// the builder opens has the attribute empty and recordable; the request-end
/// hook gives it the outcome's status; afterwards recording is impossible.
pub proof fn lemma_status_recorded_exactly_once(
    opened: SpanView,
    finished: SpanView,
    outcome: RequestOutcome,
)
    requires
        opened.http_status_code is None,
        finished == (SpanView {
            http_status_code: Some(outcome_status(outcome)),
            otel_status_code: Some(outcome_classification(outcome)),
            ..opened
        }),
    ensures
        can_record_status(opened),
        finished.http_status_code == Some(outcome_status(outcome)),
        !can_record_status(finished),
{
}

/// Law: a handler failure classified as client-caused yields a
/// tracing-success classification; a server-caused one yields a tracing
/// error; a produced response is always a tracing success.
pub proof fn lemma_failure_classification(status: u16)
    ensures
        is_client_error(status) ==> outcome_classification(
            RequestOutcome::Failure { status_code: status },
        ) == TracingStatus::Success,
        !is_client_error(status) ==> outcome_classification(
            RequestOutcome::Failure { status_code: status },
        ) == TracingStatus::Error,
        outcome_classification(RequestOutcome::Success { status_code: status })
            == TracingStatus::Success,
{
}

} // verus!
