use request_tracing::otel::{apply_trace_parent, format_trace_id};
use request_tracing::request::{
    http_flavor, http_method_str, http_route, http_scheme, HttpMethod, HttpVersion,
    RequestMetadata,
};
use request_tracing::root_span_builder::{classify_outcome, outcome_status_code};
use request_tracing::span::TracingStatus;
use request_tracing::scope::ScopedContext;
use request_tracing::{
    error_log_level, DefaultRootSpanBuilder, LogLevel, RequestId, RequestOutcome, TracingLogger,
};

fn sample_metadata() -> RequestMetadata {
    RequestMetadata {
        method: HttpMethod::Get,
        route: Some(String::from("/users/{id}")),
        version: HttpVersion::V11,
        scheme: String::from("https"),
        host: String::from("example.com"),
        client_ip: String::from("10.0.0.1"),
        user_agent: String::from("test-agent"),
        target: String::from("/users/42?verbose=true"),
    }
}

#[test]
fn method_rendering() {
    assert_eq!(http_method_str(&HttpMethod::Get), "GET");
    assert_eq!(http_method_str(&HttpMethod::Patch), "PATCH");
    assert_eq!(
        http_method_str(&HttpMethod::Other(String::from("PROPFIND"))),
        "PROPFIND"
    );
}

#[test]
fn flavor_rendering() {
    assert_eq!(http_flavor(&HttpVersion::V09), "0.9");
    assert_eq!(http_flavor(&HttpVersion::V2), "2.0");
    assert_eq!(http_flavor(&HttpVersion::Other(String::from("HTTP/9"))), "HTTP/9");
}

#[test]
fn scheme_passes_through() {
    assert_eq!(http_scheme("http"), "http");
    assert_eq!(http_scheme("https"), "https");
    assert_eq!(http_scheme("gemini"), "gemini");
}

#[test]
fn route_falls_back_to_default() {
    assert_eq!(http_route(&Some(String::from("/users/{id}"))), "/users/{id}");
    assert_eq!(http_route(&None), "default");
}

#[test]
fn root_span_carries_the_schema() {
    let meta = sample_metadata();
    let id = RequestId::from_value(7);
    let root = DefaultRootSpanBuilder::build_root_span(&meta, id);
    let span = root.span();
    assert_eq!(span.name().as_str(), "HTTP request");
    assert_eq!(span.http_method().as_str(), "GET");
    assert_eq!(span.http_route().as_str(), "/users/{id}");
    assert_eq!(span.http_flavor().as_str(), "1.1");
    assert_eq!(span.http_scheme().as_str(), "https");
    assert_eq!(span.http_host().as_str(), "example.com");
    assert_eq!(span.http_client_ip().as_str(), "10.0.0.1");
    assert_eq!(span.http_user_agent().as_str(), "test-agent");
    assert_eq!(span.http_target().as_str(), "/users/42?verbose=true");
    assert_eq!(span.otel_kind().as_str(), "server");
    assert_eq!(
        span.request_id().as_str(),
        "00000000-0000-0000-0000-000000000007"
    );
    assert!(span.status_code().is_none());
    assert!(span.tracing_status().is_none());
    assert!(span.trace_id().is_none());
}

#[test]
fn unmatched_route_is_recorded_as_default() {
    let mut meta = sample_metadata();
    meta.route = None;
    let root = DefaultRootSpanBuilder::build_root_span(&meta, RequestId::from_value(1));
    assert_eq!(root.span().http_route().as_str(), "default");
}

#[test]
fn completion_records_status_of_success() {
    let mut span = DefaultRootSpanBuilder::build_root_span(
        &sample_metadata(),
        RequestId::from_value(1),
    )
    .into_inner();
    DefaultRootSpanBuilder::finish_root_span(
        &mut span,
        &RequestOutcome::Success { status_code: 200 },
    );
    assert_eq!(span.status_code(), Some(200));
    assert_eq!(span.tracing_status(), Some(TracingStatus::Success));
}

#[test]
fn client_error_failure_is_tracing_success() {
    let mut span = DefaultRootSpanBuilder::build_root_span(
        &sample_metadata(),
        RequestId::from_value(1),
    )
    .into_inner();
    DefaultRootSpanBuilder::finish_root_span(
        &mut span,
        &RequestOutcome::Failure { status_code: 400 },
    );
    assert_eq!(span.status_code(), Some(400));
    assert_eq!(span.tracing_status(), Some(TracingStatus::Success));
}

#[test]
fn server_error_failure_is_tracing_error() {
    let mut span = DefaultRootSpanBuilder::build_root_span(
        &sample_metadata(),
        RequestId::from_value(1),
    )
    .into_inner();
    DefaultRootSpanBuilder::finish_root_span(
        &mut span,
        &RequestOutcome::Failure { status_code: 503 },
    );
    assert_eq!(span.status_code(), Some(503));
    assert_eq!(span.tracing_status(), Some(TracingStatus::Error));
}

#[test]
fn produced_response_is_tracing_success_whatever_its_status() {
    assert_eq!(
        classify_outcome(&RequestOutcome::Success { status_code: 500 }),
        TracingStatus::Success
    );
    assert_eq!(
        classify_outcome(&RequestOutcome::Failure { status_code: 499 }),
        TracingStatus::Success
    );
    assert_eq!(
        classify_outcome(&RequestOutcome::Failure { status_code: 399 }),
        TracingStatus::Error
    );
}

#[test]
fn outcome_status_codes() {
    assert_eq!(
        outcome_status_code(&RequestOutcome::Success { status_code: 204 }),
        204
    );
    assert_eq!(
        outcome_status_code(&RequestOutcome::Failure { status_code: 404 }),
        404
    );
}

#[test]
fn error_log_levels() {
    assert_eq!(
        error_log_level(&RequestOutcome::Success { status_code: 200 }),
        None
    );
    assert_eq!(
        error_log_level(&RequestOutcome::Failure { status_code: 404 }),
        Some(LogLevel::Warning)
    );
    assert_eq!(
        error_log_level(&RequestOutcome::Failure { status_code: 500 }),
        Some(LogLevel::Error)
    );
}

#[test]
fn middleware_begin_and_end() {
    let logger = TracingLogger;
    let middleware = logger.new_transform(());
    let mut ctx = ScopedContext::new();
    let (request_id, root) = middleware.begin_request(&sample_metadata(), &mut ctx);
    assert_eq!(ctx.current().unwrap().value(), request_id.value());
    assert_eq!(
        root.span().request_id().as_str(),
        request_id.to_canonical().as_str()
    );
    let mut span = root.into_inner();
    middleware.end_request(
        &mut span,
        &RequestOutcome::Success { status_code: 200 },
        &mut ctx,
    );
    assert_eq!(span.status_code(), Some(200));
    assert_eq!(span.tracing_status(), Some(TracingStatus::Success));
    assert!(!ctx.is_established());
}

#[test]
fn trace_id_renders_as_32_hex_digits() {
    assert_eq!(format_trace_id(0), "00000000000000000000000000000000");
    assert_eq!(format_trace_id(0xabc), "00000000000000000000000000000abc");
    assert_eq!(format_trace_id(u128::MAX), "ffffffffffffffffffffffffffffffff");
}

#[test]
fn trace_parent_is_recorded_on_the_span() {
    let mut span = DefaultRootSpanBuilder::build_root_span(
        &sample_metadata(),
        RequestId::from_value(1),
    )
    .into_inner();
    apply_trace_parent(&mut span, 0x1234);
    assert_eq!(
        span.trace_id().unwrap().as_str(),
        "00000000000000000000000000001234"
    );
}
