use request_tracing::carrier::HeaderCarrier;
use request_tracing::relay::interceptor::RelayInterceptor;
use request_tracing::relay::middleware::Relay;
use request_tracing::relay::service::{
    resolve_request_id, RelayService, RpcCallMetadata,
};
use request_tracing::request::{HttpMethod, HttpVersion};
use request_tracing::scope::{ContextError, ScopedContext};
use request_tracing::RequestId;

fn sample_call(metadata: HeaderCarrier) -> RpcCallMetadata {
    RpcCallMetadata {
        method: HttpMethod::Post,
        version: HttpVersion::V2,
        target: String::from("/users.Protocol/Fetch"),
        metadata,
    }
}

#[test]
fn injected_identifier_is_adopted() {
    // The identifier minted at the HTTP ingress travels through the
    // interceptor into call metadata and is adopted, not re-minted, by the
    // receiving extractor.
    let r1 = RequestId::from_value(0x1111_2222_3333_4444_5555_6666_7777_8888);
    let mut sender_ctx = ScopedContext::new();
    sender_ctx.establish(r1);
    let mut metadata = HeaderCarrier::new();
    RelayInterceptor.call(&sender_ctx, &mut metadata).unwrap();
    let fresh = RequestId::from_value(0x9999);
    let adopted = resolve_request_id(&metadata, fresh);
    assert_eq!(adopted.value(), r1.value());
}

#[test]
fn injected_metadata_reads_case_insensitively() {
    let mut ctx = ScopedContext::new();
    ctx.establish(RequestId::from_value(5));
    let mut metadata = HeaderCarrier::new();
    RelayInterceptor.call(&ctx, &mut metadata).unwrap();
    assert_eq!(
        metadata.get("REQUEST_ID").unwrap(),
        "00000000-0000-0000-0000-000000000005"
    );
}

#[test]
fn injection_without_a_scope_fails_and_leaves_metadata_alone() {
    let ctx = ScopedContext::new();
    let mut metadata = HeaderCarrier::new();
    metadata.set(String::from("other"), String::from("kept"));
    let r = RelayInterceptor.call(&ctx, &mut metadata);
    assert_eq!(r.unwrap_err(), ContextError::NoContext);
    assert_eq!(metadata.len(), 1);
    assert_eq!(metadata.get("other").unwrap(), "kept");
}

#[test]
fn absent_metadata_mints_fresh() {
    // A call arriving with no identifier metadata resolves to the freshly
    // minted identifier, distinct from any concurrently handled call's.
    let r2_fresh = RequestId::from_value(0xaaaa);
    let resolved = resolve_request_id(&HeaderCarrier::new(), r2_fresh);
    assert_eq!(resolved.value(), 0xaaaa);

    let mut unrelated_ctx = ScopedContext::new();
    let r3 = RequestId::from_value(0xbbbb);
    unrelated_ctx.establish(r3);
    assert_ne!(resolved.value(), unrelated_ctx.current().unwrap().value());
}

#[test]
fn malformed_metadata_mints_fresh() {
    let mut metadata = HeaderCarrier::new();
    metadata.set(String::from("request_id"), String::from("not-a-canonical-id"));
    let fresh = RequestId::from_value(0xcccc);
    let resolved = resolve_request_id(&metadata, fresh);
    assert_eq!(resolved.value(), 0xcccc);
}

#[test]
fn service_adopts_carried_identifier_and_scopes_the_call() {
    let carried = RequestId::from_value(0x42);
    let mut metadata = HeaderCarrier::new();
    metadata.set(String::from("request_id"), carried.to_canonical());
    let call = sample_call(metadata);

    let service = RelayService::new(());
    let mut ctx = ScopedContext::new();
    let fresh = RequestId::from_value(0x77);
    let (resolved, span) = service.begin_call(&call, fresh, &mut ctx);
    assert_eq!(resolved.value(), 0x42);
    assert_eq!(ctx.current().unwrap().value(), 0x42);
    assert_eq!(span.name.as_str(), "Request");
    assert_eq!(
        span.request_id.as_str(),
        "00000000-0000-0000-0000-000000000042"
    );
    assert_eq!(span.method.as_str(), "POST");
    assert_eq!(span.version.as_str(), "2.0");
    assert_eq!(span.target.as_str(), "/users.Protocol/Fetch");
    service.end_call(&mut ctx);
    assert!(!ctx.is_established());
}

#[test]
fn service_mints_when_nothing_is_carried() {
    let call = sample_call(HeaderCarrier::new());
    let service = RelayService::new(());
    let mut ctx = ScopedContext::new();
    let fresh = RequestId::generate();
    let (resolved, _span) = service.begin_call(&call, fresh, &mut ctx);
    assert_eq!(resolved.value(), fresh.value());
    service.end_call(&mut ctx);
}

#[test]
fn relay_middleware_scopes_the_stored_identifier() {
    let relay = Relay;
    let middleware = relay.new_transform(());
    let id = RequestId::from_value(9);
    let mut ctx = ScopedContext::new();
    middleware.enter_scope(id, &mut ctx);
    assert_eq!(ctx.current().unwrap().value(), 9);
    middleware.leave_scope(&mut ctx);
    assert!(!ctx.is_established());
}
