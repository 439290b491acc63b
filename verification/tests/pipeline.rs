use rama::builder::{Layer, ServiceBuilder};
use rama::context::Context;
use rama::error::Error;
use rama::map_response::{Halve, MapResponse, MapResponseLayer};
use rama::marker::{ChainService, MarkerLayer, MarkerService};
use rama::service::{EchoService, FailService, Mark, Service};
use rama::timeout::{
    Elapsed, LayerErrorFn, LayerErrorStatic, MessageError, MessageFactory, Timeout, TimeoutLayer,
};

#[test]
fn error_carries_message() {
    let e = Error::new("boom".to_string());
    assert_eq!(e.message(), "boom");
}

#[test]
fn context_carries_state_and_metadata() {
    let mut ctx: Context<u32> = Context::new(7);
    assert_eq!(*ctx.state(), 7);
    assert!(ctx.get_tracker().is_none());
    assert!(ctx.get_hello().is_none());
    ctx.insert_tracker(rama::tracker::BytesRWTrackerHandle { read: 3, written: 4 });
    let h = ctx.get_tracker().unwrap();
    assert_eq!(h.read, 3);
    assert_eq!(h.written, 4);
}

#[test]
fn echo_returns_request() {
    let svc = EchoService::new(10);
    let out = svc.serve(Context::new(0u8), 42u64);
    assert_eq!(out.result.unwrap(), 42);
    assert_eq!(out.elapsed_ms, 10);
    assert!(out.marks.is_empty());
}

#[test]
fn fail_returns_error() {
    let svc = FailService::new(5, "denied".to_string());
    let out: rama::service::Outcome<u64> = svc.serve(Context::new(0u8), 42u64);
    assert_eq!(out.result.unwrap_err().message(), "denied");
    assert_eq!(out.elapsed_ms, 5);
}

#[test]
fn map_response_transforms_success() {
    let svc = MapResponse::new(EchoService::new(0), Halve);
    let out = svc.serve(Context::new(0u8), 9u64);
    assert_eq!(out.result.unwrap(), 4);
}

#[test]
fn map_response_passes_failure_unchanged() {
    let svc: MapResponse<FailService, Halve> =
        MapResponse::new(FailService::new(0, "inner failed".to_string()), Halve);
    let out: rama::service::Outcome<u64> = svc.serve(Context::new(0u8), 3u64);
    assert_eq!(out.result.unwrap_err().message(), "inner failed");
}

#[test]
fn map_response_layer_wraps() {
    let layer = MapResponseLayer::new(Halve);
    let svc = layer.layer(EchoService::new(0));
    let out = svc.serve(Context::new(0u8), 100u64);
    assert_eq!(out.result.unwrap(), 50);
}

#[test]
fn timeout_fast_inner_passes_through() {
    let svc = TimeoutLayer::new(50).layer(EchoService::new(10));
    let out = svc.serve(Context::new(0u8), 1u64);
    assert_eq!(out.result.unwrap(), 1);
    assert_eq!(out.elapsed_ms, 10);
}

#[test]
fn timeout_slow_inner_fails_at_deadline() {
    let svc = TimeoutLayer::new(50).layer(EchoService::new(200));
    let out = svc.serve(Context::new(0u8), 1u64);
    assert_eq!(out.elapsed_ms, 50);
    assert_eq!(out.result.unwrap_err().message(), "request timed out");
}

#[test]
fn timeout_boundary_is_not_expiry() {
    let svc = TimeoutLayer::new(50).layer(EchoService::new(50));
    let out = svc.serve(Context::new(0u8), 1u64);
    assert_eq!(out.result.unwrap(), 1);
    assert_eq!(out.elapsed_ms, 50);
}

#[test]
fn timeout_with_custom_error_value() {
    let layer = TimeoutLayer::with_error(20, MessageError::new("too slow".to_string()));
    let svc = layer.layer(EchoService::new(30));
    let out = svc.serve(Context::new(0u8), 1u64);
    assert_eq!(out.result.unwrap_err().message(), "too slow");
    assert_eq!(out.elapsed_ms, 20);
}

#[test]
fn timeout_with_custom_error_factory() {
    let layer = TimeoutLayer::with_error_fn(20, MessageFactory::new("gave up".to_string()));
    let svc = layer.layer(EchoService::new(30));
    let out = svc.serve(Context::new(0u8), 1u64);
    assert_eq!(out.result.unwrap_err().message(), "gave up");
}

#[test]
fn timeout_direct_construction() {
    let svc = Timeout::with(
        EchoService::new(5),
        50,
        LayerErrorStatic::new(Elapsed::new(50)),
    );
    let out = svc.serve(Context::new(0u8), 3u64);
    assert_eq!(out.result.unwrap(), 3);
    let svc2 = Timeout::with(
        EchoService::new(99),
        50,
        LayerErrorFn::new(MessageFactory::new("expired".to_string())),
    );
    let out2 = svc2.serve(Context::new(0u8), 3u64);
    assert_eq!(out2.result.unwrap_err().message(), "expired");
}

#[test]
fn marker_brackets_inner_effects() {
    let svc = MarkerLayer::new(7).layer(EchoService::new(0));
    let out = svc.serve(Context::new(0u8), 1u64);
    assert_eq!(out.marks, vec![Mark::Enter(7), Mark::Exit(7)]);
}

#[test]
fn chain_runs_layers_in_onion_order() {
    let chain = ChainService::new(vec![1, 2, 3], EchoService::new(4));
    let out = chain.serve(Context::new(0u8), 11u64);
    assert_eq!(out.result.unwrap(), 11);
    assert_eq!(out.elapsed_ms, 4);
    assert_eq!(
        out.marks,
        vec![
            Mark::Enter(1),
            Mark::Enter(2),
            Mark::Enter(3),
            Mark::Exit(3),
            Mark::Exit(2),
            Mark::Exit(1),
        ]
    );
}

#[test]
fn builder_composes_outermost_first() {
    let svc = ServiceBuilder::new()
        .layer(MarkerLayer::new(1))
        .layer(MarkerLayer::new(2))
        .service(EchoService::new(0));
    let out = svc.serve(Context::new(0u8), 5u64);
    assert_eq!(out.result.unwrap(), 5);
    assert_eq!(
        out.marks,
        vec![Mark::Enter(1), Mark::Enter(2), Mark::Exit(2), Mark::Exit(1)]
    );
}

#[test]
fn builder_nested_marker_equals_chain() {
    let nested: MarkerService<MarkerService<EchoService>> = ServiceBuilder::new()
        .layer(MarkerLayer::new(8))
        .layer(MarkerLayer::new(9))
        .service(EchoService::new(0));
    let chain = ChainService::new(vec![8, 9], EchoService::new(0));
    let a = nested.serve(Context::new(0u8), 2u64);
    let b = chain.serve(Context::new(0u8), 2u64);
    assert_eq!(a.marks, b.marks);
}

#[test]
fn timeout_and_map_compose() {
    let svc = ServiceBuilder::new()
        .layer(TimeoutLayer::new(50))
        .layer(MapResponseLayer::new(Halve))
        .service(EchoService::new(10));
    let out = svc.serve(Context::new(0u8), 9u64);
    assert_eq!(out.result.unwrap(), 4);
    assert_eq!(out.elapsed_ms, 10);
}
