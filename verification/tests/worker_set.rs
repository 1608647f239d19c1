use disagg_router::activation::{ActivationSignal, Pushed, RouterPlan};
use disagg_router::prefill_router::PrefillRouter;
use disagg_router::protocols::{EndpointId, RouterMode, RouterTypes};
use disagg_router::worker_set::{
    can_serve_with, count_workers, ModelDeploymentCard, ModelRuntimeConfig, ParsingOptions,
    PipelineTypes, WorkerSet,
};
use std::sync::Arc;
use tokio::sync::watch;

struct Stub;

impl RouterTypes for Stub {
    type KvPushRouter = ();
    type PushRouter = ();
    type KvRouterConfig = ();
    type KvChooser = ();
    type Client = ();
    type Payload = ();
    type BlockExtraInfo = ();
    type Tracker = ();
    type PhasePermit = ();
    type Cause = String;
}

impl PipelineTypes for Stub {
    type ChatEngine = u8;
    type CompletionsEngine = u8;
    type EmbeddingsEngine = u8;
    type ImagesEngine = u8;
    type VideosEngine = u8;
    type TensorEngine = u8;
    type KvRouter = ();
    type WorkerMonitor = ();
}

fn make_worker_set(namespace: &str, mdcsum: &str) -> WorkerSet<Stub> {
    WorkerSet::new(namespace.to_string(), mdcsum.to_string(), ModelDeploymentCard::default())
}

#[test]
fn test_worker_set_basics() {
    let ws = make_worker_set("ns1", "abc123");
    assert_eq!(ws.namespace(), "ns1");
    assert_eq!(ws.mdcsum(), "abc123");
}

#[test]
fn test_no_engines_by_default() {
    let ws = make_worker_set("ns1", "abc123");
    assert!(!ws.has_chat_engine());
    assert!(!ws.has_completions_engine());
    assert!(!ws.has_embeddings_engine());
    assert!(!ws.has_images_engine());
    assert!(!ws.has_tensor_engine());
    assert!(!ws.has_decode_engine());
    assert!(ws.is_prefill_set());
}

#[test]
fn test_worker_count_without_watcher() {
    // In-process models have no discovery watcher; worker_count defaults to 1
    let ws = make_worker_set("ns1", "abc");
    assert_eq!(ws.worker_count(), 1);
}

#[test]
fn test_worker_count_with_watcher() {
    let mut ws = make_worker_set("ns1", "abc");

    // Simulate a discovery watcher with 3 workers
    let (tx, rx) = watch::channel(vec![1, 2, 3]);
    ws.set_instance_watcher(rx);
    assert_eq!(ws.worker_count(), 3);

    // Workers leave: count drops
    tx.send(vec![1]).unwrap();
    assert_eq!(ws.worker_count(), 1);

    // All workers gone: count is 0
    tx.send(vec![]).unwrap();
    assert_eq!(ws.worker_count(), 0);
}

#[test]
fn test_worker_count_with_empty_watcher() {
    // Discovery watcher starts empty (no workers have joined yet)
    let mut ws = make_worker_set("ns1", "abc");
    let (_tx, rx) = watch::channel::<Vec<u64>>(vec![]);
    ws.set_instance_watcher(rx);
    assert_eq!(ws.worker_count(), 0);
}

#[test]
fn test_worker_count_updates_on_join() {
    let mut ws = make_worker_set("ns1", "abc");
    let (tx, rx) = watch::channel::<Vec<u64>>(vec![]);
    ws.set_instance_watcher(rx);
    assert_eq!(ws.worker_count(), 0);

    // Workers join one by one
    tx.send(vec![100]).unwrap();
    assert_eq!(ws.worker_count(), 1);

    tx.send(vec![100, 200]).unwrap();
    assert_eq!(ws.worker_count(), 2);

    tx.send(vec![100, 200, 300]).unwrap();
    assert_eq!(ws.worker_count(), 3);
}

/// A WorkerSet with no PrefillRouter (pure aggregated deployment) can always serve.
#[test]
fn test_can_serve_requests_no_prefill_router() {
    let ws = make_worker_set("ns1", "abc");
    assert!(
        ws.can_serve_requests(),
        "WorkerSet without a prefill_router must always allow serving"
    );
}

/// A WorkerSet with a PrefillRouter that was never activated (purely aggregated
/// WorkerSet that was given a router waiting for an endpoint that never came)
/// must still allow serving.
#[test]
fn test_can_serve_requests_with_never_activated_router() {
    let mut ws = make_worker_set("ns1", "abc");
    ws.prefill_router = Some(PrefillRouter::disabled(
        RouterMode::RoundRobin,
        true, // even with enforce_disagg, never-activated router allows serving
    ));
    assert!(ws.can_serve_requests());
}

/// When the prefill router was activated and has since been deactivated, and
/// enforce_disagg is true, the WorkerSet must refuse serving so the model is
/// hidden from /v1/models.
#[test]
fn worker_set_test_can_serve_requests_deactivated_enforce_disagg() {
    let mut ws = make_worker_set("ns1", "abc");
    ws.prefill_router = Some(PrefillRouter::make_deactivated_for_test(true));
    assert!(
        !ws.can_serve_requests(),
        "deactivated prefill + enforce_disagg must block serving"
    );
}

/// When enforce_disagg is false, falling back to aggregated mode is allowed,
/// so even a deactivated prefill router must not block serving.
#[test]
fn worker_set_test_can_serve_requests_deactivated_no_enforce() {
    let mut ws = make_worker_set("ns1", "abc");
    ws.prefill_router = Some(PrefillRouter::make_deactivated_for_test(false));
    assert!(
        ws.can_serve_requests(),
        "deactivated prefill without enforce_disagg must allow serving (fallback)"
    );
}

#[test]
fn each_engine_makes_it_no_prefill_set() {
    let mut ws = make_worker_set("ns1", "abc");
    ws.chat_engine = Some(1);
    assert!(ws.has_chat_engine() && ws.has_decode_engine() && !ws.is_prefill_set());

    let mut ws = make_worker_set("ns1", "abc");
    ws.completions_engine = Some(1);
    assert!(ws.has_completions_engine() && ws.has_decode_engine() && !ws.is_prefill_set());

    let mut ws = make_worker_set("ns1", "abc");
    ws.embeddings_engine = Some(1);
    assert!(ws.has_embeddings_engine() && !ws.has_decode_engine() && !ws.is_prefill_set());

    let mut ws = make_worker_set("ns1", "abc");
    ws.images_engine = Some(1);
    assert!(ws.has_images_engine() && !ws.has_decode_engine() && !ws.is_prefill_set());

    let mut ws = make_worker_set("ns1", "abc");
    ws.videos_engine = Some(1);
    assert!(ws.has_videos_engine() && !ws.has_decode_engine() && !ws.is_prefill_set());

    let mut ws = make_worker_set("ns1", "abc");
    ws.tensor_engine = Some(1);
    assert!(ws.has_tensor_engine() && !ws.has_decode_engine() && !ws.is_prefill_set());
}

#[test]
fn losing_prefill_workers_stops_serving() {
    let mut ws = make_worker_set("ns1", "abc");
    let mut router: PrefillRouter<Stub> = PrefillRouter::new(
        RouterMode::RoundRobin,
        16,
        None,
        true,
        "model".to_string(),
        "ns1".to_string(),
    );
    let endpoint = EndpointId {
        namespace: "ns1".to_string(),
        component: "prefill".to_string(),
        name: "generate".to_string(),
    };
    router.receive(ActivationSignal::Endpoint(endpoint));
    let step = match router.watched(Ok(())).unwrap() {
        RouterPlan::SimpleRouter(step) => step.made::<Stub>(Ok(Arc::new(()))).unwrap(),
        RouterPlan::KvRouter(_) => panic!("no KV-aware router is built"),
    };
    match step.register().1.made(Ok(())).unwrap() {
        Pushed::Built(built) => router.activate(Ok(built)).unwrap(),
        Pushed::Wrap { .. } => panic!("a simple router is not wrapped"),
    }
    assert!(can_serve_with(Some(&router)));
    router.deactivate();
    assert!(!can_serve_with(Some(&router)));
    assert!(can_serve_with::<Stub>(None));
    ws.prefill_router = Some(router);
    assert!(!ws.can_serve_requests());
}

#[test]
fn a_removal_does_not_stop_an_aggregated_deployment() {
    let mut ws = make_worker_set("ns1", "abc");
    let mut router: PrefillRouter<Stub> = PrefillRouter::disabled(RouterMode::RoundRobin, true);
    router.deactivate();
    assert!(can_serve_with(Some(&router)));
    ws.prefill_router = Some(router);
    assert!(ws.can_serve_requests());
}

#[test]
fn parsing_options_come_from_the_card() {
    let card = ModelDeploymentCard {
        runtime_config: ModelRuntimeConfig {
            tool_call_parser: Some("hermes".to_string()),
            reasoning_parser: None,
        },
    };
    let ws: WorkerSet<Stub> = WorkerSet::new("ns".to_string(), "sum".to_string(), card);
    assert_eq!(
        ws.parsing_options(),
        ParsingOptions { tool_call_parser: Some("hermes".to_string()), reasoning_parser: None }
    );
    assert_eq!(ws.card().runtime_config.tool_call_parser, Some("hermes".to_string()));

    let ws = make_worker_set("ns", "sum");
    assert_eq!(ws.parsing_options(), ParsingOptions::new(None, None));
}

#[test]
fn workers_are_counted_by_instance() {
    assert_eq!(count_workers(None), 1);
    assert_eq!(count_workers(Some(&vec![])), 0);
    assert_eq!(count_workers(Some(&vec![4, 4, 9])), 3);
}
