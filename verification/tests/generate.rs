use disagg_router::activation::{ActivationSignal, Pushed, RouterPlan};
use disagg_router::error::PrefillError;
use disagg_router::execution::Dispatch;
use disagg_router::generate::{
    DecodePhase, EnteringDecode, GenerateError, GenerateStart, PrefillLaunch, PrefillPhase,
    WorkerIds,
};
use disagg_router::prefill_router::PrefillRouter;
use disagg_router::protocols::{
    BootstrapInfo, EndpointId, PrefillResult, PreprocessedRequest, RouterConfigOverride, RouterMode,
    RouterTypes, RoutingHints, StopConditions, ZERO_BITS,
};
use disagg_router::worker_query::{QueryError, WorkerQuery, WorkerReply};
use serde_json::Value;
use std::sync::Arc;

struct Stub;

impl RouterTypes for Stub {
    type KvPushRouter = &'static str;
    type PushRouter = &'static str;
    type KvRouterConfig = ();
    type KvChooser = &'static str;
    type Client = &'static str;
    type Payload = &'static str;
    type BlockExtraInfo = ();
    type Tracker = &'static str;
    type PhasePermit = Arc<()>;
    type Cause = String;
}

fn request() -> PreprocessedRequest<Stub> {
    PreprocessedRequest {
        payload: Arc::new("prompt"),
        routing_token_ids: Arc::new(vec![1, 2, 3]),
        block_mm_infos: None,
        stop_conditions: StopConditions { max_tokens: Some(128) },
        routing: None,
        annotations: Arc::new(vec![]),
        tracker: None,
        bootstrap_info: None,
        prefill_result: None,
        router_config_override: None,
    }
}

fn waiting(enforce_disagg: bool) -> PrefillRouter<Stub> {
    let mode = RouterMode::RoundRobin;
    PrefillRouter::new(mode, 16, None, enforce_disagg, "model".to_string(), "ns".to_string())
}

fn query_only(routing: Option<RoutingHints>) -> PreprocessedRequest<Stub> {
    let annotations = vec!["token_ids".to_string(), "query_instance_id".to_string()];
    PreprocessedRequest { annotations: Arc::new(annotations), routing, ..request() }
}

/// Builds the inner router of `router`, whose endpoint is known, and activates it.
fn finish(router: &mut PrefillRouter<Stub>) {
    let built = match router.watched(Ok(())).unwrap() {
        RouterPlan::KvRouter(step) => {
            let step = step.made(Ok("chooser")).unwrap().taken(Arc::new("client"));
            match step.register().1.made(Ok("push")).unwrap() {
                Pushed::Wrap { pending, .. } => pending.wrapped("kv"),
                Pushed::Built(_) => panic!("a KV-aware router is wrapped"),
            }
        }
        RouterPlan::SimpleRouter(step) => {
            let step = step.made::<Stub>(Ok(Arc::new("client"))).unwrap();
            match step.register().1.made(Ok("push")).unwrap() {
                Pushed::Built(built) => built,
                Pushed::Wrap { .. } => panic!("a simple router is not wrapped"),
            }
        }
    };
    assert!(built.is_for(router));
    router.activate(Ok(built)).unwrap();
}

fn active(mode: RouterMode) -> PrefillRouter<Stub> {
    let mut router =
        PrefillRouter::new(mode, 16, None, true, "model".to_string(), "ns".to_string());
    let endpoint = EndpointId {
        namespace: "ns".to_string(),
        component: "prefill".to_string(),
        name: "generate".to_string(),
    };
    assert!(router.receive(ActivationSignal::Endpoint(endpoint)).is_some());
    finish(&mut router);
    router
}

fn admitted(
    router: &PrefillRouter<Stub>,
    request: PreprocessedRequest<Stub>,
) -> PrefillPhase<Stub> {
    match router.generate(request) {
        GenerateStart::Disaggregated(phase) => phase,
        GenerateStart::Untracked(untracked) => untracked.follow(Arc::new("fresh")),
        _ => panic!("an active router takes requests through prefill"),
    }
}

fn go_on(decode: DecodePhase<Stub>) -> EnteringDecode<Stub> {
    match decode.enter(false, false, "id") {
        Ok(entering) => entering,
        Err(error) => panic!("{}", error.message()),
    }
}

fn meeting_place() -> BootstrapInfo {
    BootstrapInfo {
        bootstrap_host: "10.0.0.1".to_string(),
        bootstrap_port: 8998,
        bootstrap_room: 77,
    }
}

#[test]
fn an_inactive_router_passes_requests_through_unchanged() {
    for router in [
        PrefillRouter::<Stub>::disabled(RouterMode::RoundRobin, false),
        PrefillRouter::<Stub>::disabled(RouterMode::RoundRobin, true),
        PrefillRouter::<Stub>::make_deactivated_for_test(false),
        waiting(false),
    ] {
        let mut arriving = request();
        arriving.annotations = Arc::new(vec!["query_instance_id".to_string()]);
        for arriving in [request(), arriving] {
            let annotations = arriving.annotations.clone();
            match router.generate(arriving) {
                GenerateStart::Aggregated(forwarded) => {
                    assert!(forwarded.tracker.is_none());
                    assert_eq!(*forwarded.payload, "prompt");
                    assert_eq!(forwarded.stop_conditions.max_tokens, Some(128));
                    assert_eq!(forwarded.router_config_override, None);
                    assert_eq!(forwarded.annotations, annotations);
                }
                _ => panic!("requests fall back to aggregated mode"),
            }
        }
    }
}

#[test]
fn an_inactive_router_rejects_where_disaggregation_is_enforced() {
    for router in [
        waiting(true),
        PrefillRouter::<Stub>::make_deactivated_for_test(true),
    ] {
        match router.generate(request()) {
            GenerateStart::Rejected(error) => assert_eq!(error, PrefillError::NotActivated),
            _ => panic!("disaggregation is enforced"),
        }
    }
}

#[test]
fn a_deactivated_passthrough_still_serves() {
    let mut router: PrefillRouter<Stub> = PrefillRouter::disabled(RouterMode::RoundRobin, true);
    router.deactivate();
    assert!(matches!(router.generate(request()), GenerateStart::Aggregated(_)));
}

#[test]
fn only_a_request_without_a_tracker_needs_one() {
    let router = active(RouterMode::RoundRobin);
    assert!(matches!(router.generate(request()), GenerateStart::Untracked(_)));
    let followed = PreprocessedRequest { tracker: Some(Arc::new("own")), ..request() };
    assert!(matches!(router.generate(followed), GenerateStart::Disaggregated(_)));
}

#[test]
fn annotations_are_found_by_name() {
    assert!(!request().is_query_only());
    let asking = query_only(None);
    assert!(asking.is_query_only());
    assert!(asking.has_annotation(&"token_ids".to_string()));
    assert!(!asking.has_annotation(&"query".to_string()));
}

#[test]
fn a_query_asks_the_router_and_executes_nothing() {
    let hints = RoutingHints { decode_worker_id: Some(4), ..RoutingHints::default() };
    match active(RouterMode::KV).generate(query_only(Some(hints))) {
        GenerateStart::Query(pending, WorkerQuery::FindBestMatch(best)) => {
            assert_eq!(*best.router, "kv");
            assert_eq!(*best.token_ids, vec![1, 2, 3]);
            assert!(!best.update_states);
            assert_eq!(
                pending.answer::<String>(WorkerReply::BestMatch(Ok((9, 1)))),
                Ok(WorkerIds {
                    prefill_worker_id: 9,
                    prefill_dp_rank: 1,
                    decode_worker_id: Some(4)
                })
            );
        }
        _ => panic!("the KV-aware router is asked"),
    }
    match active(RouterMode::RoundRobin).generate(query_only(None)) {
        GenerateStart::Query(pending, WorkerQuery::PeekNextWorker(_)) => {
            let ids = pending.answer::<String>(WorkerReply::NextWorker(None));
            assert_eq!(ids, Err(QueryError::NoWorkers));
        }
        _ => panic!("the simple router is only peeked at"),
    }
}

#[test]
fn a_query_for_named_workers_is_answered_at_once() {
    let hints = RoutingHints {
        prefill_worker_id: Some(6),
        decode_worker_id: Some(4),
        dp_rank: Some(2),
        ..RoutingHints::default()
    };
    match active(RouterMode::Direct).generate(query_only(Some(hints))) {
        GenerateStart::WorkerIds(ids) => assert_eq!(
            ids,
            WorkerIds { prefill_worker_id: 6, prefill_dp_rank: 2, decode_worker_id: Some(4) }
        ),
        _ => panic!("the workers are known"),
    }
    let hints = RoutingHints { prefill_worker_id: Some(6), ..RoutingHints::default() };
    match active(RouterMode::KV).generate(query_only(Some(hints))) {
        GenerateStart::WorkerIds(ids) => assert_eq!(
            ids,
            WorkerIds { prefill_worker_id: 6, prefill_dp_rank: 0, decode_worker_id: None }
        ),
        _ => panic!("the workers are known"),
    }
}

#[test]
fn a_resolved_prefill_runs_in_the_background() {
    let router = active(RouterMode::RoundRobin);
    let mut arriving = request();
    arriving.routing = Some(RoutingHints {
        lora_name: Some("lora".to_string()),
        dp_rank: Some(1),
        ..RoutingHints::default()
    });
    let phase = admitted(&router, arriving);
    assert_eq!(*phase.tracker(), "fresh");
    assert_eq!(phase.preselected_worker(), None);
    let draft = phase.prefill_request();
    assert_eq!(draft.tracker.as_deref(), Some(&"fresh"));
    assert_eq!(draft.stop_conditions.max_tokens, Some(1));

    let permit = Arc::new(());
    match phase.launch(&router, Some((5, 2, meeting_place())), permit.clone()) {
        PrefillLaunch::Background { advance, request, dispatch, phase_permit, decode } => {
            assert_eq!(advance.as_deref(), Some(&"push"));
            assert_eq!(request.stop_conditions.max_tokens, Some(1));
            assert_eq!(request.bootstrap_info, Some(meeting_place()));
            let hints = request.routing.unwrap();
            assert_eq!(hints.prefill_worker_id, Some(5));
            assert_eq!(hints.dp_rank, Some(2));
            assert_eq!(hints.lora_name, Some("lora".to_string()));
            assert!(matches!(dispatch, Ok(Dispatch::SimpleDirect { worker_id: 5, .. })));
            assert!(Arc::ptr_eq(&phase_permit, &permit));

            let entering = go_on(decode);
            assert_eq!(*entering.tracker(), "fresh");
            let permit = Arc::new(());
            let decoded = entering.entered(permit.clone());
            assert_eq!(Arc::strong_count(&permit), 1);
            assert_eq!(decoded.bootstrap_info, Some(meeting_place()));
            assert_eq!(decoded.prefill_result, None);
            assert_eq!(decoded.stop_conditions.max_tokens, Some(128));
            assert_eq!(decoded.tracker.as_deref(), Some(&"fresh"));
            assert_eq!(decoded.routing.unwrap().dp_rank, Some(1));
        }
        _ => panic!("a resolved worker is met through its bootstrap address"),
    }
}

#[test]
fn a_kv_router_is_not_advanced() {
    let router = active(RouterMode::KV);
    let phase = admitted(&router, request());
    match phase.launch(&router, Some((5, 2, meeting_place())), Arc::new(())) {
        PrefillLaunch::Background { advance, dispatch, .. } => {
            assert_eq!(advance, None);
            assert!(matches!(dispatch, Ok(Dispatch::KvGenerate(_))));
        }
        _ => panic!("a resolved worker is met through its bootstrap address"),
    }
}

#[test]
fn an_unresolved_prefill_is_waited_for() {
    let router = active(RouterMode::Direct);
    let mut arriving = request();
    let tracker = Arc::new("own");
    arriving.tracker = Some(tracker.clone());
    arriving.routing =
        Some(RoutingHints { prefill_worker_id: Some(8), ..RoutingHints::default() });
    arriving.router_config_override = Some(RouterConfigOverride {
        overlap_score_weight_bits: Some(1.5f64.to_bits()),
        router_temperature_bits: Some(0.7f64.to_bits()),
        assume_kv_reuse: Some(true),
    });
    let phase = admitted(&router, arriving);
    assert!(Arc::ptr_eq(&phase.tracker(), &tracker));
    assert_eq!(phase.preselected_worker(), Some(8));

    let permit = Arc::new(());
    match phase.launch(&router, None, permit.clone()) {
        PrefillLaunch::Synchronous { request, dispatch, pending } => {
            assert_eq!(Arc::strong_count(&permit), 1);
            assert!(Arc::ptr_eq(request.tracker.as_ref().unwrap(), &tracker));
            assert_eq!(request.bootstrap_info, None);
            assert_eq!(request.stop_conditions.max_tokens, Some(1));
            assert!(matches!(dispatch, Ok(Dispatch::SimpleDirect { worker_id: 8, .. })));

            let result =
                PrefillResult { disaggregated_params: Value::Bool(true), prompt_tokens_details: None };
            let decode = pending.complete(Ok((result.clone(), Some((8, 0)))));
            let entering = go_on(decode);
            assert!(Arc::ptr_eq(&entering.tracker(), &tracker));
            let decoded = entering.entered(Arc::new(()));
            assert_eq!(decoded.prefill_result, Some(result));
            assert!(Arc::ptr_eq(decoded.tracker.as_ref().unwrap(), &tracker));
            assert_eq!(decoded.bootstrap_info, None);
            assert_eq!(
                decoded.router_config_override,
                Some(RouterConfigOverride {
                    overlap_score_weight_bits: Some(0.0f64.to_bits()),
                    router_temperature_bits: Some(0.7f64.to_bits()),
                    assume_kv_reuse: Some(false),
                })
            );
        }
        _ => panic!("without a bootstrap address the prefill is waited for"),
    }
    assert_eq!(ZERO_BITS, 0.0f64.to_bits());
}

#[test]
fn a_router_that_went_away_fails_the_prefill() {
    let mut router = active(RouterMode::RoundRobin);
    let phase = admitted(&router, request());
    router.deactivate();
    match phase.launch(&router, None, Arc::new(())) {
        PrefillLaunch::Synchronous { dispatch, pending, .. } => {
            let error = match dispatch {
                Err(error) => error,
                Ok(_) => panic!("the router is gone"),
            };
            match pending.complete(Err(error)).enter(false, false, "id") {
                Err(error) => {
                    assert_eq!(error, GenerateError::Prefill(PrefillError::NotActivated));
                    assert_eq!(error.message(), "Prefill router not yet activated");
                }
                Ok(_) => panic!("the prefill failed"),
            }
        }
        _ => panic!("nothing was resolved"),
    }
}

#[test]
fn an_ended_context_does_not_reach_decode() {
    let router = active(RouterMode::RoundRobin);
    for (stopped, killed) in [(true, false), (false, true), (true, true)] {
        let phase = admitted(&router, request());
        let pending = match phase.launch(&router, None, Arc::new(())) {
            PrefillLaunch::Synchronous { pending, .. } => pending,
            _ => panic!("nothing was resolved"),
        };
        // The end of the context is reported even where the prefill failed too.
        let failed = PrefillError::NoDisaggregatedParams("none".to_string());
        match pending.complete(Err(failed)).enter(stopped, killed, "abc") {
            Err(error) => {
                assert_eq!(error, GenerateError::ContextEnded("abc".to_string()));
                assert_eq!(error.message(), "Context id abc is stopped or killed");
            }
            Ok(_) => panic!("the context has ended"),
        }
    }
}
