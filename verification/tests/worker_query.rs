use disagg_router::activation::{ActivationSignal, Pushed, RouterPlan};
use disagg_router::error::PrefillError;
use disagg_router::prefill_router::PrefillRouter;
use disagg_router::protocols::{
    BootstrapInfo, DisaggregatedEndpoint, EndpointId, PreprocessedRequest, RouterMode,
    RouterTypes, RoutingHints, StopConditions,
};
use disagg_router::worker_query::{
    query_answer, EndpointLookup, QueryError, ResolveStep, WorkerQuery, WorkerReply, LAST_ROOM,
};
use std::collections::HashSet;
use std::sync::Arc;

struct Stub;

impl RouterTypes for Stub {
    type KvPushRouter = &'static str;
    type PushRouter = &'static str;
    type KvRouterConfig = ();
    type KvChooser = &'static str;
    type Client = &'static str;
    type Payload = ();
    type BlockExtraInfo = u8;
    type Tracker = ();
    type PhasePermit = ();
    type Cause = String;
}

fn endpoint() -> EndpointId {
    EndpointId {
        namespace: "ns".to_string(),
        component: "prefill".to_string(),
        name: "generate".to_string(),
    }
}

fn lookup() -> EndpointLookup {
    EndpointLookup { endpoint_id: endpoint(), worker_id: 5, dp_rank: 2 }
}

fn request(routing: Option<RoutingHints>) -> PreprocessedRequest<Stub> {
    PreprocessedRequest {
        payload: Arc::new(()),
        routing_token_ids: Arc::new(vec![1, 2, 3]),
        block_mm_infos: Some(Arc::new(vec![None, Some(9)])),
        stop_conditions: StopConditions { max_tokens: None },
        routing,
        annotations: Arc::new(vec![]),
        tracker: None,
        bootstrap_info: None,
        prefill_result: None,
        router_config_override: None,
    }
}

/// Builds the inner router of `router`, whose endpoint is known, and activates it.
fn finish(router: &mut PrefillRouter<Stub>) {
    let built = match router.watched(Ok(())).unwrap() {
        RouterPlan::KvRouter(step) => {
            let step = step.made(Ok("chooser")).unwrap().taken(Arc::new("client"));
            match step.register().1.made(Ok("push")).unwrap() {
                Pushed::Wrap { pending, .. } => pending.wrapped("kv"),
                Pushed::Built(_) => panic!("a KV-aware router is wrapped"),
            }
        }
        RouterPlan::SimpleRouter(step) => {
            let step = step.made::<Stub>(Ok(Arc::new("client"))).unwrap();
            match step.register().1.made(Ok("push")).unwrap() {
                Pushed::Built(built) => built,
                Pushed::Wrap { .. } => panic!("a simple router is not wrapped"),
            }
        }
    };
    assert!(built.is_for(router));
    router.activate(Ok(built)).unwrap();
}

fn active(mode: RouterMode) -> PrefillRouter<Stub> {
    let mut router =
        PrefillRouter::new(mode, 16, None, true, "model".to_string(), "ns".to_string());
    assert!(router.receive(ActivationSignal::Endpoint(endpoint())).is_some());
    finish(&mut router);
    router
}

#[test]
fn an_inactive_router_answers_no_query() {
    let router: PrefillRouter<Stub> = PrefillRouter::disabled(RouterMode::KV, false);
    match router.query_prefill_worker(Arc::new(vec![]), None, true, None, 0, None) {
        Err(error) => assert_eq!(error, PrefillError::NotActivated),
        Ok(_) => panic!("the router is not active"),
    }
}

#[test]
fn a_kv_router_is_asked_for_the_best_match() {
    let router = active(RouterMode::KV);
    let allowed = Arc::new(HashSet::from([4u64, 6]));
    let query = router.query_prefill_worker(
        Arc::new(vec![7, 8]),
        Some(Arc::new(vec![Some(1)])),
        true,
        Some("lora".to_string()),
        2.5f64.to_bits(),
        Some(allowed.clone()),
    );
    match query {
        Ok(WorkerQuery::FindBestMatch(best)) => {
            assert_eq!(*best.router, "kv");
            assert_eq!(*best.token_ids, vec![7, 8]);
            assert_eq!(*best.block_mm_infos.unwrap(), vec![Some(1)]);
            assert!(best.update_states);
            assert_eq!(best.lora_name, Some("lora".to_string()));
            assert_eq!(f64::from_bits(best.priority_jump_bits), 2.5);
            assert_eq!(best.allowed_worker_ids, Some(allowed));
        }
        _ => panic!("a KV-aware router finds the best match"),
    }
}

#[test]
fn a_simple_router_is_moved_on_only_for_an_update() {
    let router = active(RouterMode::RoundRobin);
    assert!(matches!(
        router.query_prefill_worker(Arc::new(vec![]), None, true, None, 0, None),
        Ok(WorkerQuery::SelectNextWorker(push)) if *push == "push"
    ));
    assert!(matches!(
        router.query_prefill_worker(Arc::new(vec![]), None, false, None, 0, None),
        Ok(WorkerQuery::PeekNextWorker(push)) if *push == "push"
    ));
}

#[test]
fn replies_name_a_worker_or_say_why_not() {
    assert_eq!(query_answer::<String>(WorkerReply::BestMatch(Ok((3, 4)))), Ok((3, 4)));
    assert_eq!(query_answer::<String>(WorkerReply::NextWorker(Some(3))), Ok((3, 0)));
    let error = query_answer::<String>(WorkerReply::NextWorker(None)).unwrap_err();
    assert_eq!(error, QueryError::NoWorkers);
    assert_eq!(error.message(), Some("No workers available for prefill".to_string()));
    let error = query_answer(WorkerReply::BestMatch(Err("down".to_string()))).unwrap_err();
    assert_eq!(error, QueryError::BestMatch("down".to_string()));
    assert_eq!(error.message(), None);
}

#[test]
fn nothing_is_resolved_without_an_active_router() {
    let waiting: PrefillRouter<Stub> =
        PrefillRouter::new(RouterMode::KV, 16, None, true, "m".to_string(), "n".to_string());
    assert!(matches!(
        waiting.resolve_prefill_worker(&request(None), Some(1)),
        ResolveStep::Unresolved
    ));

    // The endpoint is known but the activation is not over.
    let mut router = PrefillRouter::<Stub>::new(
        RouterMode::KV,
        16,
        None,
        true,
        "m".to_string(),
        "n".to_string(),
    );
    router.receive(ActivationSignal::Endpoint(endpoint()));
    assert!(matches!(
        router.resolve_prefill_worker(&request(None), Some(1)),
        ResolveStep::Unresolved
    ));

    // The router is active but its endpoint is not known.
    let mut router = PrefillRouter::<Stub>::new(
        RouterMode::Random,
        16,
        None,
        true,
        "m".to_string(),
        "n".to_string(),
    );
    assert!(router.receive(ActivationSignal::Endpoint(endpoint())).is_some());
    router.deactivate();
    finish(&mut router);
    assert!(matches!(
        router.resolve_prefill_worker(&request(None), None),
        ResolveStep::Unresolved
    ));
}

#[test]
fn a_preselected_worker_is_looked_up() {
    let router = active(RouterMode::Direct);
    match router.resolve_prefill_worker(&request(None), Some(5)) {
        ResolveStep::Lookup(found) => {
            assert_eq!(found, EndpointLookup { endpoint_id: endpoint(), worker_id: 5, dp_rank: 0 });
        }
        _ => panic!("the worker is known"),
    }
    let hints = RoutingHints { dp_rank: Some(2), ..RoutingHints::default() };
    match router.resolve_prefill_worker(&request(Some(hints)), Some(5)) {
        ResolveStep::Lookup(found) => assert_eq!(found, lookup()),
        _ => panic!("the worker is known"),
    }
}

#[test]
fn a_worker_is_asked_for_with_the_hints_of_the_request() {
    let router = active(RouterMode::KV);
    let allowed = Arc::new(HashSet::from([4u64]));
    let hints = RoutingHints {
        lora_name: Some("lora".to_string()),
        priority_jump_bits: Some(1.0f64.to_bits()),
        allowed_worker_ids: Some(allowed.clone()),
        ..RoutingHints::default()
    };
    match router.resolve_prefill_worker(&request(Some(hints)), None) {
        ResolveStep::Query(under, WorkerQuery::FindBestMatch(best)) => {
            assert_eq!(under, endpoint());
            assert!(!best.update_states);
            assert_eq!(*best.token_ids, vec![1, 2, 3]);
            assert_eq!(*best.block_mm_infos.unwrap(), vec![None, Some(9)]);
            assert_eq!(best.lora_name, Some("lora".to_string()));
            assert_eq!(f64::from_bits(best.priority_jump_bits), 1.0);
            assert_eq!(best.allowed_worker_ids, Some(allowed));
        }
        _ => panic!("the KV-aware router is asked"),
    }
    match router.resolve_prefill_worker(&request(None), None) {
        ResolveStep::Query(_, WorkerQuery::FindBestMatch(best)) => {
            assert_eq!(best.lora_name, None);
            assert_eq!(f64::from_bits(best.priority_jump_bits), 0.0);
            assert_eq!(best.allowed_worker_ids, None);
        }
        _ => panic!("the KV-aware router is asked"),
    }
    let router = active(RouterMode::Random);
    assert!(matches!(
        router.resolve_prefill_worker(&request(None), None),
        ResolveStep::Query(_, WorkerQuery::PeekNextWorker(_))
    ));
}

#[test]
fn a_reply_leads_to_a_lookup() {
    assert_eq!(
        EndpointLookup::of_reply::<String>(endpoint(), WorkerReply::BestMatch(Ok((5, 2)))),
        Some(lookup())
    );
    assert_eq!(
        EndpointLookup::of_reply::<String>(endpoint(), WorkerReply::NextWorker(Some(5))),
        Some(EndpointLookup { endpoint_id: endpoint(), worker_id: 5, dp_rank: 0 })
    );
    assert_eq!(EndpointLookup::of_reply::<String>(endpoint(), WorkerReply::NextWorker(None)), None);
    assert_eq!(
        EndpointLookup::of_reply(endpoint(), WorkerReply::BestMatch(Err("down".to_string()))),
        None
    );
}

fn found(host: Option<&str>, port: Option<u16>) -> Option<DisaggregatedEndpoint> {
    Some(DisaggregatedEndpoint { bootstrap_host: host.map(str::to_string), bootstrap_port: port })
}

#[test]
fn an_address_needs_a_host_and_a_port() {
    assert_eq!(
        lookup().bootstrap_in_room(found(Some("h"), Some(80)), 6),
        Some((
            5,
            2,
            BootstrapInfo {
                bootstrap_host: "h".to_string(),
                bootstrap_port: 80,
                bootstrap_room: 6
            }
        ))
    );
    assert_eq!(lookup().bootstrap_in_room(None, 6), None);
    assert_eq!(lookup().bootstrap_in_room(found(None, Some(80)), 6), None);
    assert_eq!(lookup().bootstrap_in_room(found(Some("h"), None), 6), None);
    assert_eq!(lookup().resolve(found(Some("h"), None)), None);
}

#[test]
fn rooms_are_drawn_from_the_signed_range() {
    assert_eq!(LAST_ROOM, i64::MAX as u64);
    let mut rooms = HashSet::new();
    for _ in 0..64 {
        let (worker_id, dp_rank, info) = lookup().resolve(found(Some("h"), Some(80))).unwrap();
        assert_eq!((worker_id, dp_rank), (5, 2));
        assert_eq!(info.bootstrap_host, "h");
        assert_eq!(info.bootstrap_port, 80);
        assert!(info.bootstrap_room <= LAST_ROOM);
        rooms.insert(info.bootstrap_room);
    }
    assert!(rooms.len() > 1);
}
