use disagg_router::activation::{ActivationSignal, BuiltRouter, Pushed, RouterPlan};
use disagg_router::prefill_router::{InnerPrefillRouter, PrefillRouter};
use disagg_router::protocols::{EndpointId, RouterMode, RouterTypes};
use std::sync::Arc;

struct Stub;

impl RouterTypes for Stub {
    type KvPushRouter = &'static str;
    type PushRouter = &'static str;
    type KvRouterConfig = u8;
    type KvChooser = &'static str;
    type Client = &'static str;
    type Payload = ();
    type BlockExtraInfo = ();
    type Tracker = ();
    type PhasePermit = ();
    type Cause = String;
}

type Router = PrefillRouter<Stub>;

fn endpoint() -> EndpointId {
    EndpointId {
        namespace: "ns".to_string(),
        component: "prefill".to_string(),
        name: "generate".to_string(),
    }
}

fn watching(mode: RouterMode, enforce_disagg: bool) -> Router {
    let mut router =
        Router::new(mode, 16, Some(7), enforce_disagg, "model".to_string(), "ns".to_string());
    assert_eq!(router.receive(ActivationSignal::Endpoint(endpoint())), Some(endpoint()));
    router
}

/// A router that waits for its simple inner router, and that inner router.
fn building(mode: RouterMode, enforce_disagg: bool) -> (Router, BuiltRouter<Stub>) {
    let mut router = watching(mode, enforce_disagg);
    let step = match router.watched(Ok(())).unwrap() {
        RouterPlan::SimpleRouter(step) => step.made::<Stub>(Ok(Arc::new("client"))).unwrap(),
        RouterPlan::KvRouter(_) => panic!("no KV-aware router is built"),
    };
    match step.register().1.made(Ok("push")).unwrap() {
        Pushed::Built(built) => (router, built),
        Pushed::Wrap { .. } => panic!("a simple router is not wrapped"),
    }
}

/// A brand-new router that was never activated should always allow serving
/// (the deployment may be purely aggregated).
#[test]
fn test_can_serve_requests_never_activated() {
    // enforce_disagg=true: even strict mode allows serving when router never activated
    let router = Router::disabled(RouterMode::RoundRobin, true);
    assert!(
        router.can_serve_requests(),
        "never-activated router must allow serving regardless of enforce_disagg"
    );

    // enforce_disagg=false: same expectation
    let router = Router::disabled(RouterMode::RoundRobin, false);
    assert!(router.can_serve_requests());
}

/// A router that was once active but has since been deactivated must refuse
/// serving when enforce_disagg is true (no fallback to aggregated mode).
#[test]
fn prefill_router_test_can_serve_requests_deactivated_enforce_disagg() {
    let router = Router::make_deactivated_for_test(true);
    assert!(
        !router.can_serve_requests(),
        "deactivated router with enforce_disagg must not allow serving"
    );
}

/// When enforce_disagg is false the router should still allow serving after
/// deactivation: requests fall back to aggregated (decode-only) mode.
#[test]
fn prefill_router_test_can_serve_requests_deactivated_no_enforce() {
    let router = Router::make_deactivated_for_test(false);
    assert!(
        router.can_serve_requests(),
        "deactivated router without enforce_disagg must allow serving (fallback)"
    );
}

/// deactivate() leaves the router inactive, but was_ever_activated() keeps returning
/// true so subsequent can_serve_requests() calls honour enforce_disagg.
#[test]
fn test_deactivate_clears_inner_router() {
    let mut router = Router::make_deactivated_for_test(true);

    assert!(!router.is_activated(), "should not be activated");
    assert!(router.was_ever_activated(), "should record prior activation");

    // Calling deactivate() again must not panic and must preserve state.
    router.deactivate();
    assert!(!router.is_activated());
    assert!(router.was_ever_activated());
}

/// A freshly-created disabled router should report was_ever_activated()=false.
#[test]
fn test_was_ever_activated_false_on_fresh_router() {
    let router = Router::disabled(RouterMode::RoundRobin, false);
    assert!(
        !router.was_ever_activated(),
        "fresh disabled router must not claim prior activation"
    );
}

#[test]
fn lifecycle_from_waiting_to_deactivated() {
    let mut router =
        Router::new(RouterMode::RoundRobin, 16, None, true, "model".to_string(), "ns".to_string());
    assert!(!router.is_activated());
    assert!(!router.was_ever_activated());
    assert!(router.can_serve_requests());
    assert_eq!(router.current_endpoint_id(), None);
    assert_eq!(router.model_name(), "model");
    assert_eq!(router.namespace(), "ns");

    assert!(router.awaits_endpoint());
    assert_eq!(router.receive(ActivationSignal::Endpoint(endpoint())), Some(endpoint()));
    assert!(!router.awaits_endpoint());
    assert!(router.awaits_watch());
    assert_eq!(router.current_endpoint_id(), Some(endpoint()));
    assert!(!router.is_activated());

    let plan = router.watched(Ok(())).unwrap();
    assert!(!router.awaits_watch());
    assert!(router.is_building());
    assert!(!router.is_activated());

    let step = match plan {
        RouterPlan::SimpleRouter(step) => step.made::<Stub>(Ok(Arc::new("client"))).unwrap(),
        RouterPlan::KvRouter(_) => panic!("round robin is simple routing"),
    };
    let (registration, step) = step.register();
    assert_eq!(registration.model_name, "model");
    assert_eq!(registration.namespace, "ns");
    let (client, mode) = step.push_settings();
    assert!(Arc::ptr_eq(&client, &registration.client));
    assert_eq!(*client, "client");
    assert_eq!(mode, RouterMode::RoundRobin);
    let built = match step.made(Ok("push")).unwrap() {
        Pushed::Built(built) => built,
        Pushed::Wrap { .. } => panic!("a simple router is not wrapped"),
    };
    assert!(!router.is_activated());

    assert!(built.is_for(&router));
    router.activate(Ok(built)).unwrap();
    assert!(router.is_activated());
    assert!(router.was_ever_activated());
    assert!(router.can_serve_requests());
    assert_eq!(router.router_to_advance().as_deref(), Some(&"push"));

    router.deactivate();
    assert!(!router.is_activated());
    assert!(router.was_ever_activated());
    assert!(!router.can_serve_requests());
    assert_eq!(router.current_endpoint_id(), None);
    assert!(router.current_router().is_none());
}

#[test]
fn an_activation_may_end_after_a_removal() {
    let (mut router, built) = building(RouterMode::RoundRobin, true);
    router.deactivate();
    assert!(!router.was_ever_activated());
    assert!(router.can_serve_requests());
    assert_eq!(router.current_endpoint_id(), None);
    assert!(router.is_building());
    router.activate(Ok(built)).unwrap();
    assert!(router.can_serve_requests());
    assert!(router.is_activated());
    assert_eq!(router.current_endpoint_id(), None);
}

#[test]
fn a_passthrough_stays_one() {
    let mut router = Router::disabled(RouterMode::RoundRobin, true);
    router.deactivate();
    assert!(router.is_passthrough());
    assert!(router.can_serve_requests());
    assert!(!router.awaits_endpoint());
    assert!(!router.is_building());

    let mut router = Router::disabled(RouterMode::RoundRobin, false);
    router.deactivate();
    assert!(!router.was_ever_activated());
    assert!(router.can_serve_requests());
}

#[test]
fn a_waiting_router_outlives_a_removal() {
    let mut router =
        Router::new(RouterMode::RoundRobin, 16, None, true, "model".to_string(), "ns".to_string());
    router.deactivate();
    assert!(!router.is_passthrough());
    assert!(router.awaits_endpoint());
    assert!(router.can_serve_requests());
    assert!(!router.was_ever_activated());

    assert!(router.receive(ActivationSignal::Endpoint(endpoint())).is_some());
    assert!(router.awaits_watch());
}

#[test]
fn a_router_is_activated_only_once() {
    let (mut router, built) = building(RouterMode::RoundRobin, false);
    router.activate(Ok(built)).unwrap();
    assert!(!router.awaits_endpoint());
    assert!(!router.is_building());
    router.deactivate();
    router.deactivate();
    assert!(!router.awaits_endpoint());
    assert!(!router.is_building());
    assert!(!router.is_activated());
    assert!(router.can_serve_requests());
}

fn assert_failed(router: &Router) {
    assert!(!router.awaits_endpoint());
    assert!(!router.awaits_watch());
    assert!(!router.is_building());
    assert!(!router.is_activated());
    assert!(!router.was_ever_activated());
    assert!(router.can_serve_requests());
    assert_eq!(router.current_endpoint_id(), Some(endpoint()));
}

#[test]
fn failed_activation_keeps_waiting() {
    let (mut router, _) = building(RouterMode::Random, true);
    assert_eq!(router.activate(Err("no client".to_string())), Err("no client".to_string()));
    assert_failed(&router);
}

#[test]
fn without_a_watch_there_is_no_plan() {
    let mut router = watching(RouterMode::Random, true);
    match router.watched(Err("no watch".to_string())) {
        Err(error) => assert_eq!(error, "no watch"),
        Ok(_) => panic!("the runtime configuration is not watched"),
    }
    assert_failed(&router);
}

#[test]
fn a_failed_step_ends_the_build() {
    let mut router = watching(RouterMode::Direct, true);
    match router.watched(Ok(())).unwrap() {
        RouterPlan::SimpleRouter(step) => {
            let next = step.made::<Stub>(Err("no client".to_string()));
            assert_eq!(next.err(), Some("no client".to_string()));
        }
        RouterPlan::KvRouter(_) => panic!("direct routing is simple"),
    }

    let mut router = watching(RouterMode::KV, true);
    match router.watched(Ok(())).unwrap() {
        RouterPlan::KvRouter(step) => {
            assert_eq!(step.made(Err("no chooser".to_string())).err(), Some("no chooser".to_string()));
        }
        RouterPlan::SimpleRouter(_) => panic!("KV mode builds a KV-aware router"),
    }

    let mut router = watching(RouterMode::KV, true);
    match router.watched(Ok(())).unwrap() {
        RouterPlan::KvRouter(step) => {
            let step = step.made(Ok("chooser")).unwrap().taken(Arc::new("client"));
            let next = step.register().1.made(Err("no router".to_string()));
            assert_eq!(next.err(), Some("no router".to_string()));
        }
        RouterPlan::SimpleRouter(_) => panic!("KV mode builds a KV-aware router"),
    }
}

#[test]
fn an_inner_router_is_for_one_target() {
    let (router, built) = building(RouterMode::Random, true);
    assert!(built.is_for(&router));
    assert!(built.is_for(&watching(RouterMode::Random, false)));
    assert!(!built.is_for(&watching(RouterMode::RoundRobin, true)));
    for (model, namespace) in [("other", "ns"), ("model", "other")] {
        let other = Router::new(
            RouterMode::Random,
            16,
            None,
            true,
            model.to_string(),
            namespace.to_string(),
        );
        assert!(!built.is_for(&other));
    }
}

#[test]
fn other_signals_end_the_wait() {
    for signal in [ActivationSignal::ChannelClosed, ActivationSignal::Cancelled] {
        let mut router =
            Router::new(RouterMode::KV, 16, None, true, "model".to_string(), "ns".to_string());
        assert!(router.receive(signal).is_none());
        assert!(!router.awaits_endpoint());
        assert!(!router.is_building());
        assert!(router.can_serve_requests());
        assert_eq!(router.current_endpoint_id(), None);
        assert!(!router.is_activated());
    }
}

#[test]
fn kv_mode_builds_around_its_chooser() {
    let mut router =
        Router::new(RouterMode::KV, 64, Some(9), false, "model".to_string(), "ns".to_string());
    router.receive(ActivationSignal::Endpoint(endpoint()));
    let step = match router.watched(Ok(())).unwrap() {
        RouterPlan::KvRouter(step) => step,
        RouterPlan::SimpleRouter(_) => panic!("KV mode builds a KV-aware router"),
    };
    let settings = step.chooser_settings();
    assert_eq!(settings.kv_cache_block_size, 64);
    assert_eq!(settings.kv_router_config, Some(Arc::new(9)));

    let step = step.made(Ok("chooser")).unwrap();
    assert_eq!(*step.kv_chooser(), "chooser");
    let (registration, step) = step.taken(Arc::new("client of chooser")).register();
    assert_eq!(*registration.client, "client of chooser");
    assert_eq!(registration.model_name, "model");
    assert_eq!(registration.namespace, "ns");
    let (client, mode) = step.push_settings();
    assert!(Arc::ptr_eq(&client, &registration.client));
    assert_eq!(mode, RouterMode::KV);
    let built = match step.made(Ok("push")).unwrap() {
        Pushed::Wrap { push_router, chooser, pending } => {
            assert_eq!(push_router, "push");
            assert_eq!(chooser, "chooser");
            pending.wrapped("kv")
        }
        Pushed::Built(_) => panic!("the push router is wrapped"),
    };
    router.activate(Ok(built)).unwrap();
    assert!(matches!(
        router.current_router(),
        Some(InnerPrefillRouter::KvRouter(kv)) if *kv == "kv"
    ));
    assert!(router.router_to_advance().is_none());
}

#[test]
fn a_copy_is_independent() {
    let (mut router, built) = building(RouterMode::RoundRobin, true);
    router.activate(Ok(built)).unwrap();
    let mut copy = router.clone();
    copy.deactivate();
    assert!(router.is_activated());
    assert!(!copy.is_activated());
    assert_eq!(copy.enforce_disagg(), true);
    assert_eq!(copy.router_mode(), RouterMode::RoundRobin);
}

#[test]
fn modes_that_route_by_kv() {
    assert!(RouterMode::KV.is_kv_routing());
    assert!(!RouterMode::RoundRobin.is_kv_routing());
    assert!(!RouterMode::Random.is_kv_routing());
    assert!(!RouterMode::Direct.is_kv_routing());
}
