use disagg_router::error::PrefillError;
use disagg_router::execution::{
    check_routed, prefill_worker_info, read_prefill_worker, Dispatch, PrefillStream,
};
use disagg_router::prefill_router::{InnerPrefillRouter, PrefillRouter};
use disagg_router::protocols::{
    Annotated, CompletionUsage, LLMEngineOutput, PrefillResult, PromptTokensDetails, RouterTypes,
};
use serde_json::Value;
use std::sync::Arc;

struct Stub;

impl RouterTypes for Stub {
    type KvPushRouter = &'static str;
    type PushRouter = &'static str;
    type KvRouterConfig = ();
    type KvChooser = ();
    type Client = ();
    type Payload = ();
    type BlockExtraInfo = ();
    type Tracker = ();
    type PhasePermit = ();
    type Cause = String;
}

fn json(text: &str) -> Value {
    serde_json::from_str(text).unwrap()
}

fn details(cached: u32) -> PromptTokensDetails {
    PromptTokensDetails { audio_tokens: None, cached_tokens: Some(cached) }
}

fn output(cached: Option<u32>, params: Option<&str>) -> Annotated<String> {
    Annotated {
        data: Some(LLMEngineOutput {
            completion_usage: Some(CompletionUsage { prompt_tokens_details: cached.map(details) }),
            disaggregated_params: params.map(json),
        }),
        error: None,
    }
}

fn error_output(text: &str) -> Annotated<String> {
    Annotated { data: None, error: Some(text.to_string()) }
}

fn run(
    outputs: Vec<Annotated<String>>,
) -> Result<(PrefillResult, Option<(u64, u32)>), PrefillError<String>> {
    let mut outputs = outputs.into_iter();
    let mut stream = PrefillStream::begin::<()>(outputs.next(), None)?;
    for next in outputs {
        stream.read(next);
    }
    stream.finish()
}

#[test]
fn an_empty_stream_is_an_error() {
    assert_eq!(
        run(vec![]),
        Err(PrefillError::PrefillError(
            "Prefill router returned no output (stream ended)".to_string(),
            None
        ))
    );
}

#[test]
fn an_error_in_the_first_output_is_an_error() {
    assert_eq!(
        run(vec![error_output("boom"), output(Some(1), Some("{}"))]),
        Err(PrefillError::PrefillError(
            "Prefill router returned error in output".to_string(),
            Some("boom".to_string())
        ))
    );
}

#[test]
fn a_first_output_without_data_is_an_error() {
    let empty = Annotated { data: None, error: None };
    assert_eq!(
        run(vec![empty, output(Some(1), Some("{}"))]),
        Err(PrefillError::NoDisaggregatedParams(
            "Prefill router output has no data field".to_string()
        ))
    );
}

#[test]
fn a_first_output_without_params_is_an_error() {
    assert_eq!(
        run(vec![output(Some(1), None), output(Some(1), Some("{}"))]),
        Err(PrefillError::NoDisaggregatedParams(
            "Prefill router output missing disaggregated_params".to_string()
        ))
    );
}

#[test]
fn params_and_details_of_the_first_output_are_taken() {
    let params = r#"{"worker_id": {"prefill_worker_id": 42, "prefill_dp_rank": 3}, "x": 1}"#;
    let (result, info) =
        run(vec![output(Some(11), Some(params)), output(Some(22), Some("{}"))]).unwrap();
    assert_eq!(result.disaggregated_params, json(params));
    assert_eq!(result.prompt_tokens_details, Some(details(11)));
    assert_eq!(info, Some((42, 3)));
}

#[test]
fn details_may_come_later_and_late_errors_are_ignored() {
    let (result, info) = run(vec![
        output(None, Some("{}")),
        error_output("late"),
        Annotated { data: None, error: None },
        output(Some(22), None),
        output(Some(33), None),
    ])
    .unwrap();
    assert_eq!(result.prompt_tokens_details, Some(details(22)));
    assert_eq!(info, None);

    let (result, _) = run(vec![output(None, Some("{}")), output(None, None)]).unwrap();
    assert_eq!(result.prompt_tokens_details, None);
}

#[test]
fn the_worker_is_read_from_the_params() {
    let read = |text: &str| read_prefill_worker(&json(text));
    assert_eq!(read(r#"{"worker_id": {"prefill_worker_id": 7}}"#), Some((7, 0)));
    assert_eq!(
        read(r#"{"worker_id": {"prefill_worker_id": 7, "prefill_dp_rank": 2}}"#),
        Some((7, 2))
    );
    assert_eq!(
        read(r#"{"worker_id": {"prefill_worker_id": 7, "prefill_dp_rank": "2"}}"#),
        Some((7, 0))
    );
    assert_eq!(
        read(r#"{"worker_id": {"prefill_worker_id": 7, "prefill_dp_rank": 4294967298}}"#),
        Some((7, 2))
    );
    assert_eq!(
        read(r#"{"worker_id": {"prefill_worker_id": 18446744073709551615}}"#),
        Some((u64::MAX, 0))
    );
    assert_eq!(read(r#"{"worker_id": {"prefill_worker_id": -7}}"#), None);
    assert_eq!(read(r#"{"worker_id": {"prefill_worker_id": 7.0}}"#), None);
    assert_eq!(read(r#"{"worker_id": {"prefill_dp_rank": 2}}"#), None);
    assert_eq!(read(r#"{"worker_id": 7}"#), None);
    assert_eq!(read(r#"{"prefill_worker_id": 7}"#), None);
    assert_eq!(read(r#"[1, 2]"#), None);
    assert_eq!(read("null"), None);
}

#[test]
fn a_rank_is_cut_to_its_low_bits() {
    assert_eq!(prefill_worker_info(Some(1), Some(0xffff_ffff)), Some((1, 0xffff_ffff)));
    assert_eq!(prefill_worker_info(Some(1), Some(0x1_0000_0000)), Some((1, 0)));
    assert_eq!(prefill_worker_info(Some(1), Some(u64::MAX)), Some((1, u32::MAX)));
    assert_eq!(prefill_worker_info(Some(1), None), Some((1, 0)));
    assert_eq!(prefill_worker_info(None, Some(5)), None);
}

#[test]
fn only_a_simple_router_is_told_the_worker() {
    let kv: InnerPrefillRouter<Stub> = InnerPrefillRouter::KvRouter(Arc::new("kv"));
    let simple: InnerPrefillRouter<Stub> = InnerPrefillRouter::SimpleRouter(Arc::new("push"));
    assert!(matches!(kv.generate_to_worker(Some(4)), Dispatch::KvGenerate(router) if *router == "kv"));
    assert!(matches!(kv.generate_to_worker(None), Dispatch::KvGenerate(_)));
    assert!(matches!(
        simple.generate_to_worker(Some(4)),
        Dispatch::SimpleDirect { router, worker_id: 4 } if *router == "push"
    ));
    assert!(matches!(simple.generate_to_worker(None), Dispatch::SimpleGenerate(_)));
    assert!(kv.select_next_worker().is_none());
    assert_eq!(simple.select_next_worker().as_deref(), Some(&"push"));
}

#[test]
fn a_prefill_needs_a_router() {
    match PrefillRouter::<Stub>::execute_prefill(None, Some(1)) {
        Err(error) => assert_eq!(error, PrefillError::NotActivated),
        Ok(_) => panic!("there is no router to dispatch to"),
    }
    let simple: InnerPrefillRouter<Stub> = InnerPrefillRouter::SimpleRouter(Arc::new("push"));
    assert!(matches!(
        PrefillRouter::execute_prefill(Some(simple), Some(9)),
        Ok(Dispatch::SimpleDirect { worker_id: 9, .. })
    ));
}

#[test]
fn the_permit_is_held_until_the_first_output() {
    let permit = Arc::new(());
    let held = check_routed::<_, String>(Ok(()), Some(permit.clone())).unwrap();
    assert!(Arc::ptr_eq(held.as_ref().unwrap(), &permit));
    assert_eq!(Arc::strong_count(&permit), 2);

    let mut stream = PrefillStream::begin(Some(output(None, Some("{}"))), held).unwrap();
    assert_eq!(Arc::strong_count(&permit), 1);
    stream.read(output(Some(4), None));
    assert_eq!(stream.finish().unwrap().0.prompt_tokens_details, Some(details(4)));

    assert_eq!(check_routed::<(), String>(Ok(()), None), Ok(None));
}

#[test]
fn a_refused_or_failed_prefill_gives_the_permit_up() {
    let permit = Arc::new(());
    assert_eq!(
        check_routed(Err("refused".to_string()), Some(permit.clone())),
        Err(PrefillError::PrefillError(
            "failed to route to prefill worker".to_string(),
            Some("refused".to_string())
        ))
    );
    assert_eq!(Arc::strong_count(&permit), 1);
    assert!(PrefillStream::<String>::begin(None, Some(permit.clone())).is_err());
    assert_eq!(Arc::strong_count(&permit), 1);
    assert!(PrefillStream::begin(Some(error_output("boom")), Some(permit.clone())).is_err());
    assert_eq!(Arc::strong_count(&permit), 1);
}

#[test]
fn messages_of_prefill_errors() {
    assert_eq!(PrefillError::<String>::NotActivated.message(), "Prefill router not yet activated");
    assert_eq!(
        PrefillError::PrefillError("x".to_string(), Some("cause".to_string())).message(),
        "Prefill execution failed: x"
    );
    assert_eq!(
        PrefillError::<String>::NoDisaggregatedParams("y".to_string()).message(),
        "No disaggregated params in prefill response: y"
    );
}
