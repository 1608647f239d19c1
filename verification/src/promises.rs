//! What the operations of this library promise their callers.
//!
//! The laws here speak of calls: of what went in, what may come out, and how the results of one
//! call carry over to the next.

use crate::activation::{
    Activation, ActivationSignal, BuiltRouter, ChooserClientStep, ChooserSettings, ChooserStep,
    ClientStep, PushStep, Pushed, RegisterStep, Registration, RouterPlan, WrapStep,
};
use crate::channels::lists_held;
use crate::error::{PrefillError, PrefillErrorView};
use crate::execution::{
    check_routed, details_of, law_first_details, law_no_details, prefill_answer,
    prefill_worker_info, read_prefill_worker, Dispatch, PrefillStream,
};
use crate::generate::{
    DecodePhase, EnteringDecode, GenerateError, GenerateStart, PendingIds, PendingPrefill,
    PrefillLaunch, PrefillPhase, UntrackedRequest, WorkerIds,
};
use crate::json::{json_members, json_u64};
use crate::prefill_router::{InnerPrefillRouter, PrefillRouter, PrefillState};
use crate::protocols::{
    Annotated, BootstrapInfo, DisaggregatedEndpoint, EndpointId, PrefillResult,
    PreprocessedRequest, RouterMode, RouterTypes, RoutingHints,
};
use crate::worker_query::{
    query_answer, EndpointLookup, QueryError, ResolveStep, WorkerQuery, WorkerReply, LAST_ROOM,
};
use crate::worker_set::{
    can_serve_with, count_workers, ModelDeploymentCard, ParsingOptions, PipelineTypes, WorkerSet,
};
use serde_json::Value;
use std::collections::HashSet;
use std::sync::Arc;
use tokio::sync::watch;
use vstd::prelude::*;

verus! {

/// The request carries `query_instance_id` among its annotations.
pub open spec fn asks_for_workers<D: RouterTypes>(request: PreprocessedRequest<D>) -> bool {
    exists|i: int|
        0 <= i < request.annotations@.len() && #[trigger] request.annotations@[i]@
            == "query_instance_id"@
}

/// The value of one hint, or nothing where there are no hints.
pub open spec fn hint<T>(routing: Option<RoutingHints>, read: spec_fn(RoutingHints) -> Option<T>) -> Option<
    T,
> {
    match routing {
        Some(hints) => read(hints),
        None => None,
    }
}

/// The question is put for this request: it carries the request's own routing data, and neither
/// books the request nor moves a router on.
pub open spec fn peeks_for<D: RouterTypes>(
    query: WorkerQuery<D>,
    router: InnerPrefillRouter<D>,
    request: PreprocessedRequest<D>,
) -> bool {
    match query {
        WorkerQuery::FindBestMatch(question) => {
            &&& router == InnerPrefillRouter::<D>::KvRouter(question.router)
            &&& question.token_ids == request.routing_token_ids
            &&& question.block_mm_infos == request.block_mm_infos
            &&& !question.update_states
            &&& question.lora_name == hint(request.routing, |hints: RoutingHints| hints.lora_name)
            &&& question.allowed_worker_ids == hint(
                request.routing,
                |hints: RoutingHints| hints.allowed_worker_ids,
            )
            &&& match hint(request.routing, |hints: RoutingHints| hints.priority_jump_bits) {
                Some(bits) => question.priority_jump_bits == bits,
                None => question.priority_jump_bits == 0,
            }
        },
        WorkerQuery::PeekNextWorker(asked) => router == InnerPrefillRouter::<D>::SimpleRouter(
            asked,
        ),
        WorkerQuery::SelectNextWorker(_) => false,
    }
}

/// The rank that the request names, or zero.
pub open spec fn rank_of<D: RouterTypes>(request: PreprocessedRequest<D>) -> u32 {
    match hint(request.routing, |hints: RoutingHints| hints.dp_rank) {
        Some(rank) => rank,
        None => 0u32,
    }
}

/// The prefill is sent through the inner router of an active router, straight to the target where
/// there is one and the inner router is simple; without an active router it is not sent at all.
pub open spec fn sent_through<D: RouterTypes>(
    dispatch: Result<Dispatch<D>, PrefillError<D::Cause>>,
    state: PrefillState<D>,
    target_worker: Option<u64>,
) -> bool {
    match state {
        PrefillState::Active(InnerPrefillRouter::KvRouter(kv)) => {
            &&& dispatch matches Ok(Dispatch::KvGenerate(called))
            &&& called == kv
        },
        PrefillState::Active(InnerPrefillRouter::SimpleRouter(push)) => match target_worker {
            Some(target) => {
                &&& dispatch matches Ok(Dispatch::SimpleDirect { router, worker_id })
                &&& router == push
                &&& worker_id == target
            },
            None => {
                &&& dispatch matches Ok(Dispatch::SimpleGenerate(called))
                &&& called == push
            },
        },
        _ => dispatch matches Err(PrefillError::NotActivated),
    }
}

/// A request that a router without active prefill workers admits goes to decode unchanged, unless
/// disaggregation is enforced and the router is no passthrough: then it fails, as not activated.
/// Neither the mode nor anything that the request holds plays a part.
pub proof fn law_generate_without_prefill_workers<D: RouterTypes>(
    router: PrefillRouter<D>,
    request: PreprocessedRequest<D>,
    start: GenerateStart<D>,
)
    requires
        call_ensures(PrefillRouter::<D>::generate, (&router, request), start),
        !(router@.state is Active),
    ensures
        !router@.enforce_disagg || router@.state is Passthrough ==> (start matches
            GenerateStart::Aggregated(forwarded) && forwarded == request),
        router@.enforce_disagg && !(router@.state is Passthrough) ==> (start matches
            GenerateStart::Rejected(error) && error is NotActivated),
{
}

/// A request that an active router admits is taken through prefill, and a tracker is made for it
/// exactly if it has none, unless it only asks for its workers. None is rejected and none passes.
pub proof fn law_generate_with_prefill_workers<D: RouterTypes>(
    router: PrefillRouter<D>,
    request: PreprocessedRequest<D>,
    start: GenerateStart<D>,
)
    requires
        call_ensures(PrefillRouter::<D>::generate, (&router, request), start),
        router@.state is Active,
        !asks_for_workers(request),
    ensures
        request.tracker is Some ==> start is Disaggregated,
        request.tracker is None ==> start is Untracked,
{
}

/// A request that asks an active router for its workers is told those that it names, and otherwise
/// the router is asked for it without being moved on. It is never executed.
pub proof fn law_generate_for_a_query<D: RouterTypes>(
    router: PrefillRouter<D>,
    request: PreprocessedRequest<D>,
    start: GenerateStart<D>,
    inner: InnerPrefillRouter<D>,
)
    requires
        call_ensures(PrefillRouter::<D>::generate, (&router, request), start),
        router@.state == PrefillState::Active(inner),
        asks_for_workers(request),
    ensures
        match hint(request.routing, |hints: RoutingHints| hints.prefill_worker_id) {
            Some(worker_id) => {
                &&& start matches GenerateStart::WorkerIds(ids)
                &&& ids.prefill_worker_id == worker_id
                &&& ids.prefill_dp_rank == rank_of(request)
                &&& ids.decode_worker_id == hint(
                    request.routing,
                    |hints: RoutingHints| hints.decode_worker_id,
                )
            },
            None => {
                &&& start matches GenerateStart::Query(pending, query)
                &&& pending.decode_worker_id == hint(
                    request.routing,
                    |hints: RoutingHints| hints.decode_worker_id,
                )
                &&& peeks_for(query, inner, request)
            },
        },
{
}

/// The reply to that question names the prefill worker that the request is told.
pub proof fn law_answer_of_a_query<C>(
    pending: PendingIds,
    reply: WorkerReply<C>,
    ids: Result<WorkerIds, QueryError<C>>,
)
    requires
        call_ensures(PendingIds::answer::<C>, (pending, reply), ids),
    ensures
        match reply {
            WorkerReply::BestMatch(Ok((worker_id, dp_rank))) => {
                &&& ids matches Ok(told)
                &&& told.prefill_worker_id == worker_id
                &&& told.prefill_dp_rank == dp_rank
                &&& told.decode_worker_id == pending.decode_worker_id
            },
            WorkerReply::NextWorker(Some(worker_id)) => {
                &&& ids matches Ok(told)
                &&& told.prefill_worker_id == worker_id
                &&& told.prefill_dp_rank == 0
                &&& told.decode_worker_id == pending.decode_worker_id
            },
            WorkerReply::NextWorker(None) => ids matches Err(QueryError::NoWorkers),
            WorkerReply::BestMatch(Err(cause)) => {
                &&& ids matches Err(QueryError::BestMatch(kept))
                &&& kept == cause
            },
        },
{
}

/// `phase` is the prefill phase that `request` enters on `router`, followed by `tracker`: its own,
/// or one that was made for it.
pub open spec fn enters_prefill<D: RouterTypes>(
    router: PrefillRouter<D>,
    request: PreprocessedRequest<D>,
    tracker: Arc<D::Tracker>,
    untracked: UntrackedRequest<D>,
    phase: PrefillPhase<D>,
) -> bool {
    match request.tracker {
        Some(own) => {
            &&& own == tracker
            &&& call_ensures(
                PrefillRouter::<D>::generate,
                (&router, request),
                GenerateStart::Disaggregated(phase),
            )
        },
        None => {
            &&& call_ensures(
                PrefillRouter::<D>::generate,
                (&router, request),
                GenerateStart::Untracked(untracked),
            )
            &&& call_ensures(UntrackedRequest::<D>::follow, (untracked, tracker), phase)
        },
    }
}

/// The worker for a prefill is resolved with the request as a prefill worker gets it: with its
/// tracker and a limit of one token, and otherwise as it arrived. The worker that it names is the
/// preselected one.
pub proof fn law_prefill_phase_of_a_request<D: RouterTypes>(
    router: PrefillRouter<D>,
    request: PreprocessedRequest<D>,
    tracker: Arc<D::Tracker>,
    untracked: UntrackedRequest<D>,
    phase: PrefillPhase<D>,
    following: Arc<D::Tracker>,
    draft: PreprocessedRequest<D>,
    preselected: Option<u64>,
)
    requires
        enters_prefill(router, request, tracker, untracked, phase),
        call_ensures(PrefillPhase::<D>::tracker, (&phase,), following),
        call_ensures(PrefillPhase::<D>::prefill_request, (&phase,), draft),
        call_ensures(PrefillPhase::<D>::preselected_worker, (&phase,), preselected),
    ensures
        following == tracker,
        draft.tracker == Some(tracker),
        draft.stop_conditions.max_tokens == Some(1u32),
        (PreprocessedRequest {
            tracker: request.tracker,
            stop_conditions: request.stop_conditions,
            ..draft
        }) == request,
        preselected == hint(request.routing, |hints: RoutingHints| hints.prefill_worker_id),
{
    lemma_generate_admits_as_it_is(router, request, untracked, phase);
}

/// A request enters its prefill phase only on an active router, and as it arrived.
proof fn lemma_generate_admits_as_it_is<D: RouterTypes>(
    router: PrefillRouter<D>,
    request: PreprocessedRequest<D>,
    untracked: UntrackedRequest<D>,
    phase: PrefillPhase<D>,
)
    ensures
        call_ensures(
            PrefillRouter::<D>::generate,
            (&router, request),
            GenerateStart::Untracked(untracked),
        ) ==> untracked.request() == request && router@.state is Active,
        call_ensures(
            PrefillRouter::<D>::generate,
            (&router, request),
            GenerateStart::Disaggregated(phase),
        ) ==> phase.request() == request && router@.state is Active,
{
}

/// With a resolved worker the prefill is run in the background, on that worker, and holds the
/// permit. It gets the request with the worker, its rank and the meeting place, a limit of one
/// token, and each other hint and field as they arrived. A simple router that was peeked at moves
/// on.
pub proof fn law_launch_on_a_resolved_worker<D: RouterTypes>(
    router: PrefillRouter<D>,
    request: PreprocessedRequest<D>,
    tracker: Arc<D::Tracker>,
    untracked: UntrackedRequest<D>,
    phase: PrefillPhase<D>,
    now: PrefillRouter<D>,
    resolved: (u64, u32, BootstrapInfo),
    permit: D::PhasePermit,
    launch: PrefillLaunch<D>,
)
    requires
        enters_prefill(router, request, tracker, untracked, phase),
        call_ensures(PrefillPhase::<D>::launch, (phase, &now, Some(resolved), permit), launch),
    ensures
        launch matches PrefillLaunch::Background {
            advance,
            request: sent,
            dispatch,
            phase_permit,
            decode,
        } && {
            &&& phase_permit == permit
            &&& sent_through(dispatch, now@.state, Some(resolved.0))
            &&& match now@.state {
                PrefillState::Active(InnerPrefillRouter::SimpleRouter(push)) => advance == Some(
                    push,
                ),
                _ => advance is None,
            }
            &&& sent.tracker == Some(tracker)
            &&& sent.stop_conditions.max_tokens == Some(1u32)
            &&& sent.bootstrap_info == Some(resolved.2)
            &&& (PreprocessedRequest {
                tracker: request.tracker,
                stop_conditions: request.stop_conditions,
                bootstrap_info: request.bootstrap_info,
                routing: request.routing,
                ..sent
            }) == request
            &&& sent.routing matches Some(hints)
            &&& hints.prefill_worker_id == Some(resolved.0)
            &&& hints.dp_rank == Some(resolved.1)
            &&& hints.decode_worker_id == hint(
                request.routing,
                |hints: RoutingHints| hints.decode_worker_id,
            )
            &&& hints.lora_name == hint(request.routing, |hints: RoutingHints| hints.lora_name)
            &&& hints.priority_jump_bits == hint(
                request.routing,
                |hints: RoutingHints| hints.priority_jump_bits,
            )
            &&& hints.allowed_worker_ids == hint(
                request.routing,
                |hints: RoutingHints| hints.allowed_worker_ids,
            )
        },
{
    lemma_generate_admits_as_it_is(router, request, untracked, phase);
}

/// Without a resolved worker the prefill is waited for. It goes to the worker that the request
/// names, or to one of the inner router's choice, with a limit of one token and otherwise with the
/// request as it arrived.
pub proof fn law_launch_without_a_resolved_worker<D: RouterTypes>(
    router: PrefillRouter<D>,
    request: PreprocessedRequest<D>,
    tracker: Arc<D::Tracker>,
    untracked: UntrackedRequest<D>,
    phase: PrefillPhase<D>,
    now: PrefillRouter<D>,
    permit: D::PhasePermit,
    launch: PrefillLaunch<D>,
)
    requires
        enters_prefill(router, request, tracker, untracked, phase),
        call_ensures(PrefillPhase::<D>::launch, (phase, &now, None, permit), launch),
    ensures
        launch matches PrefillLaunch::Synchronous { request: sent, dispatch, pending } && {
            &&& sent_through(
                dispatch,
                now@.state,
                hint(request.routing, |hints: RoutingHints| hints.prefill_worker_id),
            )
            &&& sent.tracker == Some(tracker)
            &&& sent.stop_conditions.max_tokens == Some(1u32)
            &&& (PreprocessedRequest {
                tracker: request.tracker,
                stop_conditions: request.stop_conditions,
                ..sent
            }) == request
        },
{
    lemma_generate_admits_as_it_is(router, request, untracked, phase);
}

/// `decoded` is `request` as it goes to decode, followed by `tracker`: cached blocks have no weight
/// and none counts as reused, and all that is not named here is as it arrived.
pub open spec fn goes_to_decode<D: RouterTypes>(
    decoded: PreprocessedRequest<D>,
    request: PreprocessedRequest<D>,
    tracker: Arc<D::Tracker>,
    bootstrap_info: Option<BootstrapInfo>,
    prefill_result: Option<PrefillResult>,
) -> bool {
    &&& decoded.tracker == Some(tracker)
    &&& decoded.bootstrap_info == bootstrap_info
    &&& decoded.prefill_result == prefill_result
    &&& decoded.router_config_override matches Some(settings)
    &&& settings.overlap_score_weight_bits == Some(0u64)
    &&& settings.assume_kv_reuse == Some(false)
    &&& settings.router_temperature_bits == match request.router_config_override {
        Some(brought) => brought.router_temperature_bits,
        None => None,
    }
    &&& (PreprocessedRequest {
        tracker: request.tracker,
        bootstrap_info: request.bootstrap_info,
        prefill_result: request.prefill_result,
        router_config_override: request.router_config_override,
        ..decoded
    }) == request
}

/// A request whose prefill runs in the background goes to decode with the meeting place of its
/// prefill worker, unless its context ended, which fails it with the id of the context.
pub proof fn law_decode_after_a_background_prefill<D: RouterTypes>(
    router: PrefillRouter<D>,
    request: PreprocessedRequest<D>,
    tracker: Arc<D::Tracker>,
    untracked: UntrackedRequest<D>,
    phase: PrefillPhase<D>,
    now: PrefillRouter<D>,
    resolved: (u64, u32, BootstrapInfo),
    permit: D::PhasePermit,
    launch: PrefillLaunch<D>,
    stopped: bool,
    killed: bool,
    context_id: &str,
    entering: Result<EnteringDecode<D>, GenerateError<D::Cause>>,
    following: Arc<D::Tracker>,
    decode_permit: D::PhasePermit,
    decoded: PreprocessedRequest<D>,
)
    requires
        enters_prefill(router, request, tracker, untracked, phase),
        call_ensures(PrefillPhase::<D>::launch, (phase, &now, Some(resolved), permit), launch),
        launch matches PrefillLaunch::Background { decode, .. } && call_ensures(
            DecodePhase::<D>::enter,
            (decode, stopped, killed, context_id),
            entering,
        ),
        entering matches Ok(ready) ==> {
            &&& call_ensures(EnteringDecode::<D>::tracker, (&ready,), following)
            &&& call_ensures(EnteringDecode::<D>::entered, (ready, decode_permit), decoded)
        },
    ensures
        stopped || killed ==> (entering matches Err(GenerateError::ContextEnded(id)) && id@
            == context_id@),
        !stopped && !killed ==> {
            &&& entering is Ok
            &&& following == tracker
            &&& goes_to_decode(
                decoded,
                request,
                tracker,
                Some(resolved.2),
                request.prefill_result,
            )
        },
{
    lemma_generate_admits_as_it_is(router, request, untracked, phase);
}

/// A request whose prefill was waited for goes to decode with the result of its prefill. A failed
/// prefill fails it with that error, and an ended context with the id of the context, whatever the
/// prefill came to.
pub proof fn law_decode_after_a_finished_prefill<D: RouterTypes>(
    router: PrefillRouter<D>,
    request: PreprocessedRequest<D>,
    tracker: Arc<D::Tracker>,
    untracked: UntrackedRequest<D>,
    phase: PrefillPhase<D>,
    now: PrefillRouter<D>,
    permit: D::PhasePermit,
    launch: PrefillLaunch<D>,
    answer: Result<(PrefillResult, Option<(u64, u32)>), PrefillError<D::Cause>>,
    decode: DecodePhase<D>,
    stopped: bool,
    killed: bool,
    context_id: &str,
    entering: Result<EnteringDecode<D>, GenerateError<D::Cause>>,
    following: Arc<D::Tracker>,
    decode_permit: D::PhasePermit,
    decoded: PreprocessedRequest<D>,
)
    requires
        enters_prefill(router, request, tracker, untracked, phase),
        call_ensures(PrefillPhase::<D>::launch, (phase, &now, None, permit), launch),
        launch matches PrefillLaunch::Synchronous { pending, .. } && call_ensures(
            PendingPrefill::<D>::complete,
            (pending, answer),
            decode,
        ),
        call_ensures(DecodePhase::<D>::enter, (decode, stopped, killed, context_id), entering),
        entering matches Ok(ready) ==> {
            &&& call_ensures(EnteringDecode::<D>::tracker, (&ready,), following)
            &&& call_ensures(EnteringDecode::<D>::entered, (ready, decode_permit), decoded)
        },
    ensures
        stopped || killed ==> (entering matches Err(GenerateError::ContextEnded(id)) && id@
            == context_id@),
        !stopped && !killed ==> match answer {
            Ok((result, _)) => {
                &&& entering is Ok
                &&& following == tracker
                &&& goes_to_decode(
                    decoded,
                    request,
                    tracker,
                    request.bootstrap_info,
                    Some(result),
                )
            },
            Err(error) => entering matches Err(GenerateError::Prefill(failed)) && failed == error,
        },
{
    lemma_generate_admits_as_it_is(router, request, untracked, phase);
}

/// A prefill that is executed on an inner router is always sent; only without one it is not.
pub proof fn law_execute_prefill<D: RouterTypes>(
    router: Option<InnerPrefillRouter<D>>,
    target_worker: Option<u64>,
    begun: Result<Dispatch<D>, PrefillError<D::Cause>>,
)
    requires
        call_ensures(PrefillRouter::<D>::execute_prefill, (router, target_worker), begun),
    ensures
        router matches Some(inner) ==> sent_through(
            begun,
            PrefillState::Active(inner),
            target_worker,
        ),
        router is None ==> (begun matches Err(error) && error is NotActivated),
{
}

/// A router sends to the worker that is asked for exactly if it is simple and one is asked for.
pub proof fn law_generate_to_worker<D: RouterTypes>(
    inner: InnerPrefillRouter<D>,
    target_worker: Option<u64>,
    dispatch: Dispatch<D>,
)
    requires
        call_ensures(
            InnerPrefillRouter::<D>::generate_to_worker,
            (&inner, target_worker),
            dispatch,
        ),
    ensures
        sent_through(Ok(dispatch), PrefillState::Active(inner), target_worker),
{
}

/// A refused dispatch fails the prefill with the error of the router; an accepted one hands the
/// permit back.
pub proof fn law_check_routed<P, C>(
    reply: Result<(), C>,
    phase_permit: Option<P>,
    routed: Result<Option<P>, PrefillError<C>>,
)
    requires
        call_ensures(check_routed::<P, C>, (reply, phase_permit), routed),
    ensures
        reply is Ok ==> (routed matches Ok(held) && held == phase_permit),
        reply matches Err(cause) ==> (routed matches Err(PrefillError::PrefillError(what, kept))
            && what@ == "failed to route to prefill worker"@ && kept == Some(cause)),
{
}

/// Reading a stream starts exactly if it has a first output without an error, and then that output
/// is what was read. An empty stream and one that begins with an error are told apart, and the
/// error is kept.
pub proof fn law_stream_begins<P, C>(
    first: Option<Annotated<C>>,
    phase_permit: Option<P>,
    begun: Result<PrefillStream<C>, PrefillError<C>>,
)
    requires
        call_ensures(PrefillStream::<C>::begin::<P>, (first, phase_permit), begun),
    ensures
        first is None ==> (begun matches Err(PrefillError::PrefillError(what, cause)) && what@
            == "Prefill router returned no output (stream ended)"@ && cause is None),
        first matches Some(output) ==> match output.error {
            Some(error) => {
                &&& begun matches Err(PrefillError::PrefillError(what, cause))
                &&& what@ == "Prefill router returned error in output"@
                &&& cause == Some(error)
            },
            None => {
                &&& begun matches Ok(stream)
                &&& stream.outputs() == seq![output]
            },
        },
{
    if let (Some(output), Err(error)) = (first, begun) {
        let rest = Seq::<Annotated<C>>::empty();
        assert((seq![output] + rest)[0] == output);
        assert(prefill_answer(seq![output] + rest) == Err::<
            (PrefillResult, Option<(u64, u32)>),
            PrefillErrorView<C>,
        >(error@));
    }
}

/// Each further output is read once, after those before it.
pub proof fn law_stream_goes_on<C>(stream: &mut PrefillStream<C>, next: Annotated<C>)
    requires
        call_ensures(PrefillStream::<C>::read, (stream, next), ()),
    ensures
        final(stream).outputs() == old(stream).outputs().push(next),
{
}

/// The output holds these token details.
pub open spec fn holds_details<C>(output: Annotated<C>) -> bool {
    &&& output.data matches Some(data)
    &&& data.completion_usage matches Some(usage)
    &&& usage.prompt_tokens_details is Some
}

/// A stream that was read comes to a result exactly if its first output holds params, and then to
/// those, whatever else that output holds and whatever follows it. The token details are those of
/// the first output that holds any, wherever that is, and there are none only if no output does.
pub proof fn law_stream_finishes<C>(
    stream: PrefillStream<C>,
    answer: Result<(PrefillResult, Option<(u64, u32)>), PrefillError<C>>,
    at: int,
)
    requires
        call_ensures(PrefillStream::<C>::finish, (stream,), answer),
        stream.outputs().len() > 0,
        stream.outputs()[0].error is None,
    ensures
        match stream.outputs()[0].data {
            None => {
                &&& answer matches Err(PrefillError::NoDisaggregatedParams(what))
                &&& what@ == "Prefill router output has no data field"@
            },
            Some(data) => match data.disaggregated_params {
                None => {
                    &&& answer matches Err(PrefillError::NoDisaggregatedParams(what))
                    &&& what@ == "Prefill router output missing disaggregated_params"@
                },
                Some(params) => {
                    &&& answer matches Ok((result, info))
                    &&& result.disaggregated_params == params
                    &&& names_worker(params, info)
                    &&& 0 <= at < stream.outputs().len() && holds_details(stream.outputs()[at]) && (
                    forall|i: int|
                        0 <= i < at ==> !holds_details(#[trigger] stream.outputs()[i]))
                        ==> result.prompt_tokens_details
                        == stream.outputs()[at].data->0.completion_usage->0.prompt_tokens_details
                    &&& (forall|i: int|
                        0 <= i < stream.outputs().len() ==> !holds_details(
                            #[trigger] stream.outputs()[i],
                        )) ==> result.prompt_tokens_details is None
                },
            },
        },
{
    let outputs = stream.outputs();
    assert forall|i: int| 0 <= i < outputs.len() implies (holds_details(#[trigger] outputs[i])
        <==> details_of(outputs[i]) is Some) by {}
    if 0 <= at < outputs.len() && holds_details(outputs[at]) && (forall|i: int|
        0 <= i < at ==> !holds_details(#[trigger] outputs[i])) {
        law_first_details(outputs, at);
    }
    if forall|i: int| 0 <= i < outputs.len() ==> !holds_details(#[trigger] outputs[i]) {
        law_no_details(outputs);
    }
}

/// `info` is the worker that `params` name: the unsigned integer under `prefill_worker_id` of the
/// member `worker_id`, with the rank under `prefill_dp_rank` of the same member, or zero.
pub open spec fn names_worker(params: Value, info: Option<(u64, u32)>) -> bool {
    let held = json_members(params);
    let ids = json_members(held["worker_id"@]);
    let id = json_u64(ids["prefill_worker_id"@]);
    let rank = json_u64(ids["prefill_dp_rank"@]);
    if held.contains_key("worker_id"@) && ids.contains_key("prefill_worker_id"@) && id is Some {
        &&& info matches Some((worker_id, dp_rank))
        &&& id == Some(worker_id)
        &&& if ids.contains_key("prefill_dp_rank"@) && rank is Some {
            dp_rank as int == rank->0 as int % 0x1_0000_0000
        } else {
            dp_rank == 0
        }
    } else {
        info is None
    }
}

/// The worker that is read from params is the one that they name.
pub proof fn law_read_prefill_worker(params: Value, info: Option<(u64, u32)>)
    requires
        call_ensures(read_prefill_worker, (&params,), info),
    ensures
        names_worker(params, info),
{
}

/// A worker whose id was read is known, with or without a rank; a rank alone names no worker.
pub proof fn law_prefill_worker_info(
    worker_id: Option<u64>,
    dp_rank: Option<u64>,
    info: Option<(u64, u32)>,
)
    requires
        call_ensures(prefill_worker_info, (worker_id, dp_rank), info),
    ensures
        worker_id is None ==> info is None,
        worker_id matches Some(id) ==> (info matches Some((found, rank)) && found == id
            && match dp_rank {
            Some(read) => rank as int == read as int % 0x1_0000_0000,
            None => rank == 0,
        }),
{
}

/// A router that is not active answers no query. An active KV-aware one is asked with everything
/// that was given, each part whatever the others are; a simple one for its next worker, and it
/// moves on exactly if states are to be updated.
pub proof fn law_query_prefill_worker<D: RouterTypes>(
    router: PrefillRouter<D>,
    token_ids: Arc<Vec<u32>>,
    block_mm_infos: Option<Arc<Vec<Option<D::BlockExtraInfo>>>>,
    update_states: bool,
    lora_name: Option<String>,
    priority_jump_bits: u64,
    allowed_worker_ids: Option<Arc<HashSet<u64>>>,
    query: Result<WorkerQuery<D>, PrefillError<D::Cause>>,
)
    requires
        call_ensures(
            PrefillRouter::<D>::query_prefill_worker,
            (
                &router,
                token_ids,
                block_mm_infos,
                update_states,
                lora_name,
                priority_jump_bits,
                allowed_worker_ids,
            ),
            query,
        ),
    ensures
        match router@.state {
            PrefillState::Active(InnerPrefillRouter::KvRouter(kv)) => {
                &&& query matches Ok(WorkerQuery::FindBestMatch(question))
                &&& question.router == kv
                &&& question.token_ids == token_ids
                &&& question.block_mm_infos == block_mm_infos
                &&& question.update_states == update_states
                &&& question.lora_name == lora_name
                &&& question.priority_jump_bits == priority_jump_bits
                &&& question.allowed_worker_ids == allowed_worker_ids
            },
            PrefillState::Active(InnerPrefillRouter::SimpleRouter(push)) => if update_states {
                &&& query matches Ok(WorkerQuery::SelectNextWorker(asked))
                &&& asked == push
            } else {
                &&& query matches Ok(WorkerQuery::PeekNextWorker(asked))
                &&& asked == push
            },
            _ => query matches Err(error) && error is NotActivated,
        },
{
}

/// The question for a request is put to the inner router of an active router, with the routing data
/// of the request.
pub proof fn law_peek_prefill_worker<D: RouterTypes>(
    router: PrefillRouter<D>,
    request: PreprocessedRequest<D>,
    query: Result<WorkerQuery<D>, PrefillError<D::Cause>>,
)
    requires
        call_ensures(PrefillRouter::<D>::peek_prefill_worker, (&router, &request), query),
    ensures
        match router@.state {
            PrefillState::Active(inner) => {
                &&& query matches Ok(question)
                &&& peeks_for(question, inner, request)
            },
            _ => query matches Err(error) && error is NotActivated,
        },
{
}

/// Resolving takes a preselected worker as it is, with the rank that the request names, and asks
/// the inner router otherwise. It comes to nothing exactly if the router is not active or its
/// endpoint not known.
pub proof fn law_resolve_prefill_worker<D: RouterTypes>(
    router: PrefillRouter<D>,
    request: PreprocessedRequest<D>,
    preselected_worker: Option<u64>,
    step: ResolveStep<D>,
)
    requires
        call_ensures(
            PrefillRouter::<D>::resolve_prefill_worker,
            (&router, &request, preselected_worker),
            step,
        ),
    ensures
        step is Unresolved <==> !(router@.state is Active) || router@.endpoint_id is None,
        step matches ResolveStep::Lookup(lookup) ==> {
            &&& Some(lookup.endpoint_id) == router@.endpoint_id
            &&& Some(lookup.worker_id) == preselected_worker
            &&& lookup.dp_rank == rank_of(request)
        },
        step matches ResolveStep::Query(endpoint_id, query) ==> {
            &&& Some(endpoint_id) == router@.endpoint_id
            &&& preselected_worker is None
            &&& router@.state matches PrefillState::Active(inner)
            &&& peeks_for(query, inner, request)
        },
{
}

/// A reply leads to the worker that it names, under the endpoint that was asked, and to nothing if
/// it names none.
pub proof fn law_replies<C>(
    endpoint_id: EndpointId,
    reply: WorkerReply<C>,
    answer: Result<(u64, u32), QueryError<C>>,
    lookup: Option<EndpointLookup>,
)
    requires
        call_ensures(query_answer::<C>, (reply,), answer),
        call_ensures(EndpointLookup::of_reply::<C>, (endpoint_id, reply), lookup),
    ensures
        match reply {
            WorkerReply::BestMatch(Ok(found)) => answer matches Ok(named) && named == found,
            WorkerReply::NextWorker(Some(worker_id)) => answer matches Ok((named, rank)) && named
                == worker_id && rank == 0,
            WorkerReply::BestMatch(Err(cause)) => answer matches Err(QueryError::BestMatch(kept))
                && kept == cause,
            WorkerReply::NextWorker(None) => answer matches Err(QueryError::NoWorkers),
        },
        answer is Err ==> lookup is None,
        answer matches Ok((worker_id, dp_rank)) ==> (lookup matches Some(next) && next.endpoint_id
            == endpoint_id && next.worker_id == worker_id && next.dp_rank == dp_rank),
{
}

/// `resolved` is the worker of the lookup, to be met in this room where it publishes a host and a
/// port, and nothing where it does not publish both.
pub open spec fn met_in(
    resolved: Option<(u64, u32, BootstrapInfo)>,
    lookup: EndpointLookup,
    found: Option<DisaggregatedEndpoint>,
    room: u64,
) -> bool {
    match found {
        Some(
            DisaggregatedEndpoint { bootstrap_host: Some(host), bootstrap_port: Some(port) },
        ) => {
            &&& resolved matches Some((worker_id, dp_rank, info))
            &&& worker_id == lookup.worker_id
            &&& dp_rank == lookup.dp_rank
            &&& info.bootstrap_host == host
            &&& info.bootstrap_port == port
            &&& info.bootstrap_room == room
        },
        _ => resolved is None,
    }
}

/// A worker is met in the room that was asked for.
pub proof fn law_bootstrap_in_room(
    lookup: EndpointLookup,
    found: Option<DisaggregatedEndpoint>,
    room: u64,
    resolved: Option<(u64, u32, BootstrapInfo)>,
)
    requires
        call_ensures(EndpointLookup::bootstrap_in_room, (lookup, found, room), resolved),
    ensures
        met_in(resolved, lookup, found, room),
{
}

/// A worker is met in some room whose number a signed 64-bit integer holds too.
pub proof fn law_room_is_drawn(
    lookup: EndpointLookup,
    found: Option<DisaggregatedEndpoint>,
    resolved: Option<(u64, u32, BootstrapInfo)>,
)
    requires
        call_ensures(EndpointLookup::resolve, (lookup, found), resolved),
    ensures
        exists|room: u64| room <= i64::MAX && #[trigger] met_in(resolved, lookup, found, room),
{
    let room = choose|room: u64|
        room <= LAST_ROOM && resolved == #[trigger] lookup.bootstrap(
            found,
            room,
        );
    assert(met_in(resolved, lookup, found, room));
}

/// A set decodes exactly if it has a chat or a completions engine, or both, and stands for prefill
/// workers exactly if it has no engine of any kind.
pub proof fn law_kinds_of_sets<T: PipelineTypes>(set: WorkerSet<T>, decodes: bool, prefills: bool)
    requires
        call_ensures(WorkerSet::<T>::has_decode_engine, (&set,), decodes),
        call_ensures(WorkerSet::<T>::is_prefill_set, (&set,), prefills),
    ensures
        set.chat_engine is Some ==> decodes && !prefills,
        set.completions_engine is Some ==> decodes && !prefills,
        set.chat_engine is None && set.completions_engine is None ==> !decodes,
        set.embeddings_engine is Some ==> !prefills,
        set.images_engine is Some ==> !prefills,
        set.videos_engine is Some ==> !prefills,
        set.tensor_engine is Some ==> !prefills,
        set.chat_engine is None && set.completions_engine is None && set.embeddings_engine is None
            && set.images_engine is None && set.videos_engine is None && set.tensor_engine is None
            ==> prefills,
{
}

/// A set says of each engine whether it has it, whatever its other engines are.
pub proof fn law_engines_of_sets<T: PipelineTypes>(
    set: WorkerSet<T>,
    chat: bool,
    completions: bool,
    embeddings: bool,
    images: bool,
    videos: bool,
    tensor: bool,
)
    requires
        call_ensures(WorkerSet::<T>::has_chat_engine, (&set,), chat),
        call_ensures(WorkerSet::<T>::has_completions_engine, (&set,), completions),
        call_ensures(WorkerSet::<T>::has_embeddings_engine, (&set,), embeddings),
        call_ensures(WorkerSet::<T>::has_images_engine, (&set,), images),
        call_ensures(WorkerSet::<T>::has_videos_engine, (&set,), videos),
        call_ensures(WorkerSet::<T>::has_tensor_engine, (&set,), tensor),
    ensures
        chat <==> set.chat_engine is Some,
        completions <==> set.completions_engine is Some,
        embeddings <==> set.embeddings_engine is Some,
        images <==> set.images_engine is Some,
        videos <==> set.videos_engine is Some,
        tensor <==> set.tensor_engine is Some,
{
}

/// A set stops serving exactly when its prefill router lost its prefill workers while
/// disaggregation is enforced. Its engines play no part.
pub proof fn law_sets_that_serve<T: PipelineTypes>(set: WorkerSet<T>, can_serve: bool)
    requires
        call_ensures(WorkerSet::<T>::can_serve_requests, (&set,), can_serve),
    ensures
        !can_serve <==> {
            &&& set.prefill_router matches Some(router)
            &&& router@.state is Deactivated
            &&& router@.enforce_disagg
        },
{
}

/// What serves a set serves a pipeline that shares its router.
pub proof fn law_can_serve_with<T: RouterTypes>(router: Option<&PrefillRouter<T>>, can_serve: bool)
    requires
        call_ensures(can_serve_with::<T>, (router,), can_serve),
    ensures
        !can_serve <==> {
            &&& router matches Some(shared)
            &&& shared@.state is Deactivated
            &&& shared@.enforce_disagg
        },
{
}

/// Every listed instance counts as a worker; a model with nothing to watch is one.
pub proof fn law_workers_are_counted<T: PipelineTypes>(
    set: WorkerSet<T>,
    instances: Option<&Vec<u64>>,
    counted: usize,
    workers: usize,
)
    requires
        call_ensures(count_workers, (instances,), counted),
        call_ensures(WorkerSet::<T>::worker_count, (&set,), workers),
    ensures
        instances matches Some(listed) ==> counted == listed@.len(),
        instances is None ==> counted == 1,
        set.instance_count_rx is None ==> workers == 1,
        set.instance_count_rx matches Some(watcher) ==> exists|listed: Seq<u64>| #[trigger]
            lists_held(watcher).contains(listed) && workers == listed.len(),
{
}

/// A set is made without engines, routers or watcher, keeps its names and its card, and names the
/// parsers of its card.
pub proof fn law_new_set<T: PipelineTypes>(
    namespace: String,
    mdcsum: String,
    card: ModelDeploymentCard,
    set: WorkerSet<T>,
    prefills: bool,
    can_serve: bool,
    workers: usize,
    its_namespace: &str,
    its_mdcsum: &str,
    options: ParsingOptions,
)
    requires
        call_ensures(WorkerSet::<T>::new, (namespace, mdcsum, card), set),
        call_ensures(WorkerSet::<T>::is_prefill_set, (&set,), prefills),
        call_ensures(WorkerSet::<T>::can_serve_requests, (&set,), can_serve),
        call_ensures(WorkerSet::<T>::worker_count, (&set,), workers),
        call_ensures(WorkerSet::<T>::namespace, (&set,), its_namespace),
        call_ensures(WorkerSet::<T>::mdcsum, (&set,), its_mdcsum),
        call_ensures(WorkerSet::<T>::parsing_options, (&set,), options),
    ensures
        prefills,
        can_serve,
        workers == 1,
        its_namespace@ == namespace@,
        its_mdcsum@ == mdcsum@,
        options.tool_call_parser == card.runtime_config.tool_call_parser,
        options.reasoning_parser == card.runtime_config.reasoning_parser,
{
}

/// What a router says of itself follows from its state, and whether it can serve from its state and
/// its enforcement.
pub proof fn law_what_a_router_says<D: RouterTypes>(
    router: PrefillRouter<D>,
    can_serve: bool,
    active: bool,
    ever: bool,
    current: Option<InnerPrefillRouter<D>>,
    advance: Option<Arc<D::PushRouter>>,
    endpoint_id: Option<EndpointId>,
)
    requires
        call_ensures(PrefillRouter::<D>::can_serve_requests, (&router,), can_serve),
        call_ensures(PrefillRouter::<D>::is_activated, (&router,), active),
        call_ensures(PrefillRouter::<D>::was_ever_activated, (&router,), ever),
        call_ensures(PrefillRouter::<D>::current_router, (&router,), current),
        call_ensures(PrefillRouter::<D>::router_to_advance, (&router,), advance),
        call_ensures(PrefillRouter::<D>::current_endpoint_id, (&router,), endpoint_id),
    ensures
        endpoint_id == router@.endpoint_id,
        match router@.state {
            PrefillState::Passthrough | PrefillState::AwaitingPrefill => {
                &&& can_serve && !active && !ever
                &&& current is None && advance is None
            },
            PrefillState::Active(inner) => {
                &&& can_serve && active && ever
                &&& current == Some(inner)
                &&& inner is KvRouter <==> router@.router_mode == RouterMode::KV
                &&& match inner {
                    InnerPrefillRouter::SimpleRouter(push) => advance == Some(push),
                    InnerPrefillRouter::KvRouter(_) => advance is None,
                }
            },
            PrefillState::Deactivated => {
                &&& can_serve == !router@.enforce_disagg
                &&& !active && ever
                &&& current is None && advance is None
            },
        },
{
}

/// A disabled router serves every request in aggregated mode, whether or not disaggregation is
/// enforced, and was never active.
pub proof fn law_disabled_router<D: RouterTypes>(
    router_mode: RouterMode,
    enforce_disagg: bool,
    router: PrefillRouter<D>,
    request: PreprocessedRequest<D>,
    start: GenerateStart<D>,
    can_serve: bool,
    ever: bool,
)
    requires
        call_ensures(PrefillRouter::<D>::disabled, (router_mode, enforce_disagg), router),
        call_ensures(PrefillRouter::<D>::generate, (&router, request), start),
        call_ensures(PrefillRouter::<D>::can_serve_requests, (&router,), can_serve),
        call_ensures(PrefillRouter::<D>::was_ever_activated, (&router,), ever),
    ensures
        start matches GenerateStart::Aggregated(forwarded) && forwarded == request,
        can_serve,
        !ever,
{
}

/// A new router waits for its prefill workers. Until they appear its requests fall back to
/// aggregated serving, or fail if that is not allowed; it counts as able to serve and as never
/// active.
pub proof fn law_new_router<D: RouterTypes>(
    router_mode: RouterMode,
    kv_cache_block_size: u32,
    kv_router_config: Option<D::KvRouterConfig>,
    enforce_disagg: bool,
    model_name: String,
    namespace: String,
    router: PrefillRouter<D>,
    request: PreprocessedRequest<D>,
    start: GenerateStart<D>,
    can_serve: bool,
    ever: bool,
    waiting: bool,
)
    requires
        call_ensures(
            PrefillRouter::<D>::new,
            (
                router_mode,
                kv_cache_block_size,
                kv_router_config,
                enforce_disagg,
                model_name,
                namespace,
            ),
            router,
        ),
        call_ensures(PrefillRouter::<D>::generate, (&router, request), start),
        call_ensures(PrefillRouter::<D>::can_serve_requests, (&router,), can_serve),
        call_ensures(PrefillRouter::<D>::was_ever_activated, (&router,), ever),
        call_ensures(PrefillRouter::<D>::awaits_endpoint, (&router,), waiting),
    ensures
        enforce_disagg ==> (start matches GenerateStart::Rejected(error) && error is NotActivated),
        !enforce_disagg ==> (start matches GenerateStart::Aggregated(forwarded) && forwarded
            == request),
        can_serve,
        !ever,
        waiting,
        router@.router_mode == router_mode,
        router@.model_name == model_name@,
        router@.namespace == namespace@,
        router@.activation matches Activation::Waiting(settings) && {
            &&& settings.kv_cache_block_size == kv_cache_block_size
            &&& kv_router_config is None ==> settings.kv_router_config is None
            &&& kv_router_config matches Some(config) ==> (settings.kv_router_config matches Some(
                shared,
            ) && *shared == config)
        },
{
}

/// The two routers differ in nothing that never changes.
pub open spec fn same_settings<D: RouterTypes>(before: PrefillRouter<D>, later: PrefillRouter<D>) -> bool {
    &&& later@.router_mode == before@.router_mode
    &&& later@.enforce_disagg == before@.enforce_disagg
    &&& later@.model_name == before@.model_name
    &&& later@.namespace == before@.namespace
}

/// Deactivating forgets the endpoint and leaves the activation alone. Only a router that is or was
/// active is deactivated by it.
pub proof fn law_deactivate<D: RouterTypes>(router: &mut PrefillRouter<D>)
    requires
        call_ensures(PrefillRouter::<D>::deactivate, (router,), ()),
    ensures
        same_settings(*old(router), *final(router)),
        final(router)@.endpoint_id is None,
        final(router)@.activation == old(router)@.activation,
        match old(router)@.state {
            PrefillState::Active(_) | PrefillState::Deactivated => {
                final(router)@.state is Deactivated
            },
            PrefillState::Passthrough => final(router)@.state is Passthrough,
            PrefillState::AwaitingPrefill => final(router)@.state is AwaitingPrefill,
        },
{
}

/// An endpoint is recorded and handed on to be watched; without one the router gives up. The state
/// of the router stays.
pub proof fn law_receive<D: RouterTypes>(
    router: &mut PrefillRouter<D>,
    signal: ActivationSignal,
    watch: Option<EndpointId>,
)
    requires
        call_ensures(PrefillRouter::<D>::receive, (router, signal), watch),
        old(router)@.activation is Waiting,
    ensures
        same_settings(*old(router), *final(router)),
        final(router)@.state == old(router)@.state,
        signal matches ActivationSignal::Endpoint(endpoint_id) ==> {
            &&& watch == Some(endpoint_id)
            &&& final(router)@.endpoint_id == Some(endpoint_id)
            &&& old(router)@.activation matches Activation::Waiting(settings)
            &&& final(router)@.activation == Activation::Watching(settings)
        },
        !(signal is Endpoint) ==> {
            &&& watch is None
            &&& final(router)@.endpoint_id == old(router)@.endpoint_id
            &&& final(router)@.activation is Over
        },
{
}

/// There is a plan exactly if the runtime configuration is watched; otherwise the activation is
/// over, with the error. Neither makes the router active.
pub proof fn law_watched<D: RouterTypes>(
    router: &mut PrefillRouter<D>,
    outcome: Result<(), D::Cause>,
    plan: Result<RouterPlan<D>, D::Cause>,
)
    requires
        call_ensures(PrefillRouter::<D>::watched, (router, outcome), plan),
        old(router)@.activation is Watching,
    ensures
        same_settings(*old(router), *final(router)),
        final(router)@.state == old(router)@.state,
        final(router)@.endpoint_id == old(router)@.endpoint_id,
        outcome is Ok ==> {
            &&& plan is Ok
            &&& final(router)@.activation is Building
            &&& plan->Ok_0 is KvRouter <==> old(router)@.router_mode == RouterMode::KV
        },
        outcome matches Err(cause) ==> {
            &&& plan matches Err(kept)
            &&& kept == cause
            &&& final(router)@.activation is Over
        },
{
}

/// The inner router that was built makes the router active; an error does not, and is handed back.
/// Either way there is no further attempt.
pub proof fn law_activate<D: RouterTypes>(
    router: &mut PrefillRouter<D>,
    built: Result<BuiltRouter<D>, D::Cause>,
    done: Result<(), D::Cause>,
)
    requires
        call_ensures(PrefillRouter::<D>::activate, (router, built), done),
    ensures
        same_settings(*old(router), *final(router)),
        final(router)@.endpoint_id == old(router)@.endpoint_id,
        final(router)@.activation is Over,
        built matches Ok(inner) ==> {
            &&& done is Ok
            &&& final(router)@.state == PrefillState::Active(inner.inner())
        },
        built matches Err(cause) ==> {
            &&& done matches Err(kept)
            &&& kept == cause
            &&& final(router)@.state == old(router)@.state
        },
{
}

/// The push router is made around the client that was registered, which happens under the names of
/// the router and in its mode.
pub open spec fn registers<D: RouterTypes>(
    router: PrefillRouter<D>,
    client: Arc<D::Client>,
    step: RegisterStep<D>,
    registration: Registration<D>,
    push: PushStep<D>,
    settings: (Arc<D::Client>, RouterMode),
) -> bool {
    call_ensures(RegisterStep::<D>::register, (step,), (registration, push)) && call_ensures(
        PushStep::<D>::push_settings,
        (&push,),
        settings,
    ) ==> {
        &&& registration.model_name@ == router@.model_name
        &&& registration.namespace@ == router@.namespace
        &&& registration.client == client
        &&& settings.0 == client
        &&& settings.1 == router@.router_mode
    }
}

/// A simple inner router is built for the router that asked for it: its client is registered under
/// the router's names before a push router is made around the same client, in the router's mode,
/// and that push router is the inner router. A failed step ends the build with its error.
pub proof fn law_simple_build<D: RouterTypes>(
    router: &mut PrefillRouter<D>,
    start: ClientStep,
    client: Result<Arc<D::Client>, D::Cause>,
    connected: Result<RegisterStep<D>, D::Cause>,
    registration: Registration<D>,
    push: PushStep<D>,
    settings: (Arc<D::Client>, RouterMode),
    push_router: Result<D::PushRouter, D::Cause>,
    pushed: Result<Pushed<D>, D::Cause>,
)
    requires
        call_ensures(
            PrefillRouter::<D>::watched,
            (router, Ok(())),
            Ok(RouterPlan::SimpleRouter(start)),
        ),
        old(router)@.activation is Watching,
        call_ensures(ClientStep::made::<D>, (start, client), connected),
        connected matches Ok(step) ==> {
            &&& call_ensures(RegisterStep::<D>::register, (step,), (registration, push))
            &&& call_ensures(PushStep::<D>::push_settings, (&push,), settings)
            &&& call_ensures(PushStep::<D>::made, (push, push_router), pushed)
        },
    ensures
        old(router)@.router_mode != RouterMode::KV,
        client matches Err(cause) ==> (connected matches Err(kept) && kept == cause),
        client matches Ok(reached) ==> {
            &&& connected matches Ok(step)
            &&& registers(*old(router), reached, step, registration, push, settings)
            &&& push_router matches Err(cause) ==> (pushed matches Err(kept) && kept == cause)
            &&& push_router matches Ok(made) ==> {
                &&& pushed matches Ok(Pushed::Built(built))
                &&& built.target() == old(router)@.target()
                &&& built.inner() matches InnerPrefillRouter::SimpleRouter(inner)
                &&& *inner == made
            }
        },
{
}

/// A KV-aware inner router is built for the router that asked for it: its chooser is made with the
/// router's settings, the chooser's client is registered under the router's names before a push
/// router is made around the same client, and the push router is wrapped together with the same
/// chooser. A failed step ends the build with its error.
pub proof fn law_kv_build<D: RouterTypes>(
    router: &mut PrefillRouter<D>,
    start: ChooserStep<D>,
    chooser_settings: ChooserSettings<D>,
    chooser: Result<D::KvChooser, D::Cause>,
    chosen: Result<ChooserClientStep<D>, D::Cause>,
    asked: &D::KvChooser,
    client: Arc<D::Client>,
    connected: RegisterStep<D>,
    registration: Registration<D>,
    push: PushStep<D>,
    settings: (Arc<D::Client>, RouterMode),
    push_router: Result<D::PushRouter, D::Cause>,
    pushed: Result<Pushed<D>, D::Cause>,
)
    requires
        call_ensures(
            PrefillRouter::<D>::watched,
            (router, Ok(())),
            Ok(RouterPlan::KvRouter(start)),
        ),
        old(router)@.activation is Watching,
        call_ensures(ChooserStep::<D>::chooser_settings, (&start,), chooser_settings),
        call_ensures(ChooserStep::<D>::made, (start, chooser), chosen),
        chosen matches Ok(step) ==> {
            &&& call_ensures(ChooserClientStep::<D>::kv_chooser, (&step,), asked)
            &&& call_ensures(ChooserClientStep::<D>::taken, (step, client), connected)
            &&& call_ensures(RegisterStep::<D>::register, (connected,), (registration, push))
            &&& call_ensures(PushStep::<D>::push_settings, (&push,), settings)
            &&& call_ensures(PushStep::<D>::made, (push, push_router), pushed)
        },
    ensures
        old(router)@.router_mode == RouterMode::KV,
        old(router)@.activation matches Activation::Watching(held) && chooser_settings == held,
        chooser matches Err(cause) ==> (chosen matches Err(kept) && kept == cause),
        chooser matches Ok(used) ==> {
            &&& chosen is Ok
            &&& *asked == used
            &&& registers(*old(router), client, connected, registration, push, settings)
            &&& push_router matches Err(cause) ==> (pushed matches Err(kept) && kept == cause)
            &&& push_router matches Ok(made) ==> {
                &&& pushed matches Ok(Pushed::Wrap { push_router: wrapped, chooser: around, pending })
                &&& wrapped == made
                &&& around == used
                &&& pending.target() == old(router)@.target()
            }
        },
{
}

/// A wrapped router is the KV-aware inner router of the prefill router that it was built for, and
/// an inner router is for the routers of its mode and names only.
pub proof fn law_wrapped<D: RouterTypes>(
    pending: WrapStep,
    kv_router: D::KvPushRouter,
    built: BuiltRouter<D>,
    router: PrefillRouter<D>,
    same: bool,
)
    requires
        call_ensures(WrapStep::wrapped::<D>, (pending, kv_router), built),
        call_ensures(BuiltRouter::<D>::is_for, (&built, &router), same),
    ensures
        built.inner() matches InnerPrefillRouter::KvRouter(inner) && *inner == kv_router,
        same <==> {
            &&& pending.target().router_mode == router@.router_mode
            &&& pending.target().model_name == router@.model_name
            &&& pending.target().namespace == router@.namespace
        },
{
}

/// The message of a failed request says what failed: its prefill, or its context with its id.
pub proof fn law_messages<C>(
    error: GenerateError<C>,
    shown: String,
    prefill_error: PrefillError<C>,
    prefill_shown: String,
    query_error: QueryError<C>,
    query_shown: Option<String>,
)
    requires
        call_ensures(GenerateError::<C>::message, (&error,), shown),
        call_ensures(PrefillError::<C>::message, (&prefill_error,), prefill_shown),
        call_ensures(QueryError::<C>::message, (&query_error,), query_shown),
    ensures
        match prefill_error {
            PrefillError::NotActivated => prefill_shown@ == "Prefill router not yet activated"@,
            PrefillError::PrefillError(what, _) => prefill_shown@ == "Prefill execution failed: "@
                + what@,
            PrefillError::NoDisaggregatedParams(what) => prefill_shown@
                == "No disaggregated params in prefill response: "@ + what@,
        },
        error matches GenerateError::Prefill(inner) && inner == prefill_error ==> shown@
            == prefill_shown@,
        error matches GenerateError::ContextEnded(id) ==> shown@ == "Context id "@ + id@
            + " is stopped or killed"@,
        query_error is NoWorkers ==> (query_shown matches Some(text) && text@
            == "No workers available for prefill"@),
        query_error is BestMatch ==> query_shown is None,
{
}

/// A request has an annotation exactly if it is anywhere among those that it carries, and only asks
/// for its workers exactly if `query_instance_id` is one. Its rank is the one that it names, or zero.
pub proof fn law_what_a_request_says<D: RouterTypes>(
    request: PreprocessedRequest<D>,
    name: String,
    carried: bool,
    query_only: bool,
    rank: u32,
)
    requires
        call_ensures(PreprocessedRequest::<D>::has_annotation, (&request, &name), carried),
        call_ensures(PreprocessedRequest::<D>::is_query_only, (&request,), query_only),
        call_ensures(PreprocessedRequest::<D>::rank_or_zero, (&request,), rank),
    ensures
        carried <==> exists|i: int|
            0 <= i < request.annotations@.len() && #[trigger] request.annotations@[i]@ == name@,
        query_only <==> asks_for_workers(request),
        rank == rank_of(request),
{
}

/// A router keeps what it was made with: its mode, its names, and whether disaggregation is
/// enforced. Of its activation it says at which stage it is.
pub proof fn law_what_a_router_keeps<D: RouterTypes>(
    router: PrefillRouter<D>,
    mode: RouterMode,
    enforced: bool,
    model_name: &str,
    namespace: &str,
    passthrough: bool,
    waiting: bool,
    watching: bool,
    building: bool,
)
    requires
        call_ensures(PrefillRouter::<D>::router_mode, (&router,), mode),
        call_ensures(PrefillRouter::<D>::enforce_disagg, (&router,), enforced),
        call_ensures(PrefillRouter::<D>::model_name, (&router,), model_name),
        call_ensures(PrefillRouter::<D>::namespace, (&router,), namespace),
        call_ensures(PrefillRouter::<D>::is_passthrough, (&router,), passthrough),
        call_ensures(PrefillRouter::<D>::awaits_endpoint, (&router,), waiting),
        call_ensures(PrefillRouter::<D>::awaits_watch, (&router,), watching),
        call_ensures(PrefillRouter::<D>::is_building, (&router,), building),
    ensures
        mode == router@.router_mode,
        enforced == router@.enforce_disagg,
        model_name@ == router@.model_name,
        namespace@ == router@.namespace,
        passthrough <==> router@.state is Passthrough,
        waiting <==> router@.activation is Waiting,
        watching <==> router@.activation is Watching,
        building <==> router@.activation is Building,
{
}

/// Only a simple inner router takes workers in turn.
pub proof fn law_select_next_worker<D: RouterTypes>(
    inner: InnerPrefillRouter<D>,
    router: Option<Arc<D::PushRouter>>,
)
    requires
        call_ensures(InnerPrefillRouter::<D>::select_next_worker, (&inner,), router),
    ensures
        inner is KvRouter <==> router is None,
        router matches Some(push) ==> inner == InnerPrefillRouter::<D>::SimpleRouter(push),
{
}

/// A watcher that is set is the one that is watched, and nothing else of the set changes.
pub proof fn law_set_instance_watcher<T: PipelineTypes>(
    set: &mut WorkerSet<T>,
    rx: watch::Receiver<Vec<u64>>,
)
    requires
        call_ensures(WorkerSet::<T>::set_instance_watcher, (set, rx), ()),
    ensures
        final(set).instance_count_rx == Some(rx),
        (WorkerSet { instance_count_rx: old(set).instance_count_rx, ..*final(set) }) == *old(set),
{
}

} // verus!
