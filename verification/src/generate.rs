//! The way of a request from arrival to the decode worker.
//!
//! A request is admitted by [`PrefillRouter::generate`]. Where the router is active, a request that
//! only asks for its workers is told them. Every other request passes through two phases, and each
//! value that stands for a phase is consumed by the step that ends it:
//!
//! 1. [`PrefillPhase`]: a tracker follows the request, its own or, through
//!    [`UntrackedRequest::follow`], one made for it. The tracker enters its prefill phase and hands
//!    out a permit. A prefill worker is resolved with [`PrefillRouter::resolve_prefill_worker`],
//!    and [`PrefillPhase::launch`] says how the prefill is run.
//! 2. [`DecodePhase`]: the prefill was left to run in the background, or has come to an answer
//!    through [`PendingPrefill::complete`]. [`DecodePhase::enter`] says whether the request goes
//!    on. The tracker then enters its decode phase, and the permit that it hands out is what
//!    [`EnteringDecode::entered`] takes before it gives out the request that goes to decode.

use crate::error::{text, PrefillError};
use crate::execution::{begin_prefill, Dispatch};
use crate::prefill_router::{PrefillRouter, PrefillState, RouterView};
use crate::protocols::{
    BootstrapInfo, DisaggregatedEndpoint, PrefillResult, PreprocessedRequest,
    RouterConfigOverride, RouterTypes, RoutingHints, StopConditions, ZERO_BITS,
};
use crate::worker_query::{
    query_answer, replied_worker, QueryError, ResolveStep, WorkerQuery, WorkerReply,
};
use std::sync::Arc;
use vstd::prelude::*;

verus! {

/// What becomes of a request on arrival.
pub enum Admission {
    /// It fails: disaggregation is enforced and no prefill workers are there.
    Reject,
    /// It goes to decode as it is.
    PassThrough,
    /// It is told its workers, and is not executed.
    Query,
    /// It goes through prefill and decode.
    Prefill,
}

impl<D: RouterTypes> RouterView<D> {
    /// What becomes of a request that arrives now, and that only asks for its workers if
    /// `query_only`.
    pub open spec fn admission(self, query_only: bool) -> Admission {
        if self.is_activated() {
            if query_only {
                Admission::Query
            } else {
                Admission::Prefill
            }
        } else if self.enforce_disagg && !(self.state is Passthrough) {
            Admission::Reject
        } else {
            Admission::PassThrough
        }
    }

    /// How the workers of `request` are found, while active: a prefill worker that the request
    /// names is taken as it is, and otherwise the router is asked for one.
    pub open spec fn ids_step(self, request: PreprocessedRequest<D>) -> Option<IdsStep<D>> {
        match self.current_router() {
            Some(router) => Some(
                match request.hints().prefill_worker_id {
                    Some(prefill_worker_id) => IdsStep::Known(
                        WorkerIds {
                            prefill_worker_id,
                            prefill_dp_rank: request.named_rank(),
                            decode_worker_id: request.hints().decode_worker_id,
                        },
                    ),
                    None => IdsStep::Ask(
                        PendingIds { decode_worker_id: request.hints().decode_worker_id },
                        router.peek_for(request),
                    ),
                },
            ),
            None => None,
        }
    }
}

/// The workers that a request would go to.
#[derive(Debug, PartialEq, Eq)]
pub struct WorkerIds {
    pub prefill_worker_id: u64,
    pub prefill_dp_rank: u32,
    /// The decode worker, where the request names one.
    pub decode_worker_id: Option<u64>,
}

/// The workers that a request would go to, but for its prefill worker.
pub struct PendingIds {
    pub decode_worker_id: Option<u64>,
}

/// How the workers of a request are found.
pub enum IdsStep<D: RouterTypes> {
    /// They are these.
    Known(WorkerIds),
    /// The answer to this question names the prefill worker.
    Ask(PendingIds, WorkerQuery<D>),
}

impl PendingIds {
    /// The workers, once the reply names the prefill worker.
    pub open spec fn with_reply<C>(self, reply: WorkerReply<C>) -> Result<
        WorkerIds,
        QueryError<C>,
    > {
        match replied_worker(reply) {
            Ok((prefill_worker_id, prefill_dp_rank)) => Ok(
                WorkerIds {
                    prefill_worker_id,
                    prefill_dp_rank,
                    decode_worker_id: self.decode_worker_id,
                },
            ),
            Err(error) => Err(error),
        }
    }

    /// Takes the reply that names the prefill worker.
    pub fn answer<C>(self, reply: WorkerReply<C>) -> (ids: Result<WorkerIds, QueryError<C>>)
        ensures
            ids == self.with_reply(reply),
    {
        match query_answer(reply) {
            Ok((prefill_worker_id, prefill_dp_rank)) => Ok(
                WorkerIds {
                    prefill_worker_id,
                    prefill_dp_rank,
                    decode_worker_id: self.decode_worker_id,
                },
            ),
            Err(error) => Err(error),
        }
    }
}

/// How a prefill ended, or where it will be met.
pub enum PrefillOutcome {
    /// The prefill runs in the background and is met here.
    Bootstrap(BootstrapInfo),
    /// The prefill is over, with this result.
    Completed(PrefillResult),
}

/// `request`, followed by `tracker`.
pub open spec fn with_tracker<D: RouterTypes>(
    request: PreprocessedRequest<D>,
    tracker: Arc<D::Tracker>,
) -> PreprocessedRequest<D> {
    PreprocessedRequest { tracker: Some(tracker), ..request }
}

/// The request that a prefill worker gets for `request`: one token is generated.
pub open spec fn prefill_request<D: RouterTypes>(
    request: PreprocessedRequest<D>,
) -> PreprocessedRequest<D> {
    PreprocessedRequest {
        stop_conditions: StopConditions { max_tokens: Some(1) },
        ..request
    }
}

/// The request that a prefill worker gets where it is known upfront: it also names the worker,
/// its rank and the place where the decode worker waits.
pub open spec fn bootstrap_request<D: RouterTypes>(
    request: PreprocessedRequest<D>,
    worker_id: u64,
    dp_rank: u32,
    bootstrap_info: BootstrapInfo,
) -> PreprocessedRequest<D> {
    PreprocessedRequest {
        routing: Some(
            RoutingHints {
                prefill_worker_id: Some(worker_id),
                dp_rank: Some(dp_rank),
                ..request.hints()
            },
        ),
        bootstrap_info: Some(bootstrap_info),
        ..prefill_request(request)
    }
}

/// The settings under which a request is routed to decode: blocks in a decode worker's cache
/// neither attract it nor count as reused, and every other setting stays.
pub open spec fn decode_settings(existing: Option<RouterConfigOverride>) -> RouterConfigOverride {
    RouterConfigOverride {
        overlap_score_weight_bits: Some(ZERO_BITS),
        assume_kv_reuse: Some(false),
        ..match existing {
            Some(settings) => settings,
            None => RouterConfigOverride::nothing(),
        }
    }
}

/// The request that the decode worker gets for `request` once its prefill has come to `outcome`.
pub open spec fn decode_request<D: RouterTypes>(
    request: PreprocessedRequest<D>,
    outcome: PrefillOutcome,
) -> PreprocessedRequest<D> {
    PreprocessedRequest {
        bootstrap_info: match outcome {
            PrefillOutcome::Bootstrap(info) => Some(info),
            PrefillOutcome::Completed(_) => request.bootstrap_info,
        },
        prefill_result: match outcome {
            PrefillOutcome::Bootstrap(_) => request.prefill_result,
            PrefillOutcome::Completed(result) => Some(result),
        },
        router_config_override: Some(decode_settings(request.router_config_override)),
        ..request
    }
}

/// Why a request fails.
#[derive(Debug, PartialEq, Eq)]
pub enum GenerateError<C> {
    /// Its prefill failed.
    Prefill(PrefillError<C>),
    /// The context with this id was stopped or killed during prefill.
    ContextEnded(String),
}

impl<C> GenerateError<C> {
    /// The text shown to a user.
    pub open spec fn text(self) -> Seq<char> {
        match self {
            GenerateError::Prefill(error) => error@.text(),
            GenerateError::ContextEnded(id) => "Context id "@ + id@ + " is stopped or killed"@,
        }
    }

    /// The text shown to a user.
    pub fn message(&self) -> (shown: String)
        ensures
            shown@ == self.text(),
    {
        match self {
            GenerateError::Prefill(error) => error.message(),
            GenerateError::ContextEnded(id) => {
                text("Context id ").concat(id.as_str()).concat(" is stopped or killed")
            },
        }
    }
}

/// What is done with a request on arrival.
pub enum GenerateStart<D: RouterTypes> {
    /// Fail it with this error.
    Rejected(PrefillError<D::Cause>),
    /// Send it to decode.
    Aggregated(PreprocessedRequest<D>),
    /// Hand its workers back.
    WorkerIds(WorkerIds),
    /// Put this question, and hand its workers back with the reply.
    Query(PendingIds, WorkerQuery<D>),
    /// Make a tracker for it, and take it through prefill.
    Untracked(UntrackedRequest<D>),
    /// Take it through prefill.
    Disaggregated(PrefillPhase<D>),
}

/// A request that is to be taken through prefill, and that nothing follows yet.
pub struct UntrackedRequest<D: RouterTypes> {
    request: PreprocessedRequest<D>,
}

/// A request in its prefill phase.
pub struct PrefillPhase<D: RouterTypes> {
    request: PreprocessedRequest<D>,
}

/// A request whose prefill is being waited for.
pub struct PendingPrefill<D: RouterTypes> {
    request: PreprocessedRequest<D>,
}

/// How a prefill is run.
pub enum PrefillLaunch<D: RouterTypes> {
    /// In the background, on the worker that was resolved for it. The permit of the prefill phase
    /// goes along and is held until the first output is read.
    Background {
        /// The simple router that has to move on now, since its worker was only peeked at.
        advance: Option<Arc<D::PushRouter>>,
        request: PreprocessedRequest<D>,
        dispatch: Result<Dispatch<D>, PrefillError<D::Cause>>,
        phase_permit: D::PhasePermit,
        decode: DecodePhase<D>,
    },
    /// While the request waits for it. The permit of the prefill phase is gone.
    Synchronous {
        request: PreprocessedRequest<D>,
        dispatch: Result<Dispatch<D>, PrefillError<D::Cause>>,
        pending: PendingPrefill<D>,
    },
}

/// A request whose prefill phase is over.
pub struct DecodePhase<D: RouterTypes> {
    request: PreprocessedRequest<D>,
    outcome: Result<PrefillOutcome, PrefillError<D::Cause>>,
}

/// A request that goes to decode once its tracker has entered the decode phase.
pub struct EnteringDecode<D: RouterTypes> {
    request: PreprocessedRequest<D>,
}

impl<D: RouterTypes> PrefillRouter<D> {
    /// Admits a request.
    pub fn generate(&self, request: PreprocessedRequest<D>) -> (start: GenerateStart<D>)
        ensures
            match self@.admission(request.query_only()) {
                Admission::Reject => start == GenerateStart::<D>::Rejected(
                    PrefillError::NotActivated,
                ),
                Admission::PassThrough => start == GenerateStart::Aggregated(request),
                Admission::Query => match self@.ids_step(request) {
                    Some(IdsStep::Known(ids)) => start == GenerateStart::<D>::WorkerIds(ids),
                    Some(IdsStep::Ask(ids, query)) => start == GenerateStart::Query(ids, query),
                    None => false,
                },
                Admission::Prefill => match request.tracker {
                    Some(_) => {
                        &&& start matches GenerateStart::Disaggregated(phase)
                        &&& phase.request() == request
                    },
                    None => {
                        &&& start matches GenerateStart::Untracked(untracked)
                        &&& untracked.request() == request
                    },
                },
            },
    {
        if !self.is_activated() {
            if self.enforce_disagg() && !self.is_passthrough() {
                return GenerateStart::Rejected(PrefillError::NotActivated);
            }
            return GenerateStart::Aggregated(request);
        }
        if request.is_query_only() {
            return self.find_workers(&request);
        }
        if request.tracker.is_some() {
            GenerateStart::Disaggregated(PrefillPhase { request })
        } else {
            GenerateStart::Untracked(UntrackedRequest { request })
        }
    }

    /// Finds the workers of a request that is not to be executed.
    fn find_workers(&self, request: &PreprocessedRequest<D>) -> (start: GenerateStart<D>)
        ensures
            match self@.ids_step(*request) {
                Some(IdsStep::Known(ids)) => start == GenerateStart::<D>::WorkerIds(ids),
                Some(IdsStep::Ask(ids, query)) => start == GenerateStart::Query(ids, query),
                None => start == GenerateStart::<D>::Rejected(PrefillError::NotActivated),
            },
    {
        let (preselected_worker, decode_worker_id) = match &request.routing {
            Some(hints) => (hints.prefill_worker_id, hints.decode_worker_id),
            None => (None, None),
        };
        let query = match self.peek_prefill_worker(request) {
            Ok(query) => query,
            Err(error) => {
                return GenerateStart::Rejected(error);
            },
        };
        match preselected_worker {
            Some(prefill_worker_id) => {
                let prefill_dp_rank: u32 = request.rank_or_zero();
                GenerateStart::WorkerIds(
                    WorkerIds { prefill_worker_id, prefill_dp_rank, decode_worker_id },
                )
            },
            None => GenerateStart::Query(PendingIds { decode_worker_id }, query),
        }
    }
}

impl<D: RouterTypes> UntrackedRequest<D> {
    /// The request as it arrived.
    pub closed spec fn request(self) -> PreprocessedRequest<D> {
        self.request
    }

    /// Lets `tracker` follow the request.
    pub fn follow(self, tracker: Arc<D::Tracker>) -> (phase: PrefillPhase<D>)
        ensures
            phase.request() == with_tracker(self.request(), tracker),
    {
        PrefillPhase {
            request: PreprocessedRequest { tracker: Some(tracker), ..self.request },
        }
    }
}

impl<D: RouterTypes> PrefillPhase<D> {
    /// The request, with the tracker that follows it.
    pub closed spec fn request(self) -> PreprocessedRequest<D> {
        self.request
    }

    #[verifier::type_invariant]
    spec fn is_followed(self) -> bool {
        self.request.tracker is Some
    }

    /// The tracker that follows the request.
    pub fn tracker(&self) -> (tracker: Arc<D::Tracker>)
        ensures
            self.request().tracker == Some(tracker),
    {
        proof {
            use_type_invariant(self);
        }
        match &self.request.tracker {
            Some(tracker) => tracker.clone(),
            None => vstd::pervasive::unreached(),
        }
    }

    /// The request that a prefill worker gets, as far as it is known before one is resolved.
    pub fn prefill_request(&self) -> (request: PreprocessedRequest<D>)
        ensures
            request == prefill_request(self.request()),
    {
        proof {
            use_type_invariant(self);
        }
        let mut request = self.request.clone();
        request.stop_conditions = StopConditions { max_tokens: Some(1) };
        request
    }

    /// The prefill worker that the request itself names.
    pub fn preselected_worker(&self) -> (worker_id: Option<u64>)
        ensures
            worker_id == self.request().hints().prefill_worker_id,
    {
        match &self.request.routing {
            Some(hints) => hints.prefill_worker_id,
            None => None,
        }
    }

    /// Says how the prefill is run on `router`. With a resolved worker it runs in the background
    /// on that worker, and the request can go on; otherwise the request waits for it, and it goes
    /// to the worker that the request names, if it names one.
    pub fn launch(
        self,
        router: &PrefillRouter<D>,
        resolved: Option<(u64, u32, BootstrapInfo)>,
        phase_permit: D::PhasePermit,
    ) -> (launch: PrefillLaunch<D>)
        ensures
            match resolved {
                Some((worker_id, dp_rank, info)) => {
                    &&& launch matches PrefillLaunch::Background {
                        advance,
                        request,
                        dispatch,
                        phase_permit: held,
                        decode,
                    }
                    &&& advance == router@.router_to_advance()
                    &&& request == bootstrap_request(self.request(), worker_id, dp_rank, info)
                    &&& dispatch == begin_prefill(router@.current_router(), Some(worker_id))
                    &&& held == phase_permit
                    &&& decode.request() == self.request()
                    &&& decode.outcome() == Ok::<PrefillOutcome, PrefillError<D::Cause>>(
                        PrefillOutcome::Bootstrap(info),
                    )
                },
                None => {
                    &&& launch matches PrefillLaunch::Synchronous { request, dispatch, pending }
                    &&& request == prefill_request(self.request())
                    &&& dispatch == begin_prefill(
                        router@.current_router(),
                        self.request().hints().prefill_worker_id,
                    )
                    &&& pending.request() == self.request()
                },
            },
    {
        proof {
            use_type_invariant(&self);
        }
        let preselected_worker = self.preselected_worker();
        let mut request = self.prefill_request();
        match resolved {
            Some((worker_id, dp_rank, info)) => {
                let advance = router.router_to_advance();
                let mut hints = match request.routing {
                    Some(hints) => hints,
                    None => RoutingHints::default(),
                };
                hints.prefill_worker_id = Some(worker_id);
                hints.dp_rank = Some(dp_rank);
                request.routing = Some(hints);
                request.bootstrap_info = Some(info.clone());
                PrefillLaunch::Background {
                    advance,
                    request,
                    dispatch: PrefillRouter::execute_prefill(
                        router.current_router(),
                        Some(worker_id),
                    ),
                    phase_permit,
                    decode: DecodePhase {
                        request: self.request,
                        outcome: Ok(PrefillOutcome::Bootstrap(info)),
                    },
                }
            },
            None => PrefillLaunch::Synchronous {
                request,
                dispatch: PrefillRouter::execute_prefill(
                    router.current_router(),
                    preselected_worker,
                ),
                pending: PendingPrefill { request: self.request },
            },
        }
    }
}

impl<D: RouterTypes> PendingPrefill<D> {
    /// The request, as it will go on.
    pub closed spec fn request(self) -> PreprocessedRequest<D> {
        self.request
    }

    #[verifier::type_invariant]
    spec fn is_followed(self) -> bool {
        self.request.tracker is Some
    }

    /// Takes the answer of the prefill. The worker that it names is of no further use.
    pub fn complete(
        self,
        answer: Result<(PrefillResult, Option<(u64, u32)>), PrefillError<D::Cause>>,
    ) -> (decode: DecodePhase<D>)
        ensures
            decode.request() == self.request(),
            decode.outcome() == match answer {
                Ok((result, _)) => Ok(PrefillOutcome::Completed(result)),
                Err(error) => Err(error),
            },
    {
        proof {
            use_type_invariant(&self);
        }
        let outcome = match answer {
            Ok((result, _)) => Ok(PrefillOutcome::Completed(result)),
            Err(error) => Err(error),
        };
        DecodePhase { request: self.request, outcome }
    }
}

impl<D: RouterTypes> DecodePhase<D> {
    /// The request, as it will go on.
    pub closed spec fn request(self) -> PreprocessedRequest<D> {
        self.request
    }

    /// What the prefill came to.
    pub closed spec fn outcome(self) -> Result<PrefillOutcome, PrefillError<D::Cause>> {
        self.outcome
    }

    #[verifier::type_invariant]
    spec fn is_followed(self) -> bool {
        self.request.tracker is Some
    }

    /// Whether the request goes to decode. A context that was stopped or killed ends here, whatever
    /// its prefill came to; otherwise a failed prefill fails the request.
    pub fn enter(self, stopped: bool, killed: bool, context_id: &str) -> (entering: Result<
        EnteringDecode<D>,
        GenerateError<D::Cause>,
    >)
        ensures
            if stopped || killed {
                &&& entering matches Err(GenerateError::ContextEnded(id))
                &&& id@ == context_id@
            } else {
                match self.outcome() {
                    Ok(outcome) => {
                        &&& entering matches Ok(decode)
                        &&& decode.request() == decode_request(self.request(), outcome)
                    },
                    Err(error) => entering == Err::<EnteringDecode<D>, GenerateError<D::Cause>>(
                        GenerateError::Prefill(error),
                    ),
                }
            },
    {
        proof {
            use_type_invariant(&self);
        }
        if stopped || killed {
            return Err(GenerateError::ContextEnded(text(context_id)));
        }
        match self.outcome {
            Ok(outcome) => {
                let mut request = self.request;
                match outcome {
                    PrefillOutcome::Bootstrap(info) => {
                        request.bootstrap_info = Some(info);
                    },
                    PrefillOutcome::Completed(result) => {
                        request.prefill_result = Some(result);
                    },
                }
                let existing = match request.router_config_override {
                    Some(settings) => settings,
                    None => RouterConfigOverride::default(),
                };
                request.router_config_override =
                Some(
                    RouterConfigOverride {
                        overlap_score_weight_bits: Some(ZERO_BITS),
                        assume_kv_reuse: Some(false),
                        ..existing
                    },
                );
                Ok(EnteringDecode { request })
            },
            Err(error) => Err(GenerateError::Prefill(error)),
        }
    }
}

impl<D: RouterTypes> EnteringDecode<D> {
    /// The request that goes to decode.
    pub closed spec fn request(self) -> PreprocessedRequest<D> {
        self.request
    }

    #[verifier::type_invariant]
    spec fn is_followed(self) -> bool {
        self.request.tracker is Some
    }

    /// The tracker that has to enter its decode phase.
    pub fn tracker(&self) -> (tracker: Arc<D::Tracker>)
        ensures
            self.request().tracker == Some(tracker),
    {
        proof {
            use_type_invariant(self);
        }
        match &self.request.tracker {
            Some(tracker) => tracker.clone(),
            None => vstd::pervasive::unreached(),
        }
    }

    /// The request that goes to decode, for the permit of the decode phase that its tracker handed
    /// out. The permit is not held any longer: nothing comes after the decode phase. What dropping
    /// it sets free is up to its type, and no clause speaks of it.
    pub fn entered(self, phase_permit: D::PhasePermit) -> (request: PreprocessedRequest<D>)
        ensures
            request == self.request(),
    {
        self.request
    }
}

/// The prefill and the decode worker of a request meet: both are told the same host, port and
/// room, and the prefill request names the worker and the rank that were resolved for it.
pub proof fn law_workers_meet<D: RouterTypes>(
    request: PreprocessedRequest<D>,
    worker_id: u64,
    dp_rank: u32,
    info: BootstrapInfo,
)
    ensures
        bootstrap_request(request, worker_id, dp_rank, info).bootstrap_info == Some(info),
        decode_request(request, PrefillOutcome::Bootstrap(info)).bootstrap_info == Some(info),
        bootstrap_request(request, worker_id, dp_rank, info).hints().prefill_worker_id == Some(
            worker_id,
        ),
        bootstrap_request(request, worker_id, dp_rank, info).hints().dp_rank == Some(dp_rank),
{
}

/// The result of a finished prefill reaches the decode worker as it is.
pub proof fn law_prefill_result_reaches_decode<D: RouterTypes>(
    request: PreprocessedRequest<D>,
    result: PrefillResult,
)
    ensures
        decode_request(request, PrefillOutcome::Completed(result)).prefill_result == Some(result),
{
}

/// The request that goes to decode is the request that entered its prefill phase, but for what the
/// prefill came to and the settings of its routing. In particular its tracker goes along, and its
/// token limit is the one it came with, although the prefill was run with a limit of one token.
pub proof fn law_decode_keeps_the_request<D: RouterTypes>(
    request: PreprocessedRequest<D>,
    outcome: PrefillOutcome,
)
    ensures
        prefill_request(request).stop_conditions.max_tokens == Some(1u32),
        ({
            let decoded = decode_request(request, outcome);
            &&& decoded.tracker == request.tracker
            &&& decoded.stop_conditions == request.stop_conditions
            &&& (PreprocessedRequest {
                bootstrap_info: request.bootstrap_info,
                prefill_result: request.prefill_result,
                router_config_override: request.router_config_override,
                ..decoded
            }) == request
        }),
{
}

/// A prefill worker gets the request of the prefill phase, but for the token limit and what names
/// the worker and its meeting place. In particular it is matched by the same tokens, and its
/// tracker goes along.
pub proof fn law_prefill_keeps_the_request<D: RouterTypes>(
    request: PreprocessedRequest<D>,
    worker_id: u64,
    dp_rank: u32,
    info: BootstrapInfo,
)
    ensures
        (PreprocessedRequest {
            stop_conditions: request.stop_conditions,
            ..prefill_request(request)
        }) == request,
        (PreprocessedRequest {
            routing: request.routing,
            bootstrap_info: request.bootstrap_info,
            ..bootstrap_request(request, worker_id, dp_rank, info)
        }) == prefill_request(request),
        prefill_request(request).tracker == request.tracker,
        bootstrap_request(request, worker_id, dp_rank, info).tracker == request.tracker,
        bootstrap_request(request, worker_id, dp_rank, info).hints() == (RoutingHints {
            prefill_worker_id: Some(worker_id),
            dp_rank: Some(dp_rank),
            ..request.hints()
        }),
{
}

/// A request that only asks for its workers is executed nowhere: on an active router it neither
/// goes to a prefill worker nor on to decode, and the question that finds its prefill worker
/// neither moves a router on nor books the request. A worker that it names is the one it is told.
pub proof fn law_query_only_executes_nothing<D: RouterTypes>(
    router: RouterView<D>,
    request: PreprocessedRequest<D>,
)
    requires
        router.is_activated(),
        request.query_only(),
    ensures
        router.admission(request.query_only()) is Query,
        match router.ids_step(request) {
            Some(IdsStep::Known(ids)) => request.hints().prefill_worker_id == Some(
                ids.prefill_worker_id,
            ),
            Some(IdsStep::Ask(_, query)) => {
                &&& request.hints().prefill_worker_id is None
                &&& match query {
                    WorkerQuery::FindBestMatch(question) => !question.update_states,
                    WorkerQuery::PeekNextWorker(_) => true,
                    WorkerQuery::SelectNextWorker(_) => false,
                }
            },
            None => false,
        },
{
}

/// Whatever settings a request brought, on its way to decode the overlap with cached blocks has
/// no weight and no block counts as reused; its other settings are as it brought them.
pub proof fn law_decode_ignores_cached_blocks<D: RouterTypes>(
    request: PreprocessedRequest<D>,
    outcome: PrefillOutcome,
)
    ensures
        ({
            let settings = decode_request(request, outcome).router_config_override;
            &&& settings matches Some(applied)
            &&& applied.overlap_score_weight_bits == Some(ZERO_BITS)
            &&& applied.assume_kv_reuse == Some(false)
            &&& applied.router_temperature_bits == match request.router_config_override {
                Some(brought) => brought.router_temperature_bits,
                None => None,
            }
        }),
{
}

/// A request that names its prefill worker keeps it. No router is asked for another; what is
/// resolved for it is that worker; and where nothing is resolved, a simple router sends it straight
/// there.
pub proof fn law_pre_routed_request_keeps_its_worker<D: RouterTypes>(
    router: RouterView<D>,
    request: PreprocessedRequest<D>,
    worker_id: u64,
    found: Option<DisaggregatedEndpoint>,
    room: u64,
)
    requires
        request.hints().prefill_worker_id == Some(worker_id),
    ensures
        match router.resolve(prefill_request(request), request.hints().prefill_worker_id) {
            ResolveStep::Query(_, _) => false,
            ResolveStep::Lookup(lookup) => lookup.bootstrap(found, room) matches Some(
                (resolved, _, _),
            ) ==> resolved == worker_id,
            ResolveStep::Unresolved => true,
        },
        router.router_to_advance() matches Some(simple) ==> begin_prefill(
            router.current_router(),
            request.hints().prefill_worker_id,
        ) == Ok::<Dispatch<D>, PrefillError<D::Cause>>(
            Dispatch::SimpleDirect { router: simple, worker_id },
        ),
{
}

/// A router that is not active takes no request to a prefill worker and tells none its workers,
/// whatever its mode and whatever the request. Without enforced disaggregation every request passes
/// through; with it every request is rejected, unless the router is a passthrough.
pub proof fn law_inactive_router_falls_back_or_rejects<D: RouterTypes>(
    router: RouterView<D>,
    query_only: bool,
)
    requires
        !(router.state is Active),
    ensures
        !router.enforce_disagg ==> router.admission(query_only) is PassThrough,
        router.state is Passthrough ==> router.admission(query_only) is PassThrough,
        router.enforce_disagg && !(router.state is Passthrough) ==> router.admission(
            query_only,
        ) is Reject,
{
}

/// An active router takes every request to prefill but those that only ask for their workers, which
/// are told them. It neither rejects one nor lets one pass, in no mode and under no setting.
pub proof fn law_active_router_takes_every_request<D: RouterTypes>(
    router: RouterView<D>,
    query_only: bool,
)
    requires
        router.state is Active,
    ensures
        !query_only ==> router.admission(query_only) is Prefill,
        query_only ==> router.admission(query_only) is Query,
{
}

/// A request that asks for its workers is told the prefill worker that it names, with the rank that
/// it names, and otherwise the one that the inner router gives for it. Either way it is told the
/// decode worker that it names, if it names one.
pub proof fn law_asked_workers_are_the_named_ones<D: RouterTypes>(
    router: RouterView<D>,
    request: PreprocessedRequest<D>,
)
    requires
        router.state is Active,
    ensures
        match router.ids_step(request) {
            Some(IdsStep::Known(ids)) => {
                &&& request.routing matches Some(brought)
                &&& brought.prefill_worker_id == Some(ids.prefill_worker_id)
                &&& ids.prefill_dp_rank == request.named_rank()
                &&& ids.decode_worker_id == brought.decode_worker_id
            },
            Some(IdsStep::Ask(pending, query)) => {
                &&& request.routing matches Some(brought) ==> {
                    &&& brought.prefill_worker_id is None
                    &&& pending.decode_worker_id == brought.decode_worker_id
                }
                &&& request.routing is None ==> pending.decode_worker_id is None
                &&& router.state matches PrefillState::Active(inner)
                &&& query == inner.peek_for(request)
            },
            None => false,
        },
{
}

/// The reply to such a question is the prefill worker that is told, with its rank, or the reason
/// why none is. The decode worker is the one that was named, whatever the reply.
pub proof fn law_told_workers_follow_the_reply<C>(
    pending: PendingIds,
    worker_id: u64,
    dp_rank: u32,
    cause: C,
)
    ensures
        pending.with_reply::<C>(WorkerReply::BestMatch(Ok((worker_id, dp_rank)))) matches Ok(ids)
            && ids.prefill_worker_id == worker_id && ids.prefill_dp_rank == dp_rank
            && ids.decode_worker_id == pending.decode_worker_id,
        pending.with_reply::<C>(WorkerReply::NextWorker(Some(worker_id))) matches Ok(ids)
            && ids.prefill_worker_id == worker_id && ids.prefill_dp_rank == 0
            && ids.decode_worker_id == pending.decode_worker_id,
        pending.with_reply::<C>(WorkerReply::NextWorker(None)) matches Err(QueryError::NoWorkers),
        pending.with_reply::<C>(WorkerReply::BestMatch(Err(cause))) matches Err(
            QueryError::BestMatch(kept),
        ) && kept == cause,
{
}

/// A tracker that is made for a request follows it and changes nothing else of it.
pub proof fn law_tracker_changes_nothing_else<D: RouterTypes>(
    request: PreprocessedRequest<D>,
    tracker: Arc<D::Tracker>,
)
    ensures
        with_tracker(request, tracker).tracker == Some(tracker),
        (PreprocessedRequest {
            tracker: request.tracker,
            ..with_tracker(request, tracker)
        }) == request,
{
}

/// The prefill request of a resolved worker names that worker and its rank in place of those that
/// the request brought, and keeps each other hint that it brought: its decode worker, its adapter,
/// its priority and the workers it allows. Its token limit is one, whatever the limit was.
pub proof fn law_resolved_worker_replaces_only_itself<D: RouterTypes>(
    request: PreprocessedRequest<D>,
    worker_id: u64,
    dp_rank: u32,
    info: BootstrapInfo,
)
    ensures
        prefill_request(request).stop_conditions.max_tokens == Some(1u32),
        ({
            let sent = bootstrap_request(request, worker_id, dp_rank, info);
            &&& sent.stop_conditions.max_tokens == Some(1u32)
            &&& sent.bootstrap_info == Some(info)
            &&& sent.routing matches Some(hints)
            &&& hints.prefill_worker_id == Some(worker_id)
            &&& hints.dp_rank == Some(dp_rank)
            &&& request.routing matches Some(brought) ==> {
                &&& hints.decode_worker_id == brought.decode_worker_id
                &&& hints.lora_name == brought.lora_name
                &&& hints.priority_jump_bits == brought.priority_jump_bits
                &&& hints.allowed_worker_ids == brought.allowed_worker_ids
            }
            &&& request.routing is None ==> {
                &&& hints.decode_worker_id is None
                &&& hints.lora_name is None
                &&& hints.priority_jump_bits is None
                &&& hints.allowed_worker_ids is None
            }
            &&& (PreprocessedRequest {
                routing: request.routing,
                bootstrap_info: request.bootstrap_info,
                stop_conditions: request.stop_conditions,
                ..sent
            }) == request
        }),
{
}

/// The decode worker learns of exactly one outcome. A prefill in the background adds its meeting
/// place and leaves an earlier result alone; a finished prefill adds its result and leaves an
/// earlier meeting place alone.
pub proof fn law_decode_learns_one_outcome<D: RouterTypes>(
    request: PreprocessedRequest<D>,
    info: BootstrapInfo,
    result: PrefillResult,
)
    ensures
        ({
            let met = decode_request(request, PrefillOutcome::Bootstrap(info));
            &&& met.bootstrap_info == Some(info)
            &&& met.prefill_result == request.prefill_result
        }),
        ({
            let done = decode_request(request, PrefillOutcome::Completed(result));
            &&& done.prefill_result == Some(result)
            &&& done.bootstrap_info == request.bootstrap_info
        }),
{
}

/// Whatever the settings were, those of the way to decode give cached blocks the weight zero and
/// count none as reused, and have the temperature that was set, if one was.
pub proof fn law_decode_settings<D: RouterTypes>(
    request: PreprocessedRequest<D>,
    outcome: PrefillOutcome,
    existing: Option<RouterConfigOverride>,
)
    ensures
        decode_settings(existing).overlap_score_weight_bits == Some(0u64),
        decode_settings(existing).assume_kv_reuse == Some(false),
        existing matches Some(brought) ==> decode_settings(existing).router_temperature_bits
            == brought.router_temperature_bits,
        existing is None ==> decode_settings(existing).router_temperature_bits is None,
        decode_request(request, outcome).router_config_override == Some(
            decode_settings(request.router_config_override),
        ),
{
}

/// The text of a failed request is that of its prefill's error, or names the context that ended.
pub proof fn law_texts_of_failed_requests<C>(what: String, cause: Option<C>, id: String)
    ensures
        GenerateError::<C>::Prefill(PrefillError::NotActivated).text()
            == "Prefill router not yet activated"@,
        GenerateError::<C>::Prefill(PrefillError::PrefillError(what, cause)).text()
            == "Prefill execution failed: "@ + what@,
        GenerateError::<C>::Prefill(PrefillError::NoDisaggregatedParams(what)).text()
            == "No disaggregated params in prefill response: "@ + what@,
        GenerateError::<C>::ContextEnded(id).text() == "Context id "@ + id@
            + " is stopped or killed"@,
{
}

} // verus!
