//! How a prefill worker is chosen and its bootstrap address resolved.

use crate::error::{text, PrefillError};
use crate::prefill_router::{InnerPrefillRouter, PrefillRouter, PrefillState, RouterView};
use crate::protocols::{
    share, BootstrapInfo, DisaggregatedEndpoint, EndpointId, PreprocessedRequest, RouterTypes,
    ZERO_BITS,
};
use std::collections::HashSet;
use std::sync::Arc;
use vstd::prelude::*;

verus! {

/// The question put to a KV-aware router: which worker suits these tokens best?
///
/// The priority jump is held as the bits of its 64-bit float.
pub struct BestMatch<D: RouterTypes> {
    pub router: Arc<D::KvPushRouter>,
    pub token_ids: Arc<Vec<u32>>,
    pub block_mm_infos: Option<Arc<Vec<Option<D::BlockExtraInfo>>>>,
    /// Whether the router books the request on the worker it names.
    pub update_states: bool,
    pub lora_name: Option<String>,
    pub priority_jump_bits: u64,
    pub allowed_worker_ids: Option<Arc<HashSet<u64>>>,
}

/// The question that finds a prefill worker.
pub enum WorkerQuery<D: RouterTypes> {
    /// Which worker suits best?
    FindBestMatch(BestMatch<D>),
    /// Which worker is next? The router moves on.
    SelectNextWorker(Arc<D::PushRouter>),
    /// Which worker is next? The router does not move on.
    PeekNextWorker(Arc<D::PushRouter>),
}

/// What a router answered to a [`WorkerQuery`].
pub enum WorkerReply<C> {
    /// The best match and its rank, or the error with which the router failed.
    BestMatch(Result<(u64, u32), C>),
    /// The next worker, if there are any.
    NextWorker(Option<u64>),
}

/// Why no prefill worker was found.
#[derive(Debug, PartialEq, Eq)]
pub enum QueryError<C> {
    /// The simple router has no workers.
    NoWorkers,
    /// The KV-aware router failed with this error.
    BestMatch(C),
}

impl<C> QueryError<C> {
    /// The text shown to a user, unless the error of the KV-aware router speaks for itself.
    pub open spec fn text(self) -> Option<Seq<char>> {
        match self {
            QueryError::NoWorkers => Some("No workers available for prefill"@),
            QueryError::BestMatch(_) => None,
        }
    }

    /// The text shown to a user, unless the error of the KV-aware router speaks for itself.
    pub fn message(&self) -> (shown: Option<String>)
        ensures
            self.text() == match shown {
                Some(shown_text) => Some(shown_text@),
                None => None,
            },
    {
        match self {
            QueryError::NoWorkers => Some(text("No workers available for prefill")),
            QueryError::BestMatch(_) => None,
        }
    }
}

/// The worker and rank that a reply names. Simple routers know no ranks, so theirs is zero.
pub open spec fn replied_worker<C>(reply: WorkerReply<C>) -> Result<(u64, u32), QueryError<C>> {
    match reply {
        WorkerReply::BestMatch(Ok(found)) => Ok(found),
        WorkerReply::BestMatch(Err(cause)) => Err(QueryError::BestMatch(cause)),
        WorkerReply::NextWorker(Some(worker_id)) => Ok((worker_id, 0u32)),
        WorkerReply::NextWorker(None) => Err(QueryError::NoWorkers),
    }
}

/// The worker and rank that a reply names.
pub fn query_answer<C>(reply: WorkerReply<C>) -> (answer: Result<(u64, u32), QueryError<C>>)
    ensures
        answer == replied_worker(reply),
{
    match reply {
        WorkerReply::BestMatch(Ok(found)) => Ok(found),
        WorkerReply::BestMatch(Err(cause)) => Err(QueryError::BestMatch(cause)),
        WorkerReply::NextWorker(Some(worker_id)) => Ok((worker_id, 0)),
        WorkerReply::NextWorker(None) => Err(QueryError::NoWorkers),
    }
}

impl<D: RouterTypes> InnerPrefillRouter<D> {
    /// The question that finds a worker behind this router. Only a KV-aware router looks at the
    /// request; a simple router moves on exactly if `update_states`.
    pub open spec fn query(
        self,
        token_ids: Arc<Vec<u32>>,
        block_mm_infos: Option<Arc<Vec<Option<D::BlockExtraInfo>>>>,
        update_states: bool,
        lora_name: Option<String>,
        priority_jump_bits: u64,
        allowed_worker_ids: Option<Arc<HashSet<u64>>>,
    ) -> WorkerQuery<D> {
        match self {
            InnerPrefillRouter::KvRouter(router) => WorkerQuery::FindBestMatch(
                BestMatch {
                    router,
                    token_ids,
                    block_mm_infos,
                    update_states,
                    lora_name,
                    priority_jump_bits,
                    allowed_worker_ids,
                },
            ),
            InnerPrefillRouter::SimpleRouter(router) => if update_states {
                WorkerQuery::SelectNextWorker(router)
            } else {
                WorkerQuery::PeekNextWorker(router)
            },
        }
    }

    /// The question that finds a worker for `request` behind this router, without moving the
    /// router on or booking the request.
    pub open spec fn peek_for(self, request: PreprocessedRequest<D>) -> WorkerQuery<D> {
        self.query(
            request.routing_token_ids,
            request.block_mm_infos,
            false,
            request.hints().lora_name,
            match request.hints().priority_jump_bits {
                Some(bits) => bits,
                None => ZERO_BITS,
            },
            request.hints().allowed_worker_ids,
        )
    }
}

impl<D: RouterTypes> PreprocessedRequest<D> {
    /// The rank that the request names for its prefill worker, or zero.
    pub open spec fn named_rank(self) -> u32 {
        match self.hints().dp_rank {
            Some(rank) => rank,
            None => 0u32,
        }
    }

    /// The rank that the request names for its prefill worker, or zero.
    pub fn rank_or_zero(&self) -> (rank: u32)
        ensures
            rank == self.named_rank(),
    {
        match &self.routing {
            Some(hints) => hints.dp_rank.unwrap_or(0),
            None => 0,
        }
    }
}

/// A prefill worker whose bootstrap address is to be looked up under its endpoint.
#[derive(Debug, PartialEq, Eq)]
pub struct EndpointLookup {
    pub endpoint_id: EndpointId,
    pub worker_id: u64,
    pub dp_rank: u32,
}

/// The next step towards a prefill worker and its bootstrap address.
pub enum ResolveStep<D: RouterTypes> {
    /// There is no way to know them upfront.
    Unresolved,
    /// The worker is known: look up its address.
    Lookup(EndpointLookup),
    /// Put this question first; the workers are reached under this endpoint.
    Query(EndpointId, WorkerQuery<D>),
}

impl<D: RouterTypes> RouterView<D> {
    /// The first step towards a prefill worker for `request`, which may already name one.
    pub open spec fn resolve(
        self,
        request: PreprocessedRequest<D>,
        preselected_worker: Option<u64>,
    ) -> ResolveStep<D> {
        match (self.endpoint_id, self.current_router()) {
            (Some(endpoint_id), Some(router)) => match preselected_worker {
                Some(worker_id) => ResolveStep::Lookup(
                    EndpointLookup { endpoint_id, worker_id, dp_rank: request.named_rank() },
                ),
                None => ResolveStep::Query(endpoint_id, router.peek_for(request)),
            },
            _ => ResolveStep::Unresolved,
        }
    }
}

impl<D: RouterTypes> PrefillRouter<D> {
    /// The question that finds the best prefill worker without executing a request. A router that
    /// is not active has none.
    ///
    /// The reply goes to [`query_answer`].
    pub fn query_prefill_worker(
        &self,
        token_ids: Arc<Vec<u32>>,
        block_mm_infos: Option<Arc<Vec<Option<D::BlockExtraInfo>>>>,
        update_states: bool,
        lora_name: Option<String>,
        priority_jump_bits: u64,
        allowed_worker_ids: Option<Arc<HashSet<u64>>>,
    ) -> (query: Result<WorkerQuery<D>, PrefillError<D::Cause>>)
        ensures
            query == match self@.current_router() {
                Some(router) => Ok(
                    router.query(
                        token_ids,
                        block_mm_infos,
                        update_states,
                        lora_name,
                        priority_jump_bits,
                        allowed_worker_ids,
                    ),
                ),
                None => Err(PrefillError::<D::Cause>::NotActivated),
            },
    {
        match self.current_router() {
            None => Err(PrefillError::<D::Cause>::NotActivated),
            Some(InnerPrefillRouter::KvRouter(router)) => Ok(
                WorkerQuery::FindBestMatch(
                    BestMatch {
                        router,
                        token_ids,
                        block_mm_infos,
                        update_states,
                        lora_name,
                        priority_jump_bits,
                        allowed_worker_ids,
                    },
                ),
            ),
            Some(InnerPrefillRouter::SimpleRouter(router)) => if update_states {
                Ok(WorkerQuery::SelectNextWorker(router))
            } else {
                Ok(WorkerQuery::PeekNextWorker(router))
            },
        }
    }

    /// The question that finds a worker for `request`, without moving the router on or booking the
    /// request. A router that is not active has none.
    pub fn peek_prefill_worker(&self, request: &PreprocessedRequest<D>) -> (query: Result<
        WorkerQuery<D>,
        PrefillError<D::Cause>,
    >)
        ensures
            query == match self@.current_router() {
                Some(router) => Ok(router.peek_for(*request)),
                None => Err(PrefillError::<D::Cause>::NotActivated),
            },
    {
        let (lora_name, priority_jump_bits, allowed_worker_ids) = match &request.routing {
            Some(hints) => (
                hints.lora_name.clone(),
                hints.priority_jump_bits.unwrap_or(ZERO_BITS),
                share(&hints.allowed_worker_ids),
            ),
            None => (None, ZERO_BITS, None),
        };
        self.query_prefill_worker(
            request.routing_token_ids.clone(),
            share(&request.block_mm_infos),
            false,
            lora_name,
            priority_jump_bits,
            allowed_worker_ids,
        )
    }

    /// The first step towards a prefill worker for `request` and its bootstrap address. A worker
    /// that was selected before is taken as it is; otherwise the router is asked, and does not
    /// move on by it.
    pub fn resolve_prefill_worker(
        &self,
        request: &PreprocessedRequest<D>,
        preselected_worker: Option<u64>,
    ) -> (step: ResolveStep<D>)
        ensures
            step == self@.resolve(*request, preselected_worker),
    {
        let endpoint_id = match self.current_endpoint_id() {
            Some(endpoint_id) => endpoint_id,
            None => {
                return ResolveStep::Unresolved;
            },
        };
        if !self.is_activated() {
            return ResolveStep::Unresolved;
        }
        match preselected_worker {
            Some(worker_id) => {
                let dp_rank: u32 = request.rank_or_zero();
                ResolveStep::Lookup(EndpointLookup { endpoint_id, worker_id, dp_rank })
            },
            None => match self.peek_prefill_worker(request) {
                Ok(query) => ResolveStep::Query(endpoint_id, query),
                Err(_) => ResolveStep::Unresolved,
            },
        }
    }
}

impl EndpointLookup {
    /// The lookup that a reply to the question of a [`ResolveStep::Query`] leads to, if it names a
    /// worker.
    pub fn of_reply<C>(endpoint_id: EndpointId, reply: WorkerReply<C>) -> (lookup: Option<Self>)
        ensures
            lookup == match replied_worker(reply) {
                Ok((worker_id, dp_rank)) => Some(
                    EndpointLookup { endpoint_id, worker_id, dp_rank },
                ),
                Err(_) => None,
            },
    {
        match query_answer(reply) {
            Ok((worker_id, dp_rank)) => Some(EndpointLookup { endpoint_id, worker_id, dp_rank }),
            Err(_) => None,
        }
    }

    /// The worker, its rank and the bootstrap address that lead to `room`, if what was found
    /// under the endpoint holds both a host and a port.
    pub open spec fn bootstrap(
        self,
        found: Option<DisaggregatedEndpoint>,
        room: u64,
    ) -> Option<(u64, u32, BootstrapInfo)> {
        match found {
            Some(DisaggregatedEndpoint { bootstrap_host: Some(host), bootstrap_port: Some(port) }) =>
                Some(
                (
                    self.worker_id,
                    self.dp_rank,
                    BootstrapInfo {
                        bootstrap_host: host,
                        bootstrap_port: port,
                        bootstrap_room: room,
                    },
                ),
            ),
            _ => None,
        }
    }

    /// The worker, its rank and the bootstrap address that lead to `room`, if what was found
    /// under the endpoint holds both a host and a port.
    pub fn bootstrap_in_room(self, found: Option<DisaggregatedEndpoint>, room: u64) -> (resolved:
        Option<(u64, u32, BootstrapInfo)>)
        ensures
            resolved == self.bootstrap(found, room),
    {
        let endpoint = match found {
            Some(endpoint) => endpoint,
            None => {
                return None;
            },
        };
        let bootstrap_host = match endpoint.bootstrap_host {
            Some(host) => host,
            None => {
                return None;
            },
        };
        let bootstrap_port: u16 = match endpoint.bootstrap_port {
            Some(port) => port,
            None => {
                return None;
            },
        };
        Some(
            (
                self.worker_id,
                self.dp_rank,
                BootstrapInfo { bootstrap_host, bootstrap_port, bootstrap_room: room },
            ),
        )
    }

    /// The worker, its rank and a bootstrap address with a room drawn at random, if what was
    /// found under the endpoint holds both a host and a port. Which of the rooms up to
    /// [`LAST_ROOM`] it is, is left to chance.
    pub fn resolve(self, found: Option<DisaggregatedEndpoint>) -> (resolved: Option<
        (u64, u32, BootstrapInfo),
    >)
        ensures
            exists|room: u64|
                room <= LAST_ROOM && resolved == #[trigger] self.bootstrap(found, room),
    {
        let room: u64 = random_up_to(LAST_ROOM);
        self.bootstrap_in_room(found, room)
    }
}

/// The last of the rooms in which workers meet: the greatest number that a signed 64-bit integer
/// holds too.
pub const LAST_ROOM: u64 = 0x7fff_ffff_ffff_ffff;

/// Calls `rand::random_range` on the numbers from zero up to and including `last`.
///
/// Claimed of it: the result is one of them.
#[verifier::external_body]
fn random_up_to(last: u64) -> (drawn: u64)
    ensures
        drawn <= last,
{
    rand::random_range(0..=last)
}

/// Resolving a worker only peeks: no simple router is moved on by it, and no KV-aware router books
/// the request.
pub proof fn law_resolving_only_peeks<D: RouterTypes>(
    router: RouterView<D>,
    request: PreprocessedRequest<D>,
    preselected_worker: Option<u64>,
)
    ensures
        match router.resolve(request, preselected_worker) {
            ResolveStep::Query(_, WorkerQuery::SelectNextWorker(_)) => false,
            ResolveStep::Query(_, WorkerQuery::FindBestMatch(query)) => !query.update_states,
            _ => true,
        },
{
}

/// A worker is resolved only while the router is active and its endpoint known, and a worker that
/// the request names is the one that is looked up.
pub proof fn law_resolving_needs_an_active_router<D: RouterTypes>(
    router: RouterView<D>,
    request: PreprocessedRequest<D>,
    preselected_worker: Option<u64>,
)
    ensures
        router.resolve(request, preselected_worker) is Unresolved <==> !(router.is_activated()
            && router.endpoint_id is Some),
        router.resolve(request, preselected_worker) matches ResolveStep::Lookup(lookup) ==> {
            &&& preselected_worker == Some(lookup.worker_id)
            &&& router.endpoint_id == Some(lookup.endpoint_id)
        },
{
}

/// A simple router that was peeked at for a request is the one that moves on when the request is
/// launched on the worker it named, if nothing happened to the prefill router in between.
pub proof fn law_peeked_router_advances<D: RouterTypes>(
    router: RouterView<D>,
    request: PreprocessedRequest<D>,
)
    ensures
        router.resolve(request, None) matches ResolveStep::Query(
            _,
            WorkerQuery::PeekNextWorker(peeked),
        ) ==> router.router_to_advance() == Some(peeked),
{
}

/// A KV-aware router is asked with everything it is given, each part whatever the others are, and
/// books the request exactly if that is asked for. A simple router is asked for its next worker,
/// and moves on exactly if that is asked for; what the request looks like plays no part.
pub proof fn law_query_carries_what_it_was_given<D: RouterTypes>(
    router: InnerPrefillRouter<D>,
    token_ids: Arc<Vec<u32>>,
    block_mm_infos: Option<Arc<Vec<Option<D::BlockExtraInfo>>>>,
    update_states: bool,
    lora_name: Option<String>,
    priority_jump_bits: u64,
    allowed_worker_ids: Option<Arc<HashSet<u64>>>,
)
    ensures
        ({
            let query = router.query(
                token_ids,
                block_mm_infos,
                update_states,
                lora_name,
                priority_jump_bits,
                allowed_worker_ids,
            );
            &&& router matches InnerPrefillRouter::KvRouter(kv) ==> {
                &&& query matches WorkerQuery::FindBestMatch(question)
                &&& question.router == kv
                &&& question.token_ids == token_ids
                &&& question.block_mm_infos == block_mm_infos
                &&& question.update_states == update_states
                &&& question.lora_name == lora_name
                &&& question.priority_jump_bits == priority_jump_bits
                &&& question.allowed_worker_ids == allowed_worker_ids
            }
            &&& router matches InnerPrefillRouter::SimpleRouter(push) ==> match query {
                WorkerQuery::FindBestMatch(_) => false,
                WorkerQuery::SelectNextWorker(asked) => update_states && asked == push,
                WorkerQuery::PeekNextWorker(asked) => !update_states && asked == push,
            }
        }),
{
}

/// The question put for a request carries the request's own routing data, each part whatever the
/// others are: its tokens, what is known of their blocks, its adapter, the workers it allows, and
/// its priority jump, which is zero where it has none. It neither books the request nor moves a
/// router on.
pub proof fn law_question_carries_the_request<D: RouterTypes>(
    router: InnerPrefillRouter<D>,
    request: PreprocessedRequest<D>,
)
    ensures
        router matches InnerPrefillRouter::KvRouter(kv) ==> {
            &&& router.peek_for(request) matches WorkerQuery::FindBestMatch(question)
            &&& question.router == kv
            &&& question.token_ids == request.routing_token_ids
            &&& question.block_mm_infos == request.block_mm_infos
            &&& !question.update_states
            &&& request.routing matches Some(brought) ==> {
                &&& question.lora_name == brought.lora_name
                &&& question.allowed_worker_ids == brought.allowed_worker_ids
                &&& brought.priority_jump_bits is Some ==> brought.priority_jump_bits == Some(
                    question.priority_jump_bits,
                )
                &&& brought.priority_jump_bits is None ==> question.priority_jump_bits == 0
            }
            &&& request.routing is None ==> {
                &&& question.lora_name is None
                &&& question.allowed_worker_ids is None
                &&& question.priority_jump_bits == 0
            }
        },
        router matches InnerPrefillRouter::SimpleRouter(push) ==> (router.peek_for(request) matches
            WorkerQuery::PeekNextWorker(asked) && asked == push),
{
}

/// The rank of a request's prefill worker is the one that the request names, or zero. No other hint
/// plays a part.
pub proof fn law_named_rank<D: RouterTypes>(request: PreprocessedRequest<D>)
    ensures
        request.routing matches Some(brought) ==> match brought.dp_rank {
            Some(rank) => request.named_rank() == rank,
            None => request.named_rank() == 0,
        },
        request.routing is None ==> request.named_rank() == 0,
{
}

/// While a router is active and its endpoint known, a step towards a worker can always be taken, in
/// every mode and for every request. A preselected worker is looked up under the endpoint, with the
/// rank that the request names; without one the inner router is asked for the request.
pub proof fn law_active_router_resolves<D: RouterTypes>(
    router: RouterView<D>,
    request: PreprocessedRequest<D>,
    preselected_worker: Option<u64>,
)
    requires
        router.state is Active,
        router.endpoint_id is Some,
    ensures
        match preselected_worker {
            Some(worker_id) => {
                &&& router.resolve(request, preselected_worker) matches ResolveStep::Lookup(lookup)
                &&& Some(lookup.endpoint_id) == router.endpoint_id
                &&& lookup.worker_id == worker_id
                &&& lookup.dp_rank == request.named_rank()
            },
            None => {
                &&& router.resolve(request, preselected_worker) matches ResolveStep::Query(
                    endpoint_id,
                    query,
                )
                &&& Some(endpoint_id) == router.endpoint_id
                &&& router.state matches PrefillState::Active(inner)
                &&& query == inner.peek_for(request)
            },
        },
{
}

/// Without an active inner router, or without its endpoint, no worker is resolved, preselected or
/// not.
pub proof fn law_inactive_router_resolves_nothing<D: RouterTypes>(
    router: RouterView<D>,
    request: PreprocessedRequest<D>,
    preselected_worker: Option<u64>,
)
    requires
        !(router.state is Active) || router.endpoint_id is None,
    ensures
        router.resolve(request, preselected_worker) is Unresolved,
{
}

/// A reply is answered with the worker that it names, whichever it is, and with its rank, which for
/// a simple router is zero. A router without workers and one that failed are told apart, and the
/// error of the latter is kept.
pub proof fn law_replies_are_taken_as_they_are<C>(worker_id: u64, dp_rank: u32, cause: C)
    ensures
        replied_worker::<C>(WorkerReply::BestMatch(Ok((worker_id, dp_rank)))) matches Ok(
            (found, rank),
        ) && found == worker_id && rank == dp_rank,
        replied_worker::<C>(WorkerReply::NextWorker(Some(worker_id))) matches Ok((found, rank))
            && found == worker_id && rank == 0,
        replied_worker::<C>(WorkerReply::NextWorker(None)) matches Err(QueryError::NoWorkers),
        replied_worker::<C>(WorkerReply::BestMatch(Err(cause))) matches Err(
            QueryError::BestMatch(kept),
        ) && kept == cause,
{
}

/// Of the errors of a query only the lack of workers has a text of its own.
pub proof fn law_text_of_query_errors<C>(cause: C)
    ensures
        QueryError::<C>::NoWorkers.text() matches Some(shown) && shown
            == "No workers available for prefill"@,
        QueryError::BestMatch(cause).text() is None,
{
}

/// A worker can be met exactly if it publishes both a host and a port, whatever they are. It is met
/// there, in the room that was drawn, and is the worker that was looked up, with its rank.
pub proof fn law_published_worker_can_be_met(
    lookup: EndpointLookup,
    found: Option<DisaggregatedEndpoint>,
    room: u64,
)
    ensures
        lookup.bootstrap(found, room) is Some <==> {
            &&& found matches Some(published)
            &&& published.bootstrap_host is Some
            &&& published.bootstrap_port is Some
        },
        lookup.bootstrap(found, room) matches Some((worker_id, dp_rank, info)) ==> {
            &&& worker_id == lookup.worker_id
            &&& dp_rank == lookup.dp_rank
            &&& info.bootstrap_room == room
            &&& found matches Some(published)
            &&& published.bootstrap_host == Some(info.bootstrap_host)
            &&& published.bootstrap_port == Some(info.bootstrap_port)
        },
{
}

/// Every room that can be drawn is a number that a signed 64-bit integer holds too, and every such
/// number can be drawn.
pub proof fn law_rooms_fit_signed_integers(room: u64)
    ensures
        room <= LAST_ROOM <==> room <= i64::MAX,
{
}

} // verus!
