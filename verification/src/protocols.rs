//! What the routing decisions read and write of requests, outputs and workers.

use crate::error::text;
use crate::json::copy_value;
use serde_json::Value;
use std::collections::HashSet;
use std::sync::Arc;
use vstd::prelude::*;

verus! {

/// The types of the surrounding system that the decisions carry along without looking inside.
pub trait RouterTypes {
    /// A router that chooses workers by the state of their KV caches.
    type KvPushRouter;

    /// A router that takes workers in turn, at random or as told.
    type PushRouter;

    /// The configuration of a KV-aware router.
    type KvRouterConfig;

    /// What chooses the workers of a KV-aware router.
    type KvChooser;

    /// What reaches the workers under an endpoint.
    type Client;

    /// What a request holds beyond the fields of [`PreprocessedRequest`].
    type Payload;

    /// What is known of a block of tokens beyond the tokens themselves.
    type BlockExtraInfo;

    /// What follows a request through its phases.
    type Tracker;

    /// What keeps a request that is followed in its phase until it is dropped.
    type PhasePermit;

    /// An error of the surrounding system.
    type Cause;
}

/// How a router picks the worker of a request.
#[derive(Clone, Copy, Debug, PartialEq, Eq, Structural)]
pub enum RouterMode {
    RoundRobin,
    Random,
    Direct,
    KV,
}

impl RouterMode {
    /// Whether workers are chosen by the state of their KV caches.
    pub open spec fn routes_by_kv(self) -> bool {
        self is KV
    }

    /// Whether workers are chosen by the state of their KV caches.
    pub fn is_kv_routing(&self) -> (kv: bool)
        ensures
            kv == self.routes_by_kv(),
    {
        match self {
            RouterMode::KV => true,
            _ => false,
        }
    }
}

/// The name under which a group of workers is reached.
#[derive(Debug, PartialEq, Eq)]
pub struct EndpointId {
    pub namespace: String,
    pub component: String,
    pub name: String,
}

impl Clone for EndpointId {
    fn clone(&self) -> (copy: Self)
        ensures
            copy == *self,
    {
        EndpointId {
            namespace: self.namespace.clone(),
            component: self.component.clone(),
            name: self.name.clone(),
        }
    }
}

/// What a worker publishes of itself for disaggregated serving.
#[derive(Debug, PartialEq, Eq)]
pub struct DisaggregatedEndpoint {
    pub bootstrap_host: Option<String>,
    pub bootstrap_port: Option<u16>,
}

/// Where the prefill and the decode worker of a request meet.
#[derive(Debug, PartialEq, Eq)]
pub struct BootstrapInfo {
    pub bootstrap_host: String,
    pub bootstrap_port: u16,
    pub bootstrap_room: u64,
}

impl Clone for BootstrapInfo {
    fn clone(&self) -> (copy: Self)
        ensures
            copy == *self,
    {
        BootstrapInfo {
            bootstrap_host: self.bootstrap_host.clone(),
            bootstrap_port: self.bootstrap_port,
            bootstrap_room: self.bootstrap_room,
        }
    }
}

/// How the tokens of a prompt break down.
#[derive(Clone, Copy, Debug, PartialEq, Eq)]
pub struct PromptTokensDetails {
    pub audio_tokens: Option<u32>,
    pub cached_tokens: Option<u32>,
}

/// The token counts that come with an output.
#[derive(Clone, Copy, Debug, PartialEq, Eq)]
pub struct CompletionUsage {
    pub prompt_tokens_details: Option<PromptTokensDetails>,
}

/// One output of an engine.
#[derive(Debug, PartialEq)]
pub struct LLMEngineOutput {
    pub completion_usage: Option<CompletionUsage>,
    pub disaggregated_params: Option<Value>,
}

/// One item of an output stream: data, or an error, or neither.
#[derive(Debug, PartialEq)]
pub struct Annotated<C> {
    pub data: Option<LLMEngineOutput>,
    pub error: Option<C>,
}

/// What a finished prefill hands to the decode worker.
#[derive(Debug, PartialEq)]
pub struct PrefillResult {
    pub disaggregated_params: Value,
    pub prompt_tokens_details: Option<PromptTokensDetails>,
}

impl Clone for PrefillResult {
    fn clone(&self) -> (copy: Self)
        ensures
            copy == *self,
    {
        PrefillResult {
            disaggregated_params: copy_value(&self.disaggregated_params),
            prompt_tokens_details: self.prompt_tokens_details,
        }
    }
}

/// When generation stops.
#[derive(Clone, Copy, Debug, PartialEq, Eq)]
pub struct StopConditions {
    pub max_tokens: Option<u32>,
}

/// Settings of the router that a request replaces for itself.
///
/// A weight or a temperature is held as the bits of its 64-bit float, as `f64::to_bits` gives
/// them.
#[derive(Clone, Copy, Debug, PartialEq, Eq)]
pub struct RouterConfigOverride {
    pub overlap_score_weight_bits: Option<u64>,
    pub router_temperature_bits: Option<u64>,
    pub assume_kv_reuse: Option<bool>,
}

/// The bits of the 64-bit float zero.
pub const ZERO_BITS: u64 = 0;

impl RouterConfigOverride {
    /// The override that replaces nothing.
    pub open spec fn nothing() -> RouterConfigOverride {
        RouterConfigOverride {
            overlap_score_weight_bits: None,
            router_temperature_bits: None,
            assume_kv_reuse: None,
        }
    }
}

impl Default for RouterConfigOverride {
    fn default() -> (settings: Self)
        ensures
            settings == RouterConfigOverride::nothing(),
    {
        RouterConfigOverride {
            overlap_score_weight_bits: None,
            router_temperature_bits: None,
            assume_kv_reuse: None,
        }
    }
}

/// What a request says about where it wants to go.
///
/// The priority jump is held as the bits of its 64-bit float, as `f64::to_bits` gives them.
#[derive(Debug, PartialEq, Eq)]
pub struct RoutingHints {
    pub prefill_worker_id: Option<u64>,
    pub decode_worker_id: Option<u64>,
    pub dp_rank: Option<u32>,
    pub lora_name: Option<String>,
    pub priority_jump_bits: Option<u64>,
    pub allowed_worker_ids: Option<Arc<HashSet<u64>>>,
}

impl RoutingHints {
    /// Hints that say nothing.
    pub open spec fn nothing() -> RoutingHints {
        RoutingHints {
            prefill_worker_id: None,
            decode_worker_id: None,
            dp_rank: None,
            lora_name: None,
            priority_jump_bits: None,
            allowed_worker_ids: None,
        }
    }
}

impl Default for RoutingHints {
    fn default() -> (hints: Self)
        ensures
            hints == RoutingHints::nothing(),
    {
        RoutingHints {
            prefill_worker_id: None,
            decode_worker_id: None,
            dp_rank: None,
            lora_name: None,
            priority_jump_bits: None,
            allowed_worker_ids: None,
        }
    }
}

impl Clone for RoutingHints {
    fn clone(&self) -> (copy: Self)
        ensures
            copy == *self,
    {
        RoutingHints {
            prefill_worker_id: self.prefill_worker_id,
            decode_worker_id: self.decode_worker_id,
            dp_rank: self.dp_rank,
            lora_name: self.lora_name.clone(),
            priority_jump_bits: self.priority_jump_bits,
            allowed_worker_ids: share(&self.allowed_worker_ids),
        }
    }
}

/// A request after tokenization, on its way to a worker.
pub struct PreprocessedRequest<D: RouterTypes> {
    /// What routing never reads.
    pub payload: Arc<D::Payload>,
    /// The token ids by which a KV-aware router matches the request.
    pub routing_token_ids: Arc<Vec<u32>>,
    /// What is known of each block of those tokens.
    pub block_mm_infos: Option<Arc<Vec<Option<D::BlockExtraInfo>>>>,
    pub stop_conditions: StopConditions,
    pub routing: Option<RoutingHints>,
    /// The names of the annotations that the request carries.
    pub annotations: Arc<Vec<String>>,
    /// What follows the request through its phases.
    pub tracker: Option<Arc<D::Tracker>>,
    pub bootstrap_info: Option<BootstrapInfo>,
    pub prefill_result: Option<PrefillResult>,
    pub router_config_override: Option<RouterConfigOverride>,
}

impl<D: RouterTypes> Clone for PreprocessedRequest<D> {
    fn clone(&self) -> (copy: Self)
        ensures
            copy == *self,
    {
        PreprocessedRequest {
            payload: self.payload.clone(),
            routing_token_ids: self.routing_token_ids.clone(),
            block_mm_infos: share(&self.block_mm_infos),
            stop_conditions: self.stop_conditions,
            routing: self.routing.clone(),
            annotations: self.annotations.clone(),
            tracker: share(&self.tracker),
            bootstrap_info: self.bootstrap_info.clone(),
            prefill_result: self.prefill_result.clone(),
            router_config_override: self.router_config_override,
        }
    }
}

impl<D: RouterTypes> PreprocessedRequest<D> {
    /// The routing hints, or hints that say nothing.
    pub open spec fn hints(self) -> RoutingHints {
        match self.routing {
            Some(hints) => hints,
            None => RoutingHints::nothing(),
        }
    }

    /// The request carries the annotation with this name.
    pub open spec fn annotated(self, name: Seq<char>) -> bool {
        exists|i: int| 0 <= i < self.annotations@.len() && #[trigger] self.annotations@[i]@ == name
    }

    /// The request asks which workers it would go to, and is not to be executed.
    pub open spec fn query_only(self) -> bool {
        self.annotated("query_instance_id"@)
    }

    /// Whether the request carries the annotation with this name.
    pub fn has_annotation(&self, name: &String) -> (carried: bool)
        ensures
            carried == self.annotated(name@),
    {
        let count: usize = self.annotations.len();
        for i in 0..count
            invariant
                count == self.annotations@.len(),
                forall|j: int| 0 <= j < i ==> #[trigger] self.annotations@[j]@ != name@,
        {
            if self.annotations[i] == *name {
                assert(self.annotations@[i as int]@ == name@);
                return true;
            }
        }
        false
    }

    /// Whether the request asks which workers it would go to, and is not to be executed.
    pub fn is_query_only(&self) -> (query_only: bool)
        ensures
            query_only == self.query_only(),
    {
        self.has_annotation(&text("query_instance_id"))
    }
}

/// Another handle on a shared value.
pub(crate) fn share<T>(shared: &Option<Arc<T>>) -> (handle: Option<Arc<T>>)
    ensures
        handle == *shared,
{
    match shared {
        Some(value) => Some(value.clone()),
        None => None,
    }
}

/// Only one mode routes by the state of KV caches; round robin, random and direct routing do not.
pub proof fn law_one_mode_routes_by_kv(mode: RouterMode)
    ensures
        mode == RouterMode::KV ==> mode.routes_by_kv(),
        mode == RouterMode::RoundRobin || mode == RouterMode::Random || mode == RouterMode::Direct
            ==> !mode.routes_by_kv(),
{
}

/// The hints of a request are the ones it brought, whatever they say. A request without any says
/// nothing about where it wants to go: it names no worker and no rank, no adapter and no priority,
/// and allows every worker.
pub proof fn law_hints_are_those_brought<D: RouterTypes>(request: PreprocessedRequest<D>)
    ensures
        request.routing matches Some(brought) ==> request.hints() == brought,
        request.routing is None ==> {
            &&& request.hints().prefill_worker_id is None
            &&& request.hints().decode_worker_id is None
            &&& request.hints().dp_rank is None
            &&& request.hints().lora_name is None
            &&& request.hints().priority_jump_bits is None
            &&& request.hints().allowed_worker_ids is None
        },
        RoutingHints::nothing().prefill_worker_id is None,
        RoutingHints::nothing().decode_worker_id is None,
        RoutingHints::nothing().dp_rank is None,
        RoutingHints::nothing().lora_name is None,
        RoutingHints::nothing().priority_jump_bits is None,
        RoutingHints::nothing().allowed_worker_ids is None,
{
}

/// An override that replaces nothing leaves every setting of the router alone.
pub proof fn law_empty_override_replaces_nothing()
    ensures
        RouterConfigOverride::nothing().overlap_score_weight_bits is None,
        RouterConfigOverride::nothing().router_temperature_bits is None,
        RouterConfigOverride::nothing().assume_kv_reuse is None,
{
}

/// A request that carries an annotation anywhere among its annotations is annotated with it, and
/// with `query_instance_id` it is query-only, whatever other annotations it carries.
pub proof fn law_annotation_is_found<D: RouterTypes>(request: PreprocessedRequest<D>, at: int)
    requires
        0 <= at < request.annotations@.len(),
    ensures
        request.annotated(request.annotations@[at]@),
        request.annotations@[at]@ == "query_instance_id"@ ==> request.query_only(),
{
}

/// A request is annotated with no name but those it carries, and is not query-only without
/// `query_instance_id` among them.
pub proof fn law_no_other_annotation_is_found<D: RouterTypes>(
    request: PreprocessedRequest<D>,
    name: Seq<char>,
)
    requires
        forall|i: int|
            0 <= i < request.annotations@.len() ==> #[trigger] request.annotations@[i]@ != name,
    ensures
        !request.annotated(name),
        name == "query_instance_id"@ ==> !request.query_only(),
{
}

} // verus!
