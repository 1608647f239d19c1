//! A group of workers deployed from the same configuration, with the pipelines built for them.

use crate::channels::{latest_instances, lists_held};
use crate::prefill_router::PrefillRouter;
use crate::protocols::RouterTypes;
use std::sync::Arc;
use tokio::sync::watch;
use vstd::prelude::*;

verus! {

/// The types of the pipelines that a [`WorkerSet`] owns and does not look inside.
pub trait PipelineTypes: RouterTypes {
    type ChatEngine;

    type CompletionsEngine;

    type EmbeddingsEngine;

    type ImagesEngine;

    type VideosEngine;

    type TensorEngine;

    type KvRouter;

    type WorkerMonitor;
}

/// What a model deployment says about running the model.
#[derive(Debug, PartialEq, Eq)]
pub struct ModelRuntimeConfig {
    pub tool_call_parser: Option<String>,
    pub reasoning_parser: Option<String>,
}

/// What a worker set reads of the deployment card of its model.
#[derive(Debug, PartialEq, Eq)]
pub struct ModelDeploymentCard {
    pub runtime_config: ModelRuntimeConfig,
}

impl Default for ModelDeploymentCard {
    fn default() -> (card: Self)
        ensures
            card.runtime_config.tool_call_parser is None,
            card.runtime_config.reasoning_parser is None,
    {
        ModelDeploymentCard {
            runtime_config: ModelRuntimeConfig { tool_call_parser: None, reasoning_parser: None },
        }
    }
}

/// The parsers that the outputs of a model go through.
#[derive(Debug, PartialEq, Eq)]
pub struct ParsingOptions {
    pub tool_call_parser: Option<String>,
    pub reasoning_parser: Option<String>,
}

impl ParsingOptions {
    /// Options with these parsers.
    pub fn new(tool_call_parser: Option<String>, reasoning_parser: Option<String>) -> (options:
        Self)
        ensures
            options == (ParsingOptions { tool_call_parser, reasoning_parser }),
    {
        ParsingOptions { tool_call_parser, reasoning_parser }
    }
}

/// A set of workers from the same namespace and configuration, with their own pipeline.
pub struct WorkerSet<T: PipelineTypes> {
    /// The namespace that the workers share.
    pub namespace: String,
    /// The checksum of the configuration that the workers share.
    pub mdcsum: String,
    /// The deployment card of the model.
    pub card: ModelDeploymentCard,
    pub chat_engine: Option<T::ChatEngine>,
    pub completions_engine: Option<T::CompletionsEngine>,
    pub embeddings_engine: Option<T::EmbeddingsEngine>,
    pub images_engine: Option<T::ImagesEngine>,
    pub videos_engine: Option<T::VideosEngine>,
    pub tensor_engine: Option<T::TensorEngine>,
    /// The router for this set's workers, if they are routed by their KV caches.
    pub kv_router: Option<Arc<T::KvRouter>>,
    /// The monitor by which overloaded workers are passed over.
    pub worker_monitor: Option<T::WorkerMonitor>,
    /// The prefill router, for sets that decode in a disaggregated deployment.
    pub prefill_router: Option<PrefillRouter<T>>,
    /// What watches the instances of the workers. A model that runs in this process has nothing to
    /// watch.
    pub instance_count_rx: Option<watch::Receiver<Vec<u64>>>,
}

/// Whether a set with this prefill router can serve. Without one it always can.
pub open spec fn serves_with<T: RouterTypes>(prefill_router: Option<PrefillRouter<T>>) -> bool {
    prefill_router matches Some(router) ==> router@.can_serve_requests()
}

/// Whether a set with this prefill router can serve. Without one it always can.
pub fn can_serve_with<T: RouterTypes>(prefill_router: Option<&PrefillRouter<T>>) -> (can_serve:
    bool)
    ensures
        can_serve == (prefill_router matches Some(router) ==> router@.can_serve_requests()),
{
    match prefill_router {
        Some(router) => router.can_serve_requests(),
        None => true,
    }
}

/// The number of workers of a set. Where no instances are watched, the model runs in this process
/// and is its own one worker.
pub open spec fn workers_among(instances: Option<Seq<u64>>) -> nat {
    match instances {
        Some(ids) => ids.len(),
        None => 1,
    }
}

/// The number of workers of a set whose watched instances are `instances`.
pub fn count_workers(instances: Option<&Vec<u64>>) -> (count: usize)
    ensures
        count == workers_among(
            match instances {
                Some(ids) => Some(ids@),
                None => None,
            },
        ),
{
    match instances {
        Some(ids) => ids.len(),
        None => 1,
    }
}

impl<T: PipelineTypes> WorkerSet<T> {
    /// The set has an engine that decodes.
    pub open spec fn decodes(self) -> bool {
        self.chat_engine is Some || self.completions_engine is Some
    }

    /// The set has no engine at all.
    pub open spec fn has_no_engine(self) -> bool {
        &&& self.chat_engine is None
        &&& self.completions_engine is None
        &&& self.embeddings_engine is None
        &&& self.images_engine is None
        &&& self.videos_engine is None
        &&& self.tensor_engine is None
    }

    /// A set without engines, routers or watcher.
    pub fn new(namespace: String, mdcsum: String, card: ModelDeploymentCard) -> (set: Self)
        ensures
            set == (WorkerSet::<T> {
                namespace,
                mdcsum,
                card,
                chat_engine: None,
                completions_engine: None,
                embeddings_engine: None,
                images_engine: None,
                videos_engine: None,
                tensor_engine: None,
                kv_router: None,
                worker_monitor: None,
                prefill_router: None,
                instance_count_rx: None,
            }),
    {
        WorkerSet {
            namespace,
            mdcsum,
            card,
            chat_engine: None,
            completions_engine: None,
            embeddings_engine: None,
            images_engine: None,
            videos_engine: None,
            tensor_engine: None,
            kv_router: None,
            worker_monitor: None,
            prefill_router: None,
            instance_count_rx: None,
        }
    }

    /// The namespace that the workers share.
    pub fn namespace(&self) -> (namespace: &str)
        ensures
            namespace@ == self.namespace@,
    {
        self.namespace.as_str()
    }

    /// The checksum of the configuration that the workers share.
    pub fn mdcsum(&self) -> (mdcsum: &str)
        ensures
            mdcsum@ == self.mdcsum@,
    {
        self.mdcsum.as_str()
    }

    /// The deployment card of the model.
    pub fn card(&self) -> (card: &ModelDeploymentCard)
        ensures
            *card == self.card,
    {
        &self.card
    }

    /// Whether this set has a chat engine.
    pub fn has_chat_engine(&self) -> (has: bool)
        ensures
            has == (self.chat_engine is Some),
    {
        self.chat_engine.is_some()
    }

    /// Whether this set has a completions engine.
    pub fn has_completions_engine(&self) -> (has: bool)
        ensures
            has == (self.completions_engine is Some),
    {
        self.completions_engine.is_some()
    }

    /// Whether this set has an embeddings engine.
    pub fn has_embeddings_engine(&self) -> (has: bool)
        ensures
            has == (self.embeddings_engine is Some),
    {
        self.embeddings_engine.is_some()
    }

    /// Whether this set has an images engine.
    pub fn has_images_engine(&self) -> (has: bool)
        ensures
            has == (self.images_engine is Some),
    {
        self.images_engine.is_some()
    }

    /// Whether this set has a videos engine.
    pub fn has_videos_engine(&self) -> (has: bool)
        ensures
            has == (self.videos_engine is Some),
    {
        self.videos_engine.is_some()
    }

    /// Whether this set has a tensor engine.
    pub fn has_tensor_engine(&self) -> (has: bool)
        ensures
            has == (self.tensor_engine is Some),
    {
        self.tensor_engine.is_some()
    }

    /// Whether this set has any engine that decodes (chat or completions).
    pub fn has_decode_engine(&self) -> (has: bool)
        ensures
            has == self.decodes(),
    {
        self.has_chat_engine() || self.has_completions_engine()
    }

    /// Whether this set stands for prefill workers: they have no engine here, only a lifecycle.
    pub fn is_prefill_set(&self) -> (prefill: bool)
        ensures
            prefill == self.has_no_engine(),
    {
        !self.has_decode_engine() && !self.has_embeddings_engine() && !self.has_images_engine()
            && !self.has_videos_engine() && !self.has_tensor_engine()
    }

    /// Whether this set can currently serve requests. It cannot when it was part of a
    /// disaggregated deployment whose prefill workers went away while disaggregation is enforced.
    pub fn can_serve_requests(&self) -> (can_serve: bool)
        ensures
            can_serve == serves_with(self.prefill_router),
    {
        can_serve_with(self.prefill_router.as_ref())
    }

    /// The parsers that this set's deployment card names.
    pub fn parsing_options(&self) -> (options: ParsingOptions)
        ensures
            options.tool_call_parser == self.card.runtime_config.tool_call_parser,
            options.reasoning_parser == self.card.runtime_config.reasoning_parser,
    {
        ParsingOptions::new(
            self.card.runtime_config.tool_call_parser.clone(),
            self.card.runtime_config.reasoning_parser.clone(),
        )
    }

    /// The number of active workers in this set: as many as there are instances in the list that
    /// its watcher shows at this moment, or one where no instances are watched. Which of the lists
    /// held by the watched channel that is, is up to the sender.
    pub fn worker_count(&self) -> (count: usize)
        ensures
            match self.instance_count_rx {
                None => count == workers_among(None),
                Some(watcher) => exists|instances: Seq<u64>| #[trigger]
                    lists_held(watcher).contains(instances) && count == workers_among(
                        Some(instances),
                    ),
            },
    {
        match &self.instance_count_rx {
            Some(watcher) => {
                let instances = latest_instances(watcher);
                count_workers(Some(&instances))
            },
            None => count_workers(None),
        }
    }

    /// Has the instances of the workers watched by `rx`.
    pub fn set_instance_watcher(&mut self, rx: watch::Receiver<Vec<u64>>)
        ensures
            *final(self) == (WorkerSet { instance_count_rx: Some(rx), ..*old(self) }),
    {
        self.instance_count_rx = Some(rx);
    }
}

/// A set that decodes is no prefill set.
pub proof fn law_prefill_sets_do_not_decode<T: PipelineTypes>(set: WorkerSet<T>)
    ensures
        !(set.decodes() && set.has_no_engine()),
{
}

/// A set that cannot serve is one whose prefill router rejects every request.
pub proof fn law_refusing_set_rejects<T: RouterTypes>(
    prefill_router: Option<PrefillRouter<T>>,
    query_only: bool,
)
    requires
        !serves_with(prefill_router),
    ensures
        prefill_router matches Some(router) && router@.admission(query_only) is Reject,
{
}

/// A set with a chat engine decodes, whatever other engines it has, and so does a set with a
/// completions engine. A set with neither does not.
pub proof fn law_chat_and_completions_decode<T: PipelineTypes>(set: WorkerSet<T>)
    ensures
        set.chat_engine is Some ==> set.decodes(),
        set.completions_engine is Some ==> set.decodes(),
        set.chat_engine is None && set.completions_engine is None ==> !set.decodes(),
{
}

/// One engine of any kind is enough to make a set no prefill set, whatever its other engines are. A
/// set without any is one, whatever else it has.
pub proof fn law_any_engine_makes_it_no_prefill_set<T: PipelineTypes>(set: WorkerSet<T>)
    ensures
        set.chat_engine is Some ==> !set.has_no_engine(),
        set.completions_engine is Some ==> !set.has_no_engine(),
        set.embeddings_engine is Some ==> !set.has_no_engine(),
        set.images_engine is Some ==> !set.has_no_engine(),
        set.videos_engine is Some ==> !set.has_no_engine(),
        set.tensor_engine is Some ==> !set.has_no_engine(),
        set.chat_engine is None && set.completions_engine is None && set.embeddings_engine is None
            && set.images_engine is None && set.videos_engine is None && set.tensor_engine is None
            ==> set.has_no_engine(),
{
}

/// A set cannot serve exactly if it has a prefill router that lost its prefill workers while
/// disaggregation is enforced.
pub proof fn law_set_serves_unless_prefill_was_lost<T: RouterTypes>(
    prefill_router: Option<PrefillRouter<T>>,
)
    ensures
        !serves_with(prefill_router) <==> {
            &&& prefill_router matches Some(router)
            &&& router@.state is Deactivated
            &&& router@.enforce_disagg
        },
{
}

/// Every instance counts as one worker, also one that is listed twice. No instances are no workers,
/// and a model with nothing to watch is one worker.
pub proof fn law_every_instance_counts(instances: Seq<u64>, another: u64)
    ensures
        workers_among(Some(Seq::empty())) == 0,
        workers_among(Some(instances.push(another))) == workers_among(Some(instances)) + 1,
        workers_among(None) == 1,
{
}

} // verus!
