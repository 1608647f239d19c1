//! The lifecycle of a prefill router, and whether it can serve requests.

use crate::activation::{
    Activation, ActivationSignal, BuiltRouter, ChooserSettings, RouterPlan,
};
use crate::error::text;
use crate::lifecycle::LifecycleEvent;
use crate::protocols::{EndpointId, RouterMode, RouterTypes};
use std::sync::Arc;
use vstd::prelude::*;

verus! {

/// The router that an active [`PrefillRouter`] sends its requests through.
pub enum InnerPrefillRouter<D: RouterTypes> {
    /// KV-aware routing.
    KvRouter(Arc<D::KvPushRouter>),
    /// Simple routing: round robin, random or direct.
    SimpleRouter(Arc<D::PushRouter>),
}

impl<D: RouterTypes> Clone for InnerPrefillRouter<D> {
    fn clone(&self) -> (copy: Self)
        ensures
            copy == *self,
    {
        match self {
            InnerPrefillRouter::KvRouter(router) => InnerPrefillRouter::KvRouter(router.clone()),
            InnerPrefillRouter::SimpleRouter(router) => {
                InnerPrefillRouter::SimpleRouter(router.clone())
            },
        }
    }
}

impl<D: RouterTypes> InnerPrefillRouter<D> {
    /// Whether this router fits `mode`: a KV-aware router for KV routing, a simple router for
    /// every other mode.
    pub open spec fn fits(self, mode: RouterMode) -> bool {
        self is KvRouter <==> mode.routes_by_kv()
    }

    /// The simple router to ask for its next worker. A KV-aware router takes no workers in turn.
    pub fn select_next_worker(&self) -> (router: Option<Arc<D::PushRouter>>)
        ensures
            router == match *self {
                InnerPrefillRouter::SimpleRouter(simple) => Some(simple),
                InnerPrefillRouter::KvRouter(_) => None,
            },
    {
        match self {
            InnerPrefillRouter::SimpleRouter(router) => Some(router.clone()),
            InnerPrefillRouter::KvRouter(_) => None,
        }
    }
}

/// Lifecycle state of a prefill router in a disaggregated deployment.
pub enum PrefillState<D: RouterTypes> {
    /// No disaggregation is configured; requests pass through.
    Passthrough,
    /// A decode worker is registered and waits for its prefill partner to appear.
    AwaitingPrefill,
    /// Prefill workers were discovered; disaggregated inference is active.
    Active(InnerPrefillRouter<D>),
    /// Prefill workers were discovered and then removed.
    Deactivated,
}

impl<D: RouterTypes> Clone for PrefillState<D> {
    fn clone(&self) -> (copy: Self)
        ensures
            copy == *self,
    {
        match self {
            PrefillState::Passthrough => PrefillState::Passthrough,
            PrefillState::AwaitingPrefill => PrefillState::AwaitingPrefill,
            PrefillState::Active(router) => PrefillState::Active(router.clone()),
            PrefillState::Deactivated => PrefillState::Deactivated,
        }
    }
}

/// A prefill router as its contracts see it.
pub struct RouterView<D: RouterTypes> {
    pub state: PrefillState<D>,
    pub activation: Activation<D>,
    pub endpoint_id: Option<EndpointId>,
    pub router_mode: RouterMode,
    pub enforce_disagg: bool,
    pub model_name: Seq<char>,
    pub namespace: Seq<char>,
}

impl<D: RouterTypes> RouterView<D> {
    /// Disaggregated mode is active.
    pub open spec fn is_activated(self) -> bool {
        self.state is Active
    }

    /// The router records that prefill workers were discovered at some point.
    pub open spec fn was_ever_activated(self) -> bool {
        self.state is Active || self.state is Deactivated
    }

    /// The router can serve: all but one that lost its prefill workers while disaggregation is
    /// enforced.
    pub open spec fn can_serve_requests(self) -> bool {
        !(self.state is Deactivated && self.enforce_disagg)
    }

    /// The router that requests go through, while active.
    pub open spec fn current_router(self) -> Option<InnerPrefillRouter<D>> {
        match self.state {
            PrefillState::Active(router) => Some(router),
            _ => None,
        }
    }

    /// The simple router that has to move on to its next worker after its worker was taken
    /// without advancing it, while active. In KV mode there is none.
    pub open spec fn router_to_advance(self) -> Option<Arc<D::PushRouter>> {
        match self.current_router() {
            Some(InnerPrefillRouter::SimpleRouter(simple)) => Some(simple),
            _ => None,
        }
    }

    /// The state agrees with how far the router is on its way to becoming active: a passthrough
    /// never sets out, and prefill workers are gone only where they were there. The endpoint is
    /// known only once it was received, and an active router goes through an inner router that
    /// fits its mode.
    pub open spec fn well_formed(self) -> bool {
        &&& match self.activation {
            Activation::Disabled => self.state is Passthrough,
            Activation::Waiting(_) | Activation::Watching(_) | Activation::Building => {
                self.state is AwaitingPrefill
            },
            Activation::Over => !(self.state is Passthrough),
        }
        &&& self.endpoint_id is Some ==> !(self.activation is Waiting)
            && !(self.activation is Disabled)
        &&& self.current_router() matches Some(router) ==> router.fits(self.router_mode)
    }
}

/// A prefill router sits between the arrival of a request and the decode router. While active it
/// has a prefill worker compute the prompt before the request goes on to decode.
pub struct PrefillRouter<D: RouterTypes> {
    state: PrefillState<D>,
    activation: Activation<D>,
    endpoint_id: Option<EndpointId>,
    router_mode: RouterMode,
    enforce_disagg: bool,
    model_name: String,
    namespace: String,
}

impl<D: RouterTypes> View for PrefillRouter<D> {
    type V = RouterView<D>;

    closed spec fn view(&self) -> RouterView<D> {
        RouterView {
            state: self.state,
            activation: self.activation,
            endpoint_id: self.endpoint_id,
            router_mode: self.router_mode,
            enforce_disagg: self.enforce_disagg,
            model_name: self.model_name@,
            namespace: self.namespace@,
        }
    }
}

impl<D: RouterTypes> Clone for PrefillRouter<D> {
    fn clone(&self) -> (copy: Self)
        ensures
            copy@ == self@,
    {
        proof {
            use_type_invariant(self);
        }
        PrefillRouter {
            state: self.state.clone(),
            activation: self.activation.clone(),
            endpoint_id: self.endpoint_id.clone(),
            router_mode: self.router_mode,
            enforce_disagg: self.enforce_disagg,
            model_name: self.model_name.clone(),
            namespace: self.namespace.clone(),
        }
    }
}

impl<D: RouterTypes> PrefillRouter<D> {
    #[verifier::type_invariant]
    spec fn is_well_formed(self) -> bool {
        self@.well_formed()
    }

    /// A router that never becomes active: requests pass through.
    pub fn disabled(router_mode: RouterMode, enforce_disagg: bool) -> (router: Self)
        ensures
            router@ == (RouterView {
                state: PrefillState::<D>::Passthrough,
                activation: Activation::Disabled,
                endpoint_id: None,
                router_mode,
                enforce_disagg,
                model_name: Seq::empty(),
                namespace: Seq::empty(),
            }),
    {
        PrefillRouter {
            state: PrefillState::Passthrough,
            activation: Activation::Disabled,
            endpoint_id: None,
            router_mode,
            enforce_disagg,
            model_name: String::new(),
            namespace: String::new(),
        }
    }

    /// A router that waits for its prefill workers.
    pub fn new(
        router_mode: RouterMode,
        kv_cache_block_size: u32,
        kv_router_config: Option<D::KvRouterConfig>,
        enforce_disagg: bool,
        model_name: String,
        namespace: String,
    ) -> (router: Self)
        ensures
            router@ == (RouterView {
                state: PrefillState::<D>::AwaitingPrefill,
                activation: Activation::Waiting(
                    ChooserSettings {
                        kv_cache_block_size,
                        kv_router_config: match kv_router_config {
                            Some(config) => Some(Arc::new(config)),
                            None => None,
                        },
                    },
                ),
                endpoint_id: None,
                router_mode,
                enforce_disagg,
                model_name: model_name@,
                namespace: namespace@,
            }),
    {
        let kv_router_config = match kv_router_config {
            Some(config) => Some(Arc::new(config)),
            None => None,
        };
        PrefillRouter {
            state: PrefillState::AwaitingPrefill,
            activation: Activation::Waiting(
                ChooserSettings { kv_cache_block_size, kv_router_config },
            ),
            endpoint_id: None,
            router_mode,
            enforce_disagg,
            model_name,
            namespace,
        }
    }

    /// A router whose prefill workers appeared and were removed again, under the names that tests
    /// use.
    pub fn make_deactivated_for_test(enforce_disagg: bool) -> (router: Self)
        ensures
            router@ == (RouterView {
                state: PrefillState::<D>::Deactivated,
                activation: Activation::Over,
                endpoint_id: None,
                router_mode: RouterMode::RoundRobin,
                enforce_disagg,
                model_name: "test-model"@,
                namespace: "test-ns"@,
            }),
    {
        PrefillRouter {
            state: PrefillState::Deactivated,
            activation: Activation::Over,
            endpoint_id: None,
            router_mode: RouterMode::RoundRobin,
            enforce_disagg,
            model_name: text("test-model"),
            namespace: text("test-ns"),
        }
    }

    /// Ends the wait for the prefill workers. With their endpoint the activation starts: the
    /// endpoint is recorded and handed back, and its runtime configuration is to be watched.
    /// Without it the router gives up for good.
    pub fn receive(&mut self, signal: ActivationSignal) -> (watch: Option<EndpointId>)
        requires
            old(self)@.activation is Waiting,
        ensures
            match signal {
                ActivationSignal::Endpoint(endpoint_id) => {
                    &&& final(self)@ == old(self)@.after(
                        LifecycleEvent::EndpointReceived(endpoint_id),
                    )
                    &&& watch == Some(endpoint_id)
                },
                ActivationSignal::ChannelClosed | ActivationSignal::Cancelled => {
                    &&& final(self)@ == old(self)@.after(LifecycleEvent::GaveUp)
                    &&& watch is None
                },
            },
    {
        proof {
            use_type_invariant(&*self);
        }
        match signal {
            ActivationSignal::Endpoint(endpoint_id) => {
                if let Activation::Waiting(settings) = &self.activation {
                    let settings = settings.clone();
                    self.activation = Activation::Watching(settings);
                }
                self.endpoint_id = Some(endpoint_id.clone());
                Some(endpoint_id)
            },
            ActivationSignal::ChannelClosed | ActivationSignal::Cancelled => {
                self.activation = Activation::Over;
                None
            },
        }
    }

    /// Takes the outcome of watching the runtime configuration of the endpoint. Only where it is
    /// watched is there a plan of the inner router to build; otherwise the activation has failed,
    /// and the error is handed back.
    pub fn watched(&mut self, outcome: Result<(), D::Cause>) -> (plan: Result<
        RouterPlan<D>,
        D::Cause,
    >)
        requires
            old(self)@.activation is Watching,
        ensures
            match outcome {
                Ok(_) => {
                    &&& final(self)@ == old(self)@.after(LifecycleEvent::Watched)
                    &&& plan matches Ok(plan)
                    &&& old(self)@.activation matches Activation::Watching(settings)
                    &&& plan.builds(old(self)@.target(), settings)
                },
                Err(cause) => {
                    &&& final(self)@ == old(self)@.after(LifecycleEvent::Failed)
                    &&& plan == Err::<RouterPlan<D>, D::Cause>(cause)
                },
            },
    {
        proof {
            use_type_invariant(&*self);
        }
        match outcome {
            Ok(_) => {
                let settings = match &self.activation {
                    Activation::Watching(settings) => settings.clone(),
                    _ => vstd::pervasive::unreached(),
                };
                let plan = RouterPlan::new(
                    self.router_mode,
                    self.model_name.clone(),
                    self.namespace.clone(),
                    settings,
                );
                self.activation = Activation::Building;
                Ok(plan)
            },
            Err(cause) => {
                self.activation = Activation::Over;
                Err(cause)
            },
        }
    }

    /// Ends the activation. With the inner router that was built for it the prefill router becomes
    /// active; with an error it goes on waiting, without another attempt, and the error is handed
    /// back.
    pub fn activate(&mut self, built: Result<BuiltRouter<D>, D::Cause>) -> (done: Result<
        (),
        D::Cause,
    >)
        requires
            old(self)@.activation is Building,
            built matches Ok(router) ==> router.target() == old(self)@.target(),
        ensures
            match built {
                Ok(router) => {
                    &&& done is Ok
                    &&& final(self)@ == old(self)@.after(LifecycleEvent::Activated(router.inner()))
                    &&& router.inner().fits(old(self)@.router_mode)
                },
                Err(error) => {
                    &&& done == Err::<(), D::Cause>(error)
                    &&& final(self)@ == old(self)@.after(LifecycleEvent::Failed)
                },
            },
    {
        proof {
            use_type_invariant(&*self);
        }
        match built {
            Ok(router) => {
                let inner = router.into_inner();
                self.activation = Activation::Over;
                self.state = PrefillState::Active(inner);
                Ok(())
            },
            Err(error) => {
                self.activation = Activation::Over;
                Err(error)
            },
        }
    }

    /// Deactivates the router: all its prefill workers were removed. A router that was never
    /// active only forgets their endpoint; a passthrough stays one, and a router that waits goes
    /// on waiting.
    pub fn deactivate(&mut self)
        ensures
            final(self)@ == old(self)@.after(LifecycleEvent::Deactivated),
    {
        proof {
            use_type_invariant(&*self);
        }
        self.endpoint_id = None;
        if self.was_ever_activated() {
            self.state = PrefillState::Deactivated;
        }
    }

    /// Whether the router waits for the endpoint of its prefill workers.
    pub fn awaits_endpoint(&self) -> (waiting: bool)
        ensures
            waiting == (self@.activation is Waiting),
    {
        matches!(&self.activation, Activation::Waiting(_))
    }

    /// Whether the outcome of watching the runtime configuration is due.
    pub fn awaits_watch(&self) -> (watching: bool)
        ensures
            watching == (self@.activation is Watching),
    {
        matches!(&self.activation, Activation::Watching(_))
    }

    /// Whether the inner router is being built.
    pub fn is_building(&self) -> (building: bool)
        ensures
            building == (self@.activation is Building),
    {
        matches!(&self.activation, Activation::Building)
    }

    /// Whether this router can serve requests in its current state.
    pub fn can_serve_requests(&self) -> (can_serve: bool)
        ensures
            can_serve == self@.can_serve_requests(),
    {
        match &self.state {
            PrefillState::Passthrough | PrefillState::AwaitingPrefill | PrefillState::Active(_) => {
                true
            },
            PrefillState::Deactivated => !self.enforce_disagg,
        }
    }

    /// Whether disaggregated mode is active.
    pub fn is_activated(&self) -> (active: bool)
        ensures
            active == self@.is_activated(),
    {
        matches!(&self.state, PrefillState::Active(_))
    }

    /// Whether prefill workers were discovered at some point.
    pub fn was_ever_activated(&self) -> (activated: bool)
        ensures
            activated == self@.was_ever_activated(),
    {
        matches!(&self.state, PrefillState::Active(_) | PrefillState::Deactivated)
    }

    /// The router that requests go through, if this router is active.
    pub fn current_router(&self) -> (router: Option<InnerPrefillRouter<D>>)
        ensures
            router == self@.current_router(),
            router matches Some(inner) ==> inner.fits(self@.router_mode),
    {
        proof {
            use_type_invariant(self);
        }
        match &self.state {
            PrefillState::Active(router) => Some(router.clone()),
            _ => None,
        }
    }

    /// The endpoint of the prefill workers, if known.
    pub fn current_endpoint_id(&self) -> (endpoint_id: Option<EndpointId>)
        ensures
            endpoint_id == self@.endpoint_id,
    {
        self.endpoint_id.clone()
    }

    /// How this router picks workers.
    pub fn router_mode(&self) -> (mode: RouterMode)
        ensures
            mode == self@.router_mode,
    {
        self.router_mode
    }

    /// Whether this router is a permanent passthrough.
    pub fn is_passthrough(&self) -> (passthrough: bool)
        ensures
            passthrough == (self@.state is Passthrough),
    {
        matches!(&self.state, PrefillState::Passthrough)
    }

    /// Whether requests may not fall back to aggregated serving.
    pub fn enforce_disagg(&self) -> (enforced: bool)
        ensures
            enforced == self@.enforce_disagg,
    {
        self.enforce_disagg
    }

    /// The model whose worker monitor learns of the prefill client.
    pub fn model_name(&self) -> (name: &str)
        ensures
            name@ == self@.model_name,
    {
        self.model_name.as_str()
    }

    /// The namespace in which that worker monitor is looked up.
    pub fn namespace(&self) -> (namespace: &str)
        ensures
            namespace@ == self@.namespace,
    {
        self.namespace.as_str()
    }

    /// The simple router that has to move on to its next worker after its worker was taken
    /// without advancing it. In KV mode, and while not active, there is none.
    pub fn router_to_advance(&self) -> (router: Option<Arc<D::PushRouter>>)
        ensures
            router == self@.router_to_advance(),
    {
        if !self.router_mode.is_kv_routing() {
            match self.current_router() {
                Some(router) => router.select_next_worker(),
                None => None,
            }
        } else {
            proof {
                use_type_invariant(self);
            }
            None
        }
    }
}

/// The inner router of KV routing is the KV-aware one, and of every other mode a simple one.
pub proof fn law_kv_routers_fit_kv_mode_only<D: RouterTypes>(
    inner: InnerPrefillRouter<D>,
    mode: RouterMode,
)
    ensures
        mode == RouterMode::KV ==> (inner.fits(mode) <==> inner is KvRouter),
        mode != RouterMode::KV ==> (inner.fits(mode) <==> inner is SimpleRouter),
{
}

/// What a router says of itself follows from its state alone, and whether it can serve from its
/// state and from whether disaggregation is enforced. A passthrough and a router that waits were
/// never active and can serve; an active router can serve; a deactivated router was active, and can
/// serve exactly if disaggregation is not enforced. Neither mode, endpoint nor names play a part.
pub proof fn law_state_decides<D: RouterTypes>(router: RouterView<D>)
    ensures
        router.state is Passthrough || router.state is AwaitingPrefill ==> {
            &&& !router.is_activated()
            &&& !router.was_ever_activated()
            &&& router.can_serve_requests()
        },
        router.state is Active ==> {
            &&& router.is_activated()
            &&& router.was_ever_activated()
            &&& router.can_serve_requests()
        },
        router.state is Deactivated ==> {
            &&& !router.is_activated()
            &&& router.was_ever_activated()
            &&& router.can_serve_requests() != router.enforce_disagg
        },
{
}

/// Requests go through the inner router of an active router, and through none otherwise. It has to
/// move on after a peek exactly if it is a simple one.
pub proof fn law_requests_go_through_the_inner_router<D: RouterTypes>(
    router: RouterView<D>,
    inner: InnerPrefillRouter<D>,
)
    ensures
        router.current_router() == Some(inner) <==> router.state == PrefillState::Active(inner),
        router.current_router() is None <==> !(router.state is Active),
        router.state == PrefillState::Active(inner) ==> match inner {
            InnerPrefillRouter::SimpleRouter(push) => router.router_to_advance() == Some(push),
            InnerPrefillRouter::KvRouter(_) => router.router_to_advance() is None,
        },
        !(router.state is Active) ==> router.router_to_advance() is None,
{
}

/// A well-formed router goes through a KV-aware inner router exactly in KV mode, and knows no
/// endpoint before it received one. It is a passthrough exactly if it never sets out to become
/// active, and only one whose activation is over is or was active.
pub proof fn law_well_formed_router<D: RouterTypes>(router: RouterView<D>)
    requires
        router.well_formed(),
    ensures
        router.state matches PrefillState::Active(inner) ==> (inner is KvRouter
            <==> router.router_mode == RouterMode::KV),
        router.state is Passthrough <==> router.activation is Disabled,
        router.state is Active || router.state is Deactivated ==> router.activation is Over,
        router.activation is Waiting || router.activation is Disabled ==> router.endpoint_id is None,
{
}

} // verus!
