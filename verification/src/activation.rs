//! How a prefill router comes to be active.
//!
//! The router keeps the stage of its one activation. [`PrefillRouter::receive`] takes the endpoint
//! of the prefill workers. [`PrefillRouter::watched`] takes the outcome of watching the runtime
//! configuration under that endpoint, from which bootstrap addresses are read, and only then gives
//! out the plan of the inner router. The plan leads through these steps, each of which is consumed
//! by the next:
//!
//! 1. A client of the prefill workers is obtained: by a [`ClientStep`], or for KV routing from the
//!    chooser of workers, by a [`ChooserStep`] and a [`ChooserClientStep`].
//! 2. [`RegisterStep`]: the worker monitor of the model is told of the client.
//! 3. [`PushStep`]: a push router is made around the same client.
//! 4. For KV routing, [`Pushed::Wrap`]: the push router and the chooser become a KV-aware router.
//!
//! [`PrefillRouter::activate`] takes the [`BuiltRouter`] that comes out, or the error with which
//! one of these steps failed.

use crate::error::text;
use crate::prefill_router::{InnerPrefillRouter, PrefillRouter, RouterView};
use crate::protocols::{share, EndpointId, RouterMode, RouterTypes};
use std::sync::Arc;
use vstd::prelude::*;

verus! {

/// What ends the wait for the prefill workers.
pub enum ActivationSignal {
    /// Prefill workers appeared under this endpoint.
    Endpoint(EndpointId),
    /// The channel was closed and no endpoint can arrive any more.
    ChannelClosed,
    /// The router was dropped.
    Cancelled,
}

/// The settings of a chooser of prefill workers.
pub struct ChooserSettings<D: RouterTypes> {
    pub kv_cache_block_size: u32,
    pub kv_router_config: Option<Arc<D::KvRouterConfig>>,
}

impl<D: RouterTypes> Clone for ChooserSettings<D> {
    fn clone(&self) -> (copy: Self)
        ensures
            copy == *self,
    {
        ChooserSettings {
            kv_cache_block_size: self.kv_cache_block_size,
            kv_router_config: share(&self.kv_router_config),
        }
    }
}

/// How far a prefill router is on its one way to becoming active.
pub enum Activation<D: RouterTypes> {
    /// It never sets out.
    Disabled,
    /// It waits for the endpoint of prefill workers. For KV routing, a chooser for them would be
    /// made with these settings.
    Waiting(ChooserSettings<D>),
    /// The endpoint is known, and its runtime configuration is not watched yet.
    Watching(ChooserSettings<D>),
    /// The runtime configuration is watched, and the inner router is being built.
    Building,
    /// It has arrived, or has given up for good.
    Over,
}

impl<D: RouterTypes> Clone for Activation<D> {
    fn clone(&self) -> (copy: Self)
        ensures
            copy == *self,
    {
        match self {
            Activation::Disabled => Activation::Disabled,
            Activation::Waiting(settings) => Activation::Waiting(settings.clone()),
            Activation::Watching(settings) => Activation::Watching(settings.clone()),
            Activation::Building => Activation::Building,
            Activation::Over => Activation::Over,
        }
    }
}

/// What an inner router is built for: the mode of its prefill router, and the names under which the
/// worker monitor is found.
pub struct Target {
    pub router_mode: RouterMode,
    pub model_name: Seq<char>,
    pub namespace: Seq<char>,
}

impl<D: RouterTypes> RouterView<D> {
    /// What an inner router for this router is built for.
    pub open spec fn target(self) -> Target {
        Target {
            router_mode: self.router_mode,
            model_name: self.model_name,
            namespace: self.namespace,
        }
    }
}

/// What an inner router is built for, carried from step to step.
struct Build {
    router_mode: RouterMode,
    model_name: String,
    namespace: String,
}

impl Build {
    spec fn target(self) -> Target {
        Target {
            router_mode: self.router_mode,
            model_name: self.model_name@,
            namespace: self.namespace@,
        }
    }
}

/// The inner router that an activation has to build.
pub enum RouterPlan<D: RouterTypes> {
    /// A KV-aware router, around a chooser of prefill workers.
    KvRouter(ChooserStep<D>),
    /// A simple router.
    SimpleRouter(ClientStep),
}

impl<D: RouterTypes> RouterPlan<D> {
    /// The plan builds for `target`, and for KV routing with `settings`: a KV-aware router for KV
    /// routing, a simple router for every other mode.
    pub open spec fn builds(self, target: Target, settings: ChooserSettings<D>) -> bool {
        match self {
            RouterPlan::KvRouter(step) => {
                &&& target.router_mode.routes_by_kv()
                &&& step.target() == target
                &&& step.settings() == settings
            },
            RouterPlan::SimpleRouter(step) => {
                &&& !target.router_mode.routes_by_kv()
                &&& step.target() == target
            },
        }
    }

    /// The plan for a router in this mode, with these names.
    pub(crate) fn new(
        router_mode: RouterMode,
        model_name: String,
        namespace: String,
        settings: ChooserSettings<D>,
    ) -> (plan: Self)
        ensures
            plan.builds(
                (Target { router_mode, model_name: model_name@, namespace: namespace@ }),
                settings,
            ),
    {
        let build = Build { router_mode, model_name, namespace };
        if router_mode.is_kv_routing() {
            RouterPlan::KvRouter(ChooserStep { build, settings })
        } else {
            RouterPlan::SimpleRouter(ClientStep { build })
        }
    }
}

/// A chooser of prefill workers has to be made.
pub struct ChooserStep<D: RouterTypes> {
    build: Build,
    settings: ChooserSettings<D>,
}

impl<D: RouterTypes> ChooserStep<D> {
    #[verifier::type_invariant]
    spec fn routes_by_kv(self) -> bool {
        self.build.router_mode.routes_by_kv()
    }

    /// What is being built for.
    pub closed spec fn target(self) -> Target {
        self.build.target()
    }

    /// The settings of the chooser.
    pub closed spec fn settings(self) -> ChooserSettings<D> {
        self.settings
    }

    /// The settings with which the chooser is made.
    pub fn chooser_settings(&self) -> (settings: ChooserSettings<D>)
        ensures
            settings == self.settings(),
    {
        self.settings.clone()
    }

    /// Takes the chooser, or the error with which it could not be made.
    pub fn made(self, chooser: Result<D::KvChooser, D::Cause>) -> (next: Result<
        ChooserClientStep<D>,
        D::Cause,
    >)
        ensures
            match chooser {
                Ok(chooser) => {
                    &&& next matches Ok(step)
                    &&& step.target() == self.target()
                    &&& step.chooser() == chooser
                },
                Err(cause) => next == Err::<ChooserClientStep<D>, D::Cause>(cause),
            },
    {
        proof {
            use_type_invariant(&self);
        }
        match chooser {
            Ok(chooser) => Ok(ChooserClientStep { build: self.build, chooser }),
            Err(cause) => Err(cause),
        }
    }
}

/// The client of a chooser has to be taken from it, so that both share their state.
pub struct ChooserClientStep<D: RouterTypes> {
    build: Build,
    chooser: D::KvChooser,
}

impl<D: RouterTypes> ChooserClientStep<D> {
    #[verifier::type_invariant]
    spec fn routes_by_kv(self) -> bool {
        self.build.router_mode.routes_by_kv()
    }

    /// What is being built for.
    pub closed spec fn target(self) -> Target {
        self.build.target()
    }

    /// The chooser.
    pub closed spec fn chooser(self) -> D::KvChooser {
        self.chooser
    }

    /// The chooser whose client is taken.
    pub fn kv_chooser(&self) -> (chooser: &D::KvChooser)
        ensures
            *chooser == self.chooser(),
    {
        &self.chooser
    }

    /// Takes the client.
    pub fn taken(self, client: Arc<D::Client>) -> (next: RegisterStep<D>)
        ensures
            next.target() == self.target(),
            next.chooser() == Some(self.chooser()),
            next.client() == client,
    {
        proof {
            use_type_invariant(&self);
        }
        RegisterStep { build: self.build, chooser: Some(self.chooser), client }
    }
}

/// A client of the prefill workers has to be made.
pub struct ClientStep {
    build: Build,
}

impl ClientStep {
    #[verifier::type_invariant]
    spec fn routes_simply(self) -> bool {
        !self.build.router_mode.routes_by_kv()
    }

    /// What is being built for.
    pub closed spec fn target(self) -> Target {
        self.build.target()
    }

    /// Takes the client, or the error with which it could not be made.
    pub fn made<D: RouterTypes>(self, client: Result<Arc<D::Client>, D::Cause>) -> (next: Result<
        RegisterStep<D>,
        D::Cause,
    >)
        ensures
            match client {
                Ok(client) => {
                    &&& next matches Ok(step)
                    &&& step.target() == self.target()
                    &&& step.chooser() is None
                    &&& step.client() == client
                },
                Err(cause) => next == Err::<RegisterStep<D>, D::Cause>(cause),
            },
    {
        proof {
            use_type_invariant(&self);
        }
        match client {
            Ok(client) => Ok(RegisterStep { build: self.build, chooser: None, client }),
            Err(cause) => Err(cause),
        }
    }
}

/// The worker monitor that is told of a client of prefill workers, if there is one.
pub struct Registration<D: RouterTypes> {
    /// The model of the worker monitor.
    pub model_name: String,
    /// The namespace in which the worker monitor is looked up.
    pub namespace: String,
    pub client: Arc<D::Client>,
}

/// The client has to be registered with the worker monitor.
pub struct RegisterStep<D: RouterTypes> {
    build: Build,
    chooser: Option<D::KvChooser>,
    client: Arc<D::Client>,
}

impl<D: RouterTypes> RegisterStep<D> {
    #[verifier::type_invariant]
    spec fn has_a_chooser_for_kv(self) -> bool {
        self.chooser is Some <==> self.build.router_mode.routes_by_kv()
    }

    /// What is being built for.
    pub closed spec fn target(self) -> Target {
        self.build.target()
    }

    /// The chooser, for KV routing.
    pub closed spec fn chooser(self) -> Option<D::KvChooser> {
        self.chooser
    }

    /// The client.
    pub closed spec fn client(self) -> Arc<D::Client> {
        self.client
    }

    /// Says what to register, before a push router is made around the same client.
    pub fn register(self) -> (registered: (Registration<D>, PushStep<D>))
        ensures
            registered.0.model_name@ == self.target().model_name,
            registered.0.namespace@ == self.target().namespace,
            registered.0.client == self.client(),
            registered.1.target() == self.target(),
            registered.1.chooser() == self.chooser(),
            registered.1.client() == self.client(),
    {
        proof {
            use_type_invariant(&self);
        }
        let registration = Registration {
            model_name: self.build.model_name.clone(),
            namespace: self.build.namespace.clone(),
            client: self.client.clone(),
        };
        (registration, PushStep { build: self.build, chooser: self.chooser, client: self.client })
    }
}

/// A push router has to be made.
pub struct PushStep<D: RouterTypes> {
    build: Build,
    chooser: Option<D::KvChooser>,
    client: Arc<D::Client>,
}

/// What comes after a push router was made.
pub enum Pushed<D: RouterTypes> {
    /// It has to be wrapped, together with the chooser, into a KV-aware router.
    Wrap { push_router: D::PushRouter, chooser: D::KvChooser, pending: WrapStep },
    /// The inner router is built.
    Built(BuiltRouter<D>),
}

impl<D: RouterTypes> PushStep<D> {
    #[verifier::type_invariant]
    spec fn has_a_chooser_for_kv(self) -> bool {
        self.chooser is Some <==> self.build.router_mode.routes_by_kv()
    }

    /// What is being built for.
    pub closed spec fn target(self) -> Target {
        self.build.target()
    }

    /// The chooser, for KV routing.
    pub closed spec fn chooser(self) -> Option<D::KvChooser> {
        self.chooser
    }

    /// The client.
    pub closed spec fn client(self) -> Arc<D::Client> {
        self.client
    }

    /// The client around which the push router is made, and the mode of the push router.
    pub fn push_settings(&self) -> (settings: (Arc<D::Client>, RouterMode))
        ensures
            settings.0 == self.client(),
            settings.1 == self.target().router_mode,
    {
        (self.client.clone(), self.build.router_mode)
    }

    /// Takes the push router, or the error with which it could not be made.
    pub fn made(self, push_router: Result<D::PushRouter, D::Cause>) -> (next: Result<
        Pushed<D>,
        D::Cause,
    >)
        ensures
            match push_router {
                Ok(push_router) => match self.chooser() {
                    Some(chooser) => {
                        &&& next matches Ok(
                            Pushed::Wrap { push_router: wrapped, chooser: around, pending },
                        )
                        &&& wrapped == push_router
                        &&& around == chooser
                        &&& pending.target() == self.target()
                    },
                    None => {
                        &&& next matches Ok(Pushed::Built(built))
                        &&& built.inner() == InnerPrefillRouter::<D>::SimpleRouter(
                            Arc::new(push_router),
                        )
                        &&& built.target() == self.target()
                    },
                },
                Err(cause) => next == Err::<Pushed<D>, D::Cause>(cause),
            },
    {
        proof {
            use_type_invariant(&self);
        }
        match push_router {
            Ok(push_router) => Ok(
                match self.chooser {
                    Some(chooser) => Pushed::Wrap {
                        push_router,
                        chooser,
                        pending: WrapStep { build: self.build },
                    },
                    None => Pushed::Built(
                        BuiltRouter {
                            build: self.build,
                            inner: InnerPrefillRouter::SimpleRouter(Arc::new(push_router)),
                        },
                    ),
                },
            ),
            Err(cause) => Err(cause),
        }
    }
}

/// A push router and a chooser have to be wrapped into a KV-aware router.
pub struct WrapStep {
    build: Build,
}

impl WrapStep {
    #[verifier::type_invariant]
    spec fn routes_by_kv(self) -> bool {
        self.build.router_mode.routes_by_kv()
    }

    /// What is being built for.
    pub closed spec fn target(self) -> Target {
        self.build.target()
    }

    /// Takes the KV-aware router.
    pub fn wrapped<D: RouterTypes>(self, kv_router: D::KvPushRouter) -> (built: BuiltRouter<D>)
        ensures
            built.inner() == InnerPrefillRouter::<D>::KvRouter(Arc::new(kv_router)),
            built.target() == self.target(),
    {
        proof {
            use_type_invariant(&self);
        }
        BuiltRouter {
            build: self.build,
            inner: InnerPrefillRouter::KvRouter(Arc::new(kv_router)),
        }
    }
}

/// An inner router that was built for a prefill router.
pub struct BuiltRouter<D: RouterTypes> {
    build: Build,
    inner: InnerPrefillRouter<D>,
}

impl<D: RouterTypes> BuiltRouter<D> {
    #[verifier::type_invariant]
    spec fn fits_its_mode(self) -> bool {
        self.inner.fits(self.build.router_mode)
    }

    /// What it was built for.
    pub closed spec fn target(self) -> Target {
        self.build.target()
    }

    /// The inner router.
    pub closed spec fn inner(self) -> InnerPrefillRouter<D> {
        self.inner
    }

    /// Whether it was built for `router`.
    pub fn is_for(&self, router: &PrefillRouter<D>) -> (same: bool)
        ensures
            same == (self.target() == router@.target()),
    {
        self.build.router_mode == router.router_mode() && self.build.model_name == text(
            router.model_name(),
        ) && self.build.namespace == text(router.namespace())
    }

    /// Hands the inner router over.
    pub(crate) fn into_inner(self) -> (inner: InnerPrefillRouter<D>)
        ensures
            inner == self.inner(),
            inner.fits(self.target().router_mode),
    {
        proof {
            use_type_invariant(&self);
        }
        self.inner
    }
}

/// What an inner router is built for tells routers apart by their mode and by each of their names,
/// and by nothing else.
pub proof fn law_target_is_mode_and_names<D: RouterTypes>(
    router: RouterView<D>,
    other: RouterView<D>,
)
    ensures
        router.target().router_mode == router.router_mode,
        router.target().model_name == router.model_name,
        router.target().namespace == router.namespace,
        router.target() == other.target() <==> router.router_mode == other.router_mode
            && router.model_name == other.model_name && router.namespace == other.namespace,
{
}

/// A plan is for one target only, and is a KV-aware router exactly in KV mode. Such a plan makes
/// its chooser with the settings it was given.
pub proof fn law_plan_follows_the_mode<D: RouterTypes>(
    plan: RouterPlan<D>,
    target: Target,
    settings: ChooserSettings<D>,
)
    ensures
        target.router_mode == RouterMode::KV ==> (plan.builds(target, settings) <==> {
            &&& plan matches RouterPlan::KvRouter(step)
            &&& step.target() == target
            &&& step.settings() == settings
        }),
        target.router_mode != RouterMode::KV ==> (plan.builds(target, settings) <==> {
            &&& plan matches RouterPlan::SimpleRouter(step)
            &&& step.target() == target
        }),
{
}

} // verus!
