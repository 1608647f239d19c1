//! What holds of a prefill router over every history of lifecycle events.

use crate::activation::Activation;
use crate::generate::Admission;
use crate::prefill_router::{InnerPrefillRouter, PrefillState, RouterView};
use crate::protocols::{EndpointId, RouterMode, RouterTypes};
use vstd::prelude::*;

verus! {

/// Something that happens to a prefill router.
pub enum LifecycleEvent<D: RouterTypes> {
    /// It received the endpoint of prefill workers.
    EndpointReceived(EndpointId),
    /// The runtime configuration under that endpoint is being watched.
    Watched,
    /// It gave up waiting for the endpoint of prefill workers.
    GaveUp,
    /// Its activation ended with this inner router.
    Activated(InnerPrefillRouter<D>),
    /// Its activation failed.
    Failed,
    /// All its prefill workers were removed.
    Deactivated,
}

impl<D: RouterTypes> RouterView<D> {
    /// The router after `event`.
    pub open spec fn after(self, event: LifecycleEvent<D>) -> RouterView<D> {
        match event {
            LifecycleEvent::EndpointReceived(endpoint_id) => RouterView {
                activation: match self.activation {
                    Activation::Waiting(settings) => Activation::Watching(settings),
                    other => other,
                },
                endpoint_id: Some(endpoint_id),
                ..self
            },
            LifecycleEvent::Watched => RouterView { activation: Activation::Building, ..self },
            LifecycleEvent::Activated(inner) => RouterView {
                state: PrefillState::Active(inner),
                activation: Activation::Over,
                ..self
            },
            LifecycleEvent::GaveUp | LifecycleEvent::Failed => RouterView {
                activation: Activation::Over,
                ..self
            },
            LifecycleEvent::Deactivated => RouterView {
                state: if self.was_ever_activated() {
                    PrefillState::Deactivated
                } else {
                    self.state
                },
                endpoint_id: None,
                ..self
            },
        }
    }

    /// The router after all of `events`, in order.
    pub open spec fn after_all(self, events: Seq<LifecycleEvent<D>>) -> RouterView<D>
        decreases events.len(),
    {
        if events.len() == 0 {
            self
        } else {
            self.after_all(events.drop_last()).after(events.last())
        }
    }

    /// `event` can happen to this router. This is what the functions that make it happen require.
    pub open spec fn admits(self, event: LifecycleEvent<D>) -> bool {
        match event {
            LifecycleEvent::EndpointReceived(_) | LifecycleEvent::GaveUp => {
                self.activation is Waiting
            },
            LifecycleEvent::Activated(inner) => {
                &&& self.activation is Building
                &&& inner.fits(self.router_mode)
            },
            LifecycleEvent::Watched => self.activation is Watching,
            LifecycleEvent::Failed => {
                self.activation is Watching || self.activation is Building
            },
            LifecycleEvent::Deactivated => true,
        }
    }

    /// `events` can happen to this router, in order.
    pub open spec fn can_undergo(self, events: Seq<LifecycleEvent<D>>) -> bool
        decreases events.len(),
    {
        events.len() > 0 ==> {
            &&& self.can_undergo(events.drop_last())
            &&& self.after_all(events.drop_last()).admits(events.last())
        }
    }
}

/// The events hold an activation.
pub open spec fn activates<D: RouterTypes>(events: Seq<LifecycleEvent<D>>) -> bool {
    exists|i: int| 0 <= i < events.len() && #[trigger] events[i] is Activated
}

/// The events hold a removal of all prefill workers.
pub open spec fn deactivates<D: RouterTypes>(events: Seq<LifecycleEvent<D>>) -> bool {
    exists|i: int| 0 <= i < events.len() && #[trigger] events[i] is Deactivated
}

/// The settings of a router never change: its mode, whether disaggregation is enforced, and its
/// names.
pub proof fn law_settings_stay<D: RouterTypes>(
    router: RouterView<D>,
    events: Seq<LifecycleEvent<D>>,
)
    ensures
        router.after_all(events).router_mode == router.router_mode,
        router.after_all(events).enforce_disagg == router.enforce_disagg,
        router.after_all(events).model_name == router.model_name,
        router.after_all(events).namespace == router.namespace,
    decreases events.len(),
{
    if events.len() > 0 {
        law_settings_stay(router, events.drop_last());
    }
}

/// A router stays well-formed, whatever happens to it. In particular, while active it goes through
/// an inner router that fits its mode.
pub proof fn law_stays_well_formed<D: RouterTypes>(
    router: RouterView<D>,
    events: Seq<LifecycleEvent<D>>,
)
    requires
        router.well_formed(),
        router.can_undergo(events),
    ensures
        router.after_all(events).well_formed(),
    decreases events.len(),
{
    if events.len() > 0 {
        law_stays_well_formed(router, events.drop_last());
    }
}

/// A passthrough is permanent: it never becomes active and never counts as having been so, and it
/// serves every request in aggregated mode, whether or not disaggregation is enforced and whatever
/// happens to it.
pub proof fn law_passthrough_is_permanent<D: RouterTypes>(
    router: RouterView<D>,
    events: Seq<LifecycleEvent<D>>,
    query_only: bool,
)
    requires
        router.well_formed(),
        router.can_undergo(events),
        router.state is Passthrough,
    ensures
        ({
            let later = router.after_all(events);
            &&& later.state is Passthrough
            &&& !later.is_activated()
            &&& !later.was_ever_activated()
            &&& later.endpoint_id is None
            &&& later.can_serve_requests()
            &&& later.admission(query_only) is PassThrough
        }),
    decreases events.len(),
{
    if events.len() > 0 {
        law_passthrough_is_permanent(router, events.drop_last(), query_only);
        law_stays_well_formed(router, events.drop_last());
    }
}

/// A router says that it was activated exactly if it was, whatever else happened to it.
pub proof fn law_was_ever_activated<D: RouterTypes>(
    router: RouterView<D>,
    events: Seq<LifecycleEvent<D>>,
)
    ensures
        router.after_all(events).was_ever_activated() <==> router.was_ever_activated()
            || activates(events),
    decreases events.len(),
{
    if events.len() > 0 {
        let before = events.drop_last();
        assert(events[events.len() - 1] == events.last());
        law_was_ever_activated(router, before);
        if activates(before) {
            let i = choose|i: int| 0 <= i < before.len() && #[trigger] before[i] is Activated;
            assert(events[i] is Activated);
        }
        if activates(events) && !(events.last() is Activated) {
            let i = choose|i: int| 0 <= i < events.len() && #[trigger] events[i] is Activated;
            assert(before[i] is Activated);
        }
    }
}

/// Once prefill workers were discovered, the router keeps saying so.
pub proof fn law_activation_is_remembered<D: RouterTypes>(
    router: RouterView<D>,
    events: Seq<LifecycleEvent<D>>,
)
    requires
        router.was_ever_activated(),
    ensures
        router.after_all(events).was_ever_activated(),
{
    law_was_ever_activated(router, events);
}

/// A router that was never activated can serve, whether or not disaggregation is enforced and
/// whatever else happened to it.
pub proof fn law_never_activated_serves<D: RouterTypes>(
    router: RouterView<D>,
    events: Seq<LifecycleEvent<D>>,
)
    requires
        !router.was_ever_activated(),
        !activates(events),
    ensures
        router.after_all(events).can_serve_requests(),
        !router.after_all(events).is_activated(),
{
    law_was_ever_activated(router, events);
}

/// A router that can serve goes on doing so as long as its prefill workers do not go away.
pub proof fn law_serves_unless_deactivated<D: RouterTypes>(
    router: RouterView<D>,
    events: Seq<LifecycleEvent<D>>,
)
    requires
        router.can_serve_requests(),
        !deactivates(events),
    ensures
        router.after_all(events).can_serve_requests(),
    decreases events.len(),
{
    if events.len() > 0 {
        let before = events.drop_last();
        assert(!deactivates(before)) by {
            if deactivates(before) {
                let i = choose|i: int| 0 <= i < before.len() && #[trigger] before[i] is Deactivated;
                assert(events[i] is Deactivated);
            }
        }
        law_serves_unless_deactivated(router, before);
        assert(events[events.len() - 1] == events.last());
    }
}

/// Without enforced disaggregation a router can serve after every history.
pub proof fn law_fallback_always_serves<D: RouterTypes>(
    router: RouterView<D>,
    events: Seq<LifecycleEvent<D>>,
)
    requires
        !router.enforce_disagg,
    ensures
        router.after_all(events).can_serve_requests(),
{
    law_settings_stay(router, events);
}

/// An activation that is over stays over.
proof fn lemma_over_stays<D: RouterTypes>(
    router: RouterView<D>,
    events: Seq<LifecycleEvent<D>>,
    at: int,
)
    requires
        0 <= at <= events.len(),
        router.can_undergo(events),
        router.after_all(events.take(at)).activation is Over,
    ensures
        router.after_all(events).activation is Over,
        forall|i: int| at <= i < events.len() ==> #[trigger] events[i] is Deactivated,
    decreases events.len(),
{
    if at == events.len() {
        assert(events.take(at) =~= events);
    } else {
        let before = events.drop_last();
        assert(before.take(at) =~= events.take(at));
        lemma_over_stays(router, before, at);
        assert forall|i: int|
            at <= i < events.len() implies #[trigger] events[i] is Deactivated by {
            if i < before.len() {
                assert(before[i] is Deactivated);
            }
        }
    }
}

/// What the prefix of a history that ends with its event `at` leaves behind.
proof fn lemma_prefix<D: RouterTypes>(
    router: RouterView<D>,
    events: Seq<LifecycleEvent<D>>,
    at: int,
)
    requires
        0 <= at < events.len(),
    ensures
        router.after_all(events.take(at + 1)) == router.after_all(events.take(at)).after(
            events[at],
        ),
{
    assert(events.take(at + 1).drop_last() =~= events.take(at));
}

/// A history that can happen is one whose every prefix can happen.
proof fn lemma_prefix_can_happen<D: RouterTypes>(
    router: RouterView<D>,
    events: Seq<LifecycleEvent<D>>,
    at: int,
)
    requires
        0 <= at <= events.len(),
        router.can_undergo(events),
    ensures
        router.can_undergo(events.take(at)),
    decreases events.len(),
{
    if at == events.len() {
        assert(events.take(at) =~= events);
    } else {
        assert(events.drop_last().take(at) =~= events.take(at));
        lemma_prefix_can_happen(router, events.drop_last(), at);
    }
}

/// A router is activated at most once over its life, and nothing but the removal of its prefill
/// workers happens to it after that.
pub proof fn law_activated_at_most_once<D: RouterTypes>(
    router: RouterView<D>,
    events: Seq<LifecycleEvent<D>>,
    activated: int,
    later: int,
)
    requires
        router.can_undergo(events),
        0 <= activated < later < events.len(),
        events[activated] is Activated,
    ensures
        events[later] is Deactivated,
{
    lemma_prefix(router, events, activated);
    lemma_over_stays(router, events, activated + 1);
}

/// A router becomes active only after it received an endpoint and, after that, the runtime
/// configuration under the endpoint was watched, so that bootstrap addresses are known. The inner
/// router that makes it active fits its mode.
pub proof fn law_watched_before_activated<D: RouterTypes>(
    router: RouterView<D>,
    events: Seq<LifecycleEvent<D>>,
    activated: int,
) -> (found: (int, int))
    requires
        router.can_undergo(events),
        router.activation is Disabled || router.activation is Waiting,
        0 <= activated < events.len(),
        events[activated] is Activated,
    ensures
        0 <= found.0 < found.1 < activated,
        events[found.0] is EndpointReceived,
        events[found.1] is Watched,
        events[activated] matches LifecycleEvent::Activated(inner) && inner.fits(
            router.router_mode,
        ),
{
    lemma_prefix_can_happen(router, events, activated + 1);
    assert(events.take(activated + 1).drop_last() =~= events.take(activated));
    law_settings_stay(router, events.take(activated));
    lemma_prefix_can_happen(router, events, activated);
    let watched = lemma_building_follows_a_watch(router, events.take(activated));
    lemma_prefix_can_happen(router, events, watched + 1);
    assert(events.take(watched + 1).drop_last() =~= events.take(watched));
    let received = lemma_watching_follows_an_endpoint(router, events.take(watched));
    (received, watched)
}

/// The inner router is being built only where the runtime configuration was watched.
proof fn lemma_building_follows_a_watch<D: RouterTypes>(
    router: RouterView<D>,
    events: Seq<LifecycleEvent<D>>,
) -> (watched: int)
    requires
        !(router.activation is Building),
        router.after_all(events).activation is Building,
    ensures
        0 <= watched < events.len(),
        events[watched] is Watched,
    decreases events.len(),
{
    if events.last() is Watched {
        events.len() - 1
    } else {
        lemma_building_follows_a_watch(router, events.drop_last())
    }
}

/// The runtime configuration is to be watched only where the endpoint was received.
proof fn lemma_watching_follows_an_endpoint<D: RouterTypes>(
    router: RouterView<D>,
    events: Seq<LifecycleEvent<D>>,
) -> (received: int)
    requires
        !(router.activation is Watching),
        router.after_all(events).activation is Watching,
    ensures
        0 <= received < events.len(),
        events[received] is EndpointReceived,
    decreases events.len(),
{
    if events.last() is EndpointReceived {
        events.len() - 1
    } else {
        lemma_watching_follows_an_endpoint(router, events.drop_last())
    }
}

/// An activated router goes through the inner router of its activation, and takes every request
/// to it, until its prefill workers are removed.
pub proof fn law_active_until_removed<D: RouterTypes>(
    router: RouterView<D>,
    events: Seq<LifecycleEvent<D>>,
    activated: int,
    inner: InnerPrefillRouter<D>,
)
    requires
        router.can_undergo(events),
        0 <= activated < events.len(),
        events[activated] == LifecycleEvent::Activated(inner),
        forall|i: int| activated < i < events.len() ==> !(#[trigger] events[i] is Deactivated),
    ensures
        router.after_all(events).current_router() == Some(inner),
        router.after_all(events).admission(false) is Prefill,
        router.after_all(events).admission(true) is Query,
{
    if activated < events.len() - 1 {
        law_activated_at_most_once(router, events, activated, events.len() - 1);
    }
}

/// A router that gave up, or whose activation failed, stays as it is: it is not activated later,
/// and goes on waiting for prefill workers without another attempt. Being never activated, it can
/// serve.
pub proof fn law_unfinished_activation_is_final<D: RouterTypes>(
    router: RouterView<D>,
    events: Seq<LifecycleEvent<D>>,
    ended: int,
)
    requires
        router.well_formed(),
        router.can_undergo(events),
        0 <= ended < events.len(),
        events[ended] is Failed || events[ended] is GaveUp,
    ensures
        router.after_all(events).state is AwaitingPrefill,
        router.after_all(events).can_serve_requests(),
    decreases events.len(),
{
    let before = events.drop_last();
    law_stays_well_formed(router, before);
    assert(events[events.len() - 1] == events.last());
    if ended < before.len() {
        assert(before[ended] == events[ended]);
        law_unfinished_activation_is_final(router, before, ended);
        lemma_prefix(router, events, ended);
        lemma_over_stays(router, events, ended + 1);
    }
}

/// A removal of prefill workers after an activation leaves the router inactive, with the record of
/// its activation and without an endpoint. It can serve exactly if disaggregation is not enforced:
/// its requests fall back to aggregated serving, or fail if that is not allowed.
pub proof fn law_deactivated<D: RouterTypes>(
    router: RouterView<D>,
    events: Seq<LifecycleEvent<D>>,
    query_only: bool,
)
    requires
        router.after_all(events).was_ever_activated(),
    ensures
        ({
            let gone = router.after_all(events.push(LifecycleEvent::Deactivated));
            &&& !gone.is_activated()
            &&& gone.was_ever_activated()
            &&& gone.endpoint_id is None
            &&& gone.current_router() is None
            &&& gone.can_serve_requests() == !router.enforce_disagg
            &&& gone.admission(query_only) == if router.enforce_disagg {
                Admission::Reject
            } else {
                Admission::PassThrough
            }
        }),
{
    assert(events.push(LifecycleEvent::Deactivated).drop_last() =~= events);
    law_settings_stay(router, events);
}

/// Deactivating twice is deactivating once.
pub proof fn law_deactivate_is_idempotent<D: RouterTypes>(router: RouterView<D>)
    ensures
        router.after(LifecycleEvent::Deactivated).after(LifecycleEvent::Deactivated)
            == router.after(LifecycleEvent::Deactivated),
{
}

/// A router whose prefill workers were removed after it was activated stays deactivated.
pub proof fn law_deactivation_is_final<D: RouterTypes>(
    router: RouterView<D>,
    events: Seq<LifecycleEvent<D>>,
    activated: int,
    removed: int,
)
    requires
        router.can_undergo(events),
        0 <= activated < removed < events.len(),
        events[activated] is Activated,
        events[removed] is Deactivated,
    ensures
        router.after_all(events).state is Deactivated,
        router.after_all(events).can_serve_requests() == !router.enforce_disagg,
    decreases events.len(),
{
    let before = events.drop_last();
    let last = events.len() - 1;
    law_settings_stay(router, events);
    law_activated_at_most_once(router, events, activated, last);
    assert(before[activated] is Activated);
    if removed < last {
        assert(before[removed] == events[removed]);
        law_deactivation_is_final(router, before, activated, removed);
    } else {
        law_was_ever_activated(router, before);
    }
}

/// A removal of prefill workers before the router was activated only makes it forget their
/// endpoint; an activation that is running may still end.
pub proof fn law_removal_before_activation<D: RouterTypes>(router: RouterView<D>)
    requires
        !router.was_ever_activated(),
    ensures
        router.after(LifecycleEvent::Deactivated) == (RouterView { endpoint_id: None, ..router }),
{
}

/// A router that cannot serve rejects every request: none falls back to aggregated serving, and
/// none reaches a prefill worker.
pub proof fn law_refusing_router_rejects<D: RouterTypes>(router: RouterView<D>, query_only: bool)
    requires
        !router.can_serve_requests(),
    ensures
        router.admission(query_only) is Reject,
{
}

/// With enforced disaggregation no request of a router that is not a passthrough is served in
/// aggregated mode, and without it no request is rejected on arrival, whatever happened before.
pub proof fn law_enforcement_decides_fallback<D: RouterTypes>(
    router: RouterView<D>,
    events: Seq<LifecycleEvent<D>>,
    query_only: bool,
)
    ensures
        router.enforce_disagg && !(router.state is Passthrough) ==> !(router.after_all(
            events,
        ).admission(query_only) is PassThrough),
        !router.enforce_disagg ==> !(router.after_all(events).admission(query_only) is Reject),
    decreases events.len(),
{
    law_settings_stay(router, events);
    if events.len() > 0 {
        law_enforcement_decides_fallback(router, events.drop_last(), query_only);
        law_settings_stay(router, events.drop_last());
    }
}

/// Receiving an endpoint records it, and a router that waited goes on to have its runtime
/// configuration watched, with the settings it waited with. Its state stays, in every mode.
pub proof fn law_endpoint_is_recorded<D: RouterTypes>(
    router: RouterView<D>,
    endpoint_id: EndpointId,
)
    ensures
        ({
            let later = router.after(LifecycleEvent::EndpointReceived(endpoint_id));
            &&& later.endpoint_id == Some(endpoint_id)
            &&& later.state == router.state
            &&& router.activation matches Activation::Waiting(settings) ==> later.activation
                == Activation::Watching(settings)
            &&& !(router.activation is Waiting) ==> later.activation == router.activation
        }),
{
}

/// A watched runtime configuration, a failed activation and a wait that was given up change nothing
/// but how far the activation is: the inner router is built next, or nothing is.
pub proof fn law_other_steps_change_only_the_activation<D: RouterTypes>(router: RouterView<D>)
    ensures
        ({
            let later = router.after(LifecycleEvent::Watched);
            &&& later.activation is Building
            &&& later.state == router.state
            &&& later.endpoint_id == router.endpoint_id
        }),
        ({
            let later = router.after(LifecycleEvent::Failed);
            &&& later.activation is Over
            &&& later.state == router.state
            &&& later.endpoint_id == router.endpoint_id
        }),
        ({
            let later = router.after(LifecycleEvent::GaveUp);
            &&& later.activation is Over
            &&& later.state == router.state
            &&& later.endpoint_id == router.endpoint_id
        }),
{
}

/// An activation makes the router active with the inner router that was built, in every mode, keeps
/// the endpoint that is known, and is then over.
pub proof fn law_activation_makes_active<D: RouterTypes>(
    router: RouterView<D>,
    inner: InnerPrefillRouter<D>,
)
    ensures
        ({
            let later = router.after(LifecycleEvent::Activated(inner));
            &&& later.state == PrefillState::Active(inner)
            &&& later.activation is Over
            &&& later.endpoint_id == router.endpoint_id
        }),
{
}

/// A removal of prefill workers always makes the router forget their endpoint and leaves its
/// activation alone. A router that is or was active is deactivated by it; a passthrough and a
/// router that waits stay what they are.
pub proof fn law_removal_deactivates_what_was_active<D: RouterTypes>(router: RouterView<D>)
    ensures
        ({
            let later = router.after(LifecycleEvent::Deactivated);
            &&& later.endpoint_id is None
            &&& later.activation == router.activation
            &&& router.state is Active || router.state is Deactivated ==> later.state is Deactivated
            &&& router.state is Passthrough ==> later.state is Passthrough
            &&& router.state is AwaitingPrefill ==> later.state is AwaitingPrefill
        }),
{
}

/// No event changes the mode of a router, whether disaggregation is enforced, or its names.
pub proof fn law_no_event_changes_the_settings<D: RouterTypes>(
    router: RouterView<D>,
    event: LifecycleEvent<D>,
)
    ensures
        router.after(event).router_mode == router.router_mode,
        router.after(event).enforce_disagg == router.enforce_disagg,
        router.after(event).model_name == router.model_name,
        router.after(event).namespace == router.namespace,
{
}

/// Events happen one after the other, each to the router that the earlier ones left, and each only
/// where it can happen to that router.
pub proof fn law_events_happen_in_order<D: RouterTypes>(
    router: RouterView<D>,
    events: Seq<LifecycleEvent<D>>,
    next: LifecycleEvent<D>,
)
    ensures
        router.after_all(Seq::empty()) == router,
        router.after_all(events.push(next)) == router.after_all(events).after(next),
        router.can_undergo(Seq::empty()),
        router.can_undergo(events.push(next)) <==> router.can_undergo(events) && router.after_all(
            events,
        ).admits(next),
{
    assert(events.push(next).drop_last() =~= events);
}

/// Each step of an activation can happen only at its own stage: an endpoint is received and a wait
/// given up while waiting, a configuration is watched while that is due, and only an inner router of
/// the right kind activates, while it is being built. A removal can happen at any time, a failure
/// while something is being done.
pub proof fn law_every_step_has_its_stage<D: RouterTypes>(
    router: RouterView<D>,
    endpoint_id: EndpointId,
    inner: InnerPrefillRouter<D>,
)
    ensures
        router.admits(LifecycleEvent::EndpointReceived(endpoint_id))
            <==> router.activation is Waiting,
        router.admits(LifecycleEvent::GaveUp) <==> router.activation is Waiting,
        router.admits(LifecycleEvent::Watched) <==> router.activation is Watching,
        router.admits(LifecycleEvent::Failed) <==> router.activation is Watching
            || router.activation is Building,
        router.admits(LifecycleEvent::Activated(inner)) <==> router.activation is Building && (
        inner is KvRouter <==> router.router_mode == RouterMode::KV),
        router.admits(LifecycleEvent::Deactivated),
{
}

/// A history activates or deactivates exactly if one of its events does.
pub proof fn law_histories_hold_their_events<D: RouterTypes>(
    events: Seq<LifecycleEvent<D>>,
    next: LifecycleEvent<D>,
)
    ensures
        !activates(Seq::<LifecycleEvent<D>>::empty()),
        activates(events.push(next)) <==> activates(events) || next is Activated,
        !deactivates(Seq::<LifecycleEvent<D>>::empty()),
        deactivates(events.push(next)) <==> deactivates(events) || next is Deactivated,
{
    let longer = events.push(next);
    assert(longer[events.len() as int] == next);
    if activates(events) {
        let i = choose|i: int| 0 <= i < events.len() && #[trigger] events[i] is Activated;
        assert(longer[i] is Activated);
    }
    if deactivates(events) {
        let i = choose|i: int| 0 <= i < events.len() && #[trigger] events[i] is Deactivated;
        assert(longer[i] is Deactivated);
    }
    if activates(longer) && !(next is Activated) {
        let i = choose|i: int| 0 <= i < longer.len() && #[trigger] longer[i] is Activated;
        assert(events[i] is Activated);
    }
    if deactivates(longer) && !(next is Deactivated) {
        let i = choose|i: int| 0 <= i < longer.len() && #[trigger] longer[i] is Deactivated;
        assert(events[i] is Deactivated);
    }
}

} // verus!
