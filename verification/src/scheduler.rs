//! The interface of an engine's scheduler.

use tokio::sync::{mpsc, watch};
use vstd::prelude::*;

verus! {

/// Engine-agnostic scheduler interface.
///
/// The scheduler of every engine implements this trait, so that what drives an engine can work
/// with any of them through the same functions.
pub trait SchedulerHandle: Send + Sync {
    /// A request as the scheduler takes it.
    type DirectRequest;

    /// What the scheduler reports of its load (active decode blocks and the like).
    type MockerMetrics;

    /// Sends a request to the scheduler's waiting queue.
    fn receive(&self, request: Self::DirectRequest);

    /// A clone of the channel on which requests are sent, for sending directly.
    fn request_sender(&self) -> mpsc::UnboundedSender<Self::DirectRequest>;

    /// A receiver that watches the scheduler's metrics.
    fn metrics_receiver(&self) -> watch::Receiver<Self::MockerMetrics>;
}

} // verus!
