//! The channel types of `tokio::sync` that appear in this crate's types.

use tokio::sync::watch;
use vstd::prelude::*;

verus! {

/// `tokio::sync::watch::Receiver`, carried as an opaque value.
#[verifier::external_type_specification]
#[verifier::external_body]
#[verifier::reject_recursive_types(T)]
pub struct ExReceiver<T>(tokio::sync::watch::Receiver<T>);

/// `tokio::sync::mpsc::UnboundedSender`, carried as an opaque value.
#[verifier::external_type_specification]
#[verifier::external_body]
#[verifier::reject_recursive_types(T)]
pub struct ExUnboundedSender<T>(tokio::sync::mpsc::UnboundedSender<T>);

/// The lists of instances that the channel behind a receiver holds in the course of its life: the
/// one it was made with, and every one that is sent on it.
pub uninterp spec fn lists_held(watcher: watch::Receiver<Vec<u64>>) -> Set<Seq<u64>>;

/// Calls `tokio::sync::watch::Receiver::borrow` and copies out the list that it shows.
///
/// Claimed of it: the list is one that the channel behind this receiver holds. Which one is left
/// unsaid, since the sending half may replace the list between two calls.
#[verifier::external_body]
pub(crate) fn latest_instances(watcher: &watch::Receiver<Vec<u64>>) -> (instances: Vec<u64>)
    ensures
        lists_held(*watcher).contains(instances@),
{
    watcher.borrow().clone()
}

} // verus!
