//! The connection fan-in queue: a bounded multi-producer/single-consumer
//! channel.  Every per-player receive task holds a sender; the match loop
//! holds the sole receiver and drains it without blocking each tick.
//!
//! The channel itself is tokio's; the items below are the trusted surface
//! through which the verified match loop touches it.  Because senders feed
//! the queue concurrently through shared handles, nothing sound can be said
//! about which events a receive returns, only about the shape of each call.

use vstd::prelude::*;

use crate::msg::ConnectionMessage;

verus! {

#[verifier::external_type_specification]
#[verifier::external_body]
#[verifier::reject_recursive_types(T)]
pub struct ExSender<T>(tokio::sync::mpsc::Sender<T>);

#[verifier::external_type_specification]
#[verifier::external_body]
#[verifier::reject_recursive_types(T)]
pub struct ExReceiver<T>(tokio::sync::mpsc::Receiver<T>);

/// Relies on tokio::sync::mpsc::channel: builds a bounded channel with the
/// given capacity; it panics only when the capacity is zero.
#[verifier::external_body]
pub(crate) fn new_event_channel(capacity: usize) -> (r: (
    tokio::sync::mpsc::Sender<ConnectionMessage>,
    tokio::sync::mpsc::Receiver<ConnectionMessage>,
))
    requires
        capacity >= 1,
{
    tokio::sync::mpsc::channel(capacity)
}

/// Relies on tokio::sync::mpsc::Receiver::try_recv: returns the next queued
/// event without ever blocking, or an error when the queue is currently
/// empty or every sender is gone.  Which event arrives depends on what the
/// concurrently running receive tasks have pushed, so nothing is promised of
/// the result.
#[verifier::external_body]
pub(crate) fn try_recv_event(
    rx: &mut tokio::sync::mpsc::Receiver<ConnectionMessage>,
) -> (r: Option<ConnectionMessage>) {
    match rx.try_recv() {
        Ok(event) => Some(event),
        Err(_) => None,
    }
}

/// Relies on tokio::sync::mpsc::Sender::clone: yields another sending handle
/// to the same channel, for a newly spawned per-player receive task.
#[verifier::external_body]
pub(crate) fn clone_event_sender(
    tx: &tokio::sync::mpsc::Sender<ConnectionMessage>,
) -> (r: tokio::sync::mpsc::Sender<ConnectionMessage>) {
    tx.clone()
}

} // verus!
