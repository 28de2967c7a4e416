//! The bounded channel that carries events from the window's thread to the
//! monitor handle, reached through `crossbeam_channel`.
//!
//! What a channel holds at a given moment depends on every thread that uses it,
//! so the contracts here promise nothing of the values that come out.
use vstd::prelude::*;

use crate::event::SystemEvent;

verus! {

#[verifier::external_type_specification]
#[verifier::external_body]
#[verifier::reject_recursive_types(T)]
pub struct ExSender<T>(crossbeam_channel::Sender<T>);

#[verifier::external_type_specification]
#[verifier::external_body]
#[verifier::reject_recursive_types(T)]
pub struct ExReceiver<T>(crossbeam_channel::Receiver<T>);

/// Relies on `Clone` for `crossbeam_channel::Receiver`: a second handle on the
/// same channel, which competes with the first for its messages.
pub assume_specification<T>[ <crossbeam_channel::Receiver<T> as Clone>::clone ](
    r: &crossbeam_channel::Receiver<T>,
) -> crossbeam_channel::Receiver<T>;

/// How many events the event channel holds before newer ones are dropped.
pub const EVENT_CHANNEL_CAPACITY: usize = 10;

/// The largest capacity this library asks of a bounded channel.
pub const MAX_CHANNEL_CAPACITY: usize = 1024;

/// The capacity of the channel that a receiver reads, as
/// `crossbeam_channel::Receiver::capacity` reports it; fixed when the channel is made.
pub uninterp spec fn capacity_of(r: crossbeam_channel::Receiver<SystemEvent>) -> Option<usize>;

/// Relies on `crossbeam_channel::bounded`: a new channel that holds at most
/// `cap` messages, whose receiver reports the capacity `Some(cap)`; it panics
/// only on a capacity too large to allocate.
#[verifier::external_body]
fn bounded_channel(cap: usize) -> (r: (crossbeam_channel::Sender<SystemEvent>, crossbeam_channel::Receiver<SystemEvent>))
    requires
        cap <= MAX_CHANNEL_CAPACITY,
    ensures
        capacity_of(r.1) == Some(cap),
{
    crossbeam_channel::bounded(cap)
}

/// Relies on `crossbeam_channel::Sender::try_send`: sends without blocking,
/// and hands the message back (here: `false`) when the channel is full or
/// every receiver is gone.
#[verifier::external_body]
pub(crate) fn try_send(s: &crossbeam_channel::Sender<SystemEvent>, e: SystemEvent) -> (accepted: bool) {
    s.try_send(e).is_ok()
}

/// Relies on `crossbeam_channel::Receiver::try_recv`: takes the oldest queued
/// message without blocking, or reports that there is none.
#[verifier::external_body]
pub(crate) fn try_recv(r: &crossbeam_channel::Receiver<SystemEvent>) -> (e: Option<SystemEvent>) {
    r.try_recv().ok()
}

/// Relies on `crossbeam_channel::Receiver::recv_timeout`: waits at most `d`
/// for a message; nothing on timeout or when every sender is gone.
#[verifier::external_body]
pub(crate) fn recv_timeout(r: &crossbeam_channel::Receiver<SystemEvent>, d: std::time::Duration) -> (e: Option<SystemEvent>) {
    r.recv_timeout(d).ok()
}

/// Relies on `crossbeam_channel::Receiver::recv`: waits for a message; nothing
/// once every sender is gone and the channel is empty.
#[verifier::external_body]
pub(crate) fn recv(r: &crossbeam_channel::Receiver<SystemEvent>) -> (e: Option<SystemEvent>) {
    r.recv().ok()
}

/// Makes the bounded channel of events: the sending end goes to the window's
/// message procedure, the receiving end to the monitor handle. A full channel
/// drops the newest event: the sender never blocks.
pub fn event_channel() -> (r: (crossbeam_channel::Sender<SystemEvent>, crossbeam_channel::Receiver<SystemEvent>))
    ensures
        capacity_of(r.1) == Some(EVENT_CHANNEL_CAPACITY),
{
    bounded_channel(EVENT_CHANNEL_CAPACITY)
}

} // verus!
