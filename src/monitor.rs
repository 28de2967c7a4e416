//! The monitor handle a caller holds, and the context that the hidden
//! window's message procedure sends events through.
use vstd::prelude::*;

use crate::channel;
use crate::event::SystemEvent;
use crate::message::{handle_message, outcome_of, MessageOutcome};

verus! {

/// Reading the events of a device monitor.
pub trait Monitor: Sized {
    /// Gives up the handle for the receiving end of its event channel.
    fn into_inner(self) -> crossbeam_channel::Receiver<SystemEvent>;

    /// The next queued event, or `None` at once when there is none.
    fn try_recv(&self) -> Option<SystemEvent>;

    /// Waits for the next event, at most `timeout` when one is given;
    /// `None` on timeout or when the producer is gone.
    fn recv(&self, timeout: Option<std::time::Duration>) -> Option<SystemEvent>;
}

/// A monitor backed by a hidden native window whose thread sends the events.
///
/// Clones share one channel: each event reaches one of them.
#[derive(Clone)]
pub struct WindowsSystemMonitor {
    window_hwnd: isize,
    event_receiver: crossbeam_channel::Receiver<SystemEvent>,
}

/// The monitor of the platform this library is built for.
pub type SystemMonitor = WindowsSystemMonitor;

impl WindowsSystemMonitor {
    /// The native identifier of the hidden window, in contracts.
    pub closed spec fn window(&self) -> isize {
        self.window_hwnd
    }

    /// The receiving end of the event channel, in contracts.
    pub closed spec fn receiver(&self) -> crossbeam_channel::Receiver<SystemEvent> {
        self.event_receiver
    }

    /// A handle on the window `window_hwnd`, reading the events from `event_receiver`.
    pub fn new(window_hwnd: isize, event_receiver: crossbeam_channel::Receiver<SystemEvent>) -> (r: Self)
        ensures
            r.window() == window_hwnd,
            r.receiver() == event_receiver,
    {
        WindowsSystemMonitor { window_hwnd, event_receiver }
    }

    /// The native identifier of the hidden window.
    pub fn window_hwnd(&self) -> (r: isize)
        ensures
            r == self.window(),
    {
        self.window_hwnd
    }

    /// The receiving end of the event channel, borrowed.
    pub fn recv_ref(&self) -> (r: &crossbeam_channel::Receiver<SystemEvent>)
        ensures
            *r == self.receiver(),
    {
        &self.event_receiver
    }
}

impl Monitor for WindowsSystemMonitor {
    fn into_inner(self) -> (r: crossbeam_channel::Receiver<SystemEvent>)
        ensures
            r == self.receiver(),
    {
        self.event_receiver
    }

    fn try_recv(&self) -> (r: Option<SystemEvent>) {
        channel::try_recv(&self.event_receiver)
    }

    fn recv(&self, timeout: Option<std::time::Duration>) -> (r: Option<SystemEvent>) {
        match timeout {
            Some(d) => channel::recv_timeout(&self.event_receiver, d),
            None => channel::recv(&self.event_receiver),
        }
    }
}

/// The context attached to the hidden window: the sending end of the event channel.
pub struct SubclassInput {
    event_sender: crossbeam_channel::Sender<SystemEvent>,
}

impl SubclassInput {
    /// The sending end of the event channel, in contracts.
    pub closed spec fn sender(&self) -> crossbeam_channel::Sender<SystemEvent> {
        self.event_sender
    }

    /// A context that sends through `event_sender`.
    pub fn new(event_sender: crossbeam_channel::Sender<SystemEvent>) -> (r: Self)
        ensures
            r.sender() == event_sender,
    {
        SubclassInput { event_sender }
    }

    /// Sends one event without blocking; when the channel is full the event is dropped.
    pub fn send(&self, event: SystemEvent) {
        let _accepted = channel::try_send(&self.event_sender, event);
    }

    /// Handles one window message: a device-change notification is classified,
    /// its event, if any, sent, and the message answered as handled; any other
    /// message is to be forwarded.
    pub fn handle(&self, msg: u32, wparam: usize) -> (r: MessageOutcome)
        ensures
            r == outcome_of(msg, wparam),
    {
        let outcome = handle_message(msg, wparam);
        match outcome {
            MessageOutcome::Handled(Some(e)) => self.send(e),
            _ => {},
        }
        outcome
    }
}

} // verus!
