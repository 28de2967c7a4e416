//! What the hidden window's message procedure does with each message.
use vstd::prelude::*;

use crate::event::{classify, event_of, SystemEvent};

verus! {

/// The message that carries a device-change notification; its `wparam` holds the reason code.
pub const WM_DEVICECHANGE: u32 = 0x0219;

/// What the message procedure does with one message.
#[derive(Debug, Clone, Copy, PartialEq, Eq, Structural)]
pub enum MessageOutcome {
    /// The message is a device-change notification: it is answered as handled,
    /// after the event it gives, if any, has been sent.
    Handled(Option<SystemEvent>),
    /// Any other message goes on to the default procedure unchanged.
    Forward,
}

/// The event a device-change notification gives for its whole `wparam`, the
/// reason code: a value beyond 32 bits is no known code and gives none.
pub open spec fn event_of_wparam(wparam: usize) -> Option<SystemEvent> {
    if wparam <= 0xFFFF_FFFF {
        event_of(wparam as u32)
    } else {
        None
    }
}

/// The outcome owed for a message and its `wparam`.
pub open spec fn outcome_of(msg: u32, wparam: usize) -> MessageOutcome {
    if msg == WM_DEVICECHANGE {
        MessageOutcome::Handled(event_of_wparam(wparam))
    } else {
        MessageOutcome::Forward
    }
}

/// Decides what the message procedure does with a message.
pub fn handle_message(msg: u32, wparam: usize) -> (r: MessageOutcome)
    ensures
        r == outcome_of(msg, wparam),
{
    if msg == WM_DEVICECHANGE {
        if wparam as u64 <= 0xFFFF_FFFF {
            MessageOutcome::Handled(classify(wparam as u32))
        } else {
            MessageOutcome::Handled(None)
        }
    } else {
        MessageOutcome::Forward
    }
}

} // verus!
