//! Device-change notifications delivered as a stream of typed events.
//!
//! The library holds the decisions: which operating-system notification
//! becomes which [`SystemEvent`], what the hidden window's message procedure
//! does with each message, and how the monitor handle reads the event channel.
//! The native window, its message loop and the thread that runs it live with
//! the application.
pub mod channel;
pub mod event;
pub mod message;
pub mod monitor;
pub mod wide;

pub use channel::{event_channel, EVENT_CHANNEL_CAPACITY};
pub use event::{classify, classify_all, SystemEvent};
pub use message::{handle_message, MessageOutcome, WM_DEVICECHANGE};
pub use monitor::{Monitor, SubclassInput, SystemMonitor, WindowsSystemMonitor};
pub use wide::encode_wide;
