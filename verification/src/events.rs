//! Application-level events and classification of raw queue messages.
//!
//! The message pump thread drains the native message queue and turns each
//! raw message into one of a small set of decisions: forward the hotkey,
//! notify the worker of a theme or scale change, stop pumping, or hand the
//! message back to default dispatch.

use vstd::prelude::*;

verus! {

/// Numeric identifier of a hotkey-fired queue message.
pub const MSG_HOTKEY: u32 = 0x0312;

/// Numeric identifier of a display-scaling-changed queue message.
pub const MSG_DPI_CHANGED: u32 = 0x02E0;

/// Numeric identifier of a system-colorization-changed queue message.
pub const MSG_COLOR_CHANGED: u32 = 0x0320;

/// Numeric identifier of the quit sentinel message that ends the pump loop.
pub const MSG_QUIT: u32 = 0x0012;

/// Identifier under which the process registers its single global hotkey.
/// Any value works: the process registers exactly one hotkey.
pub const HOTKEY_ID: usize = 2333;

/// Events carried from the message pump thread to the tray worker thread.
#[derive(Debug, Clone, Copy, PartialEq, Eq, PartialOrd, Ord, Structural)]
pub enum Event {
    Exit,
    AutoLaunch,
    SystemDpiChanged,
    SystemColorChanged,
}

/// What the pump thread does with one retrieved queue message.
#[derive(Debug, Clone, Copy, PartialEq, Eq, Structural)]
pub enum PumpAction {
    /// The registered hotkey fired: run the target filter and forwarder now,
    /// on this thread, before retrieving the next message.
    ForwardHotkey,
    /// Display scaling changed: post `Event::SystemDpiChanged` to the worker.
    NotifyDpiChanged,
    /// System colorization changed: post `Event::SystemColorChanged`.
    NotifyColorChanged,
    /// Anything else: hand the message to default system dispatch.
    Dispatch,
}

/// How one queue message is classified, as a function of its message number
/// and its word-sized parameter.
pub open spec fn classify_spec(message: u32, wparam: usize) -> PumpAction {
    if message == MSG_HOTKEY && wparam == HOTKEY_ID {
        PumpAction::ForwardHotkey
    } else if message == MSG_DPI_CHANGED {
        PumpAction::NotifyDpiChanged
    } else if message == MSG_COLOR_CHANGED {
        PumpAction::NotifyColorChanged
    } else {
        PumpAction::Dispatch
    }
}

/// Classify one retrieved queue message. A hotkey message is acted on only
/// when it carries the identifier this process registered.
pub fn classify_message(message: u32, wparam: usize) -> (action: PumpAction)
    ensures
        action == classify_spec(message, wparam),
{
    if message == MSG_HOTKEY && wparam == HOTKEY_ID {
        PumpAction::ForwardHotkey
    } else if message == MSG_DPI_CHANGED {
        PumpAction::NotifyDpiChanged
    } else if message == MSG_COLOR_CHANGED {
        PumpAction::NotifyColorChanged
    } else {
        PumpAction::Dispatch
    }
}

/// The event that a notification-type pump action posts to the worker.
pub open spec fn event_for_spec(action: PumpAction) -> Option<Event> {
    match action {
        PumpAction::NotifyDpiChanged => Some(Event::SystemDpiChanged),
        PumpAction::NotifyColorChanged => Some(Event::SystemColorChanged),
        _ => None,
    }
}

/// The event, if any, that the pump posts to the worker for one action.
pub fn event_for_action(action: PumpAction) -> (event: Option<Event>)
    ensures
        event == event_for_spec(action),
{
    match action {
        PumpAction::NotifyDpiChanged => Some(Event::SystemDpiChanged),
        PumpAction::NotifyColorChanged => Some(Event::SystemColorChanged),
        _ => None,
    }
}

/// Whether the pump loop stops after the message-retrieval call returned
/// `status`: zero is the quit sentinel, minus one an error state; both end
/// the loop.
pub fn pump_stops(status: i32) -> (stop: bool)
    ensures
        stop == (status == 0 || status == -1),
{
    status == 0 || status == -1
}

} // verus!
