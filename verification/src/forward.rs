//! The keystroke forwarder: the substitute key-down/key-up pair that the
//! pump thread posts to the target window when the hotkey fires.
//!
//! Posting is fire-and-forget. This module only plans the messages; the
//! unverified binary posts each planned message to the window, logging and
//! ignoring delivery failures.

use vstd::prelude::*;
use crate::filter::is_target_spec;
use crate::filter::is_target;

verus! {

/// Numeric identifier of a key-down message.
pub const MSG_KEY_DOWN: u32 = 0x0100;

/// Numeric identifier of a key-up message.
pub const MSG_KEY_UP: u32 = 0x0101;

/// Virtual-key code of the backtick key, the key the hotkey stands in for.
pub const VK_BACKTICK: usize = 0xC0;

/// Key-message flags word: repeat count one in the low half, and a fixed
/// non-extended scan code in the byte above it.
pub const KEYSTROKE_FLAGS: u32 = 0x2_0001;

/// One keyboard message to post to a window.
#[derive(Debug, Clone, Copy, PartialEq, Eq, Structural)]
pub struct KeyMessage {
    /// Handle of the window the message is addressed to.
    pub window: usize,
    /// Message number: key-down or key-up.
    pub message: u32,
    /// Virtual-key code carried in the word-sized parameter.
    pub key: usize,
    /// Repeat-count and scan-code bit pattern.
    pub flags: u32,
}

/// The key-down half of the substitute keystroke for a window.
pub open spec fn key_down_msg(hwnd: usize) -> KeyMessage {
    KeyMessage { window: hwnd, message: MSG_KEY_DOWN, key: VK_BACKTICK, flags: KEYSTROKE_FLAGS }
}

/// The key-up half of the substitute keystroke for a window.
pub open spec fn key_up_msg(hwnd: usize) -> KeyMessage {
    KeyMessage { window: hwnd, message: MSG_KEY_UP, key: VK_BACKTICK, flags: KEYSTROKE_FLAGS }
}

/// The substitute keystroke for a target window: exactly one key-down
/// followed by one key-up for the backtick key.
pub fn forward_plan(hwnd: usize) -> (msgs: Vec<KeyMessage>)
    requires
        hwnd != 0,
    ensures
        msgs@ == seq![key_down_msg(hwnd), key_up_msg(hwnd)],
{
    let mut msgs: Vec<KeyMessage> = Vec::new();
    msgs.push(KeyMessage { window: hwnd, message: MSG_KEY_DOWN, key: VK_BACKTICK, flags: KEYSTROKE_FLAGS });
    msgs.push(KeyMessage { window: hwnd, message: MSG_KEY_UP, key: VK_BACKTICK, flags: KEYSTROKE_FLAGS });
    proof {
        assert(msgs@ =~= seq![key_down_msg(hwnd), key_up_msg(hwnd)]);
    }
    msgs
}

/// Everything the hotkey triggers, as data: when the window is the
/// forwarding target, exactly the key-down/key-up pair addressed to it, in
/// that order; otherwise nothing.
pub fn hotkey_response(hwnd: usize, title: &str) -> (msgs: Vec<KeyMessage>)
    ensures
        is_target_spec(hwnd, title@) ==> msgs@ == seq![key_down_msg(hwnd), key_up_msg(hwnd)],
        !is_target_spec(hwnd, title@) ==> msgs@ == Seq::<KeyMessage>::empty(),
{
    if is_target(hwnd, title) {
        forward_plan(hwnd)
    } else {
        let msgs: Vec<KeyMessage> = Vec::new();
        proof {
            assert(msgs@ =~= Seq::<KeyMessage>::empty());
        }
        msgs
    }
}

} // verus!
