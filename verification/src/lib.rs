//! Logic core of a small tray utility that fixes `Ctrl+` backtick handling
//! for certain keyboard layouts: it intercepts a global hotkey, and when the
//! foreground window belongs to the target editor, re-posts the keystroke to
//! that window. The utility also keeps a notification-area icon in sync with
//! the system theme and display scale, and offers an auto-launch toggle and
//! an exit action from the tray menu.
//!
//! Everything here is pure decision logic: which message means what, which
//! window is the target, which keystrokes to synthesize, which icon asset to
//! show, and how the tray controller reacts to each event. The operating
//! system calls themselves (message queue, registry, tray handle,
//! auto-launch persistence) live in the unverified binary around this
//! library, which feeds plain values in and carries the decisions out.

pub mod controller;
pub mod events;
pub mod filter;
pub mod forward;
pub mod icon;

pub use controller::TrayController;
pub use events::Event;
pub use icon::IconAsset;
pub use icon::IconParam;
