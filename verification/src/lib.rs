//! Foreground-window event monitoring and control.
//!
//! The library models the subsystem that subscribes to the window manager's
//! "foreground window changed" notifications, filters out the application's
//! own internal windows, republishes clean events to the currently live
//! monitor, and exposes a command to raise an arbitrary window handle to the
//! foreground.
//!
//! The platform subscription, the message pump thread and the channel that
//! bridges them to consumers are operating-system and runtime plumbing; an
//! embedding program performs those calls and drives the verified decision
//! functions here with the values the platform hands back.  Every filter,
//! every slot transition of the event bus, and the order in which a monitor
//! observes events are stated in contracts and proved.

pub mod bus;
pub mod cli;
pub mod commands;
pub mod event;
pub mod fmt;
pub mod hook;
pub mod laws;
pub mod provider;
pub mod text;
pub mod tray;
pub mod window;
