//! The system-tray menu events.
//!
//! The tray icon itself and its menu are windowing plumbing wired up by the
//! embedding program; what is modelled here is the menu-event id and its
//! round trip through the menu item it is registered under.

use vstd::prelude::*;
use vstd::string::StringExecFns;
use crate::text::str_eq;

verus! {

/// An event of the system-tray menu.
#[derive(Clone, Copy, Debug, PartialEq, Eq, Structural)]
pub enum MenuEvent {
    Exit,
}

impl MenuEvent {
    /// The menu-item id under which this event is wired into the tray menu.
    pub fn to_string(&self) -> (r: String)
        ensures
            r@ == "exit"@,
    {
        String::from_str("exit")
    }

    /// Parses a menu-item id back into the event it stands for: exactly the
    /// id `exit` is accepted, anything else is rejected with an error
    /// naming the offending id.
    pub fn from_str(event: &str) -> (r: Result<MenuEvent, String>)
        ensures
            event@ == "exit"@ ==> r == Ok::<MenuEvent, String>(MenuEvent::Exit),
            event@ != "exit"@ ==> (r matches Err(m) && m@ == "Invalid menu event: "@ + event@),
    {
        if str_eq(event, "exit") {
            Ok(MenuEvent::Exit)
        } else {
            Err(String::from_str("Invalid menu event: ").concat(event))
        }
    }
}

} // verus!
