//! The user-facing foreground command: wraps the controller's outcome in a
//! message naming the handle and, on failure, the reason.

use vstd::prelude::*;
use vstd::string::StringExecFns;
use crate::fmt::{decimal_string, spec_decimal};
use crate::window::Window;

verus! {

/// The message reported when raising `hwnd` succeeded.
pub open spec fn spec_success_message(hwnd: isize) -> Seq<char> {
    "Successfully set window "@ + spec_decimal(hwnd as int) + " to the foreground."@
}

/// The message reported when raising `hwnd` failed.
pub open spec fn spec_failure_message(hwnd: isize) -> Seq<char> {
    "Failed to set window "@ + spec_decimal(hwnd as int) + " to the foreground: "@
        + "Failed to set foreground window"@
}

/// Asks the foreground controller to raise `hwnd` — `raised` being the
/// window manager's answer to that call — and describes the outcome: a
/// success message, or a recoverable error naming the handle and the
/// reason.  An invalid or closed handle yields the error; nothing panics
/// and nothing else happens.
pub fn set_foreground_window(hwnd: isize, raised: bool) -> (r: Result<String, String>)
    ensures
        raised ==> (r matches Ok(m) && m@ == spec_success_message(hwnd)),
        !raised ==> (r matches Err(m) && m@ == spec_failure_message(hwnd)),
{
    match Window::set_foreground_window(hwnd, raised) {
        Ok(()) => {
            let mut m = String::from_str("Successfully set window ");
            let digits = decimal_string(hwnd);
            m.append(digits.as_str());
            m.append(" to the foreground.");
            proof {
                assert(m@ =~= spec_success_message(hwnd));
            }
            Ok(m)
        }
        Err(err) => {
            let mut m = String::from_str("Failed to set window ");
            let digits = decimal_string(hwnd);
            m.append(digits.as_str());
            m.append(" to the foreground: ");
            m.append(err.as_str());
            proof {
                assert(m@ =~= spec_failure_message(hwnd));
            }
            Err(m)
        }
    }
}

} // verus!
