//! Foreground-window events and the hook-side title filter.
//!
//! A notification carries an opaque window handle and the window's title at
//! capture time.  Titles containing any entry of the compiled-in ignore-list
//! (the application's own bar, popup and developer-tools windows) are
//! discarded before they ever reach the bus.

use vstd::prelude::*;
use crate::text::{contains_substr, str_contains};

verus! {

/// A foreground-window change: the window's handle and its title as captured
/// when the notification was raised.  The handle is valid only as of capture
/// time; no freshness is promised for later use.
#[derive(Debug, PartialEq, Eq)]
pub struct WindowEvent {
    pub hwnd: isize,
    pub title: String,
}

impl View for WindowEvent {
    type V = (isize, Seq<char>);

    open spec fn view(&self) -> (isize, Seq<char>) {
        (self.hwnd, self.title@)
    }
}

impl Clone for WindowEvent {
    fn clone(&self) -> (r: Self)
        ensures
            r == *self,
    {
        WindowEvent { hwnd: self.hwnd, title: self.title.clone() }
    }
}

/// A title identifying one of the application's own internal windows: it
/// contains an ignore-list entry.  The list is compiled in and immutable.
pub open spec fn spec_is_ignored(title: Seq<char>) -> bool {
    ||| contains_substr(title, "EdgeBar - macos/macos"@)
    ||| contains_substr(title, "Dropdown - EdgeBar"@)
    ||| contains_substr(title, "Tauri App"@)
    ||| contains_substr(title, "DevTools"@)
}

/// The hook-side filter: whether a captured title belongs to one of the
/// application's own windows and must be discarded before publication.
pub fn is_ignored_title(title: &str) -> (r: bool)
    ensures
        r == spec_is_ignored(title@),
{
    str_contains(title, "EdgeBar - macos/macos") || str_contains(title, "Dropdown - EdgeBar")
        || str_contains(title, "Tauri App") || str_contains(title, "DevTools")
}

/// The characters that lossy UTF-16 decoding yields for the given code
/// units.  The decoding depends on the code units alone.
pub uninterp spec fn lossy_utf16(units: Seq<u16>) -> Seq<char>;

/// Relies on `String::from_utf16_lossy`: decodes UTF-16 code units into text,
/// substituting the replacement character for invalid data.  The result is a
/// function of the code units alone, and an empty input decodes to the empty
/// string.
#[verifier::external_body]
pub(crate) fn decode_utf16_lossy(units: &[u16]) -> (r: String)
    ensures
        r@ == lossy_utf16(units@),
        units@.len() == 0 ==> r@.len() == 0,
{
    String::from_utf16_lossy(units)
}

} // verus!
