//! Arguments and responses of the provider functions that widgets may call.
//!
//! These types carry requests from the UI layer to the providers and the
//! providers' answers back; serialisation for the UI bridge is performed by
//! the embedding program on its own copies of these values.

use vstd::prelude::*;

verus! {

/// Arguments for muting or unmuting an audio device.
#[derive(Debug, PartialEq, Eq)]
pub struct SetMuteArgs {
    pub mute: bool,
    pub device_id: Option<String>,
}

impl Clone for SetMuteArgs {
    fn clone(&self) -> (r: Self)
        ensures
            r == *self,
    {
        let device_id = match &self.device_id {
            Some(id) => Some(id.clone()),
            None => None,
        };
        SetMuteArgs { mute: self.mute, device_id }
    }
}

/// A pointer interaction with a system-tray icon, forwarded to the systray
/// provider.
#[derive(Debug, PartialEq, Eq)]
pub enum SystrayFunction {
    IconHoverEnter(SystrayIconArgs),
    IconHoverLeave(SystrayIconArgs),
    IconHoverMove(SystrayIconArgs),
    IconLeftClick(SystrayIconArgs),
    IconRightClick(SystrayIconArgs),
    IconMiddleClick(SystrayIconArgs),
}

impl Clone for SystrayFunction {
    fn clone(&self) -> (r: Self)
        ensures
            r == *self,
    {
        match self {
            SystrayFunction::IconHoverEnter(args) => SystrayFunction::IconHoverEnter(args.clone()),
            SystrayFunction::IconHoverLeave(args) => SystrayFunction::IconHoverLeave(args.clone()),
            SystrayFunction::IconHoverMove(args) => SystrayFunction::IconHoverMove(args.clone()),
            SystrayFunction::IconLeftClick(args) => SystrayFunction::IconLeftClick(args.clone()),
            SystrayFunction::IconRightClick(args) => SystrayFunction::IconRightClick(args.clone()),
            SystrayFunction::IconMiddleClick(args) => SystrayFunction::IconMiddleClick(
                args.clone(),
            ),
        }
    }
}

/// The tray icon a systray function applies to.
#[derive(Debug, PartialEq, Eq)]
pub struct SystrayIconArgs {
    pub icon_id: String,
}

impl Clone for SystrayIconArgs {
    fn clone(&self) -> (r: Self)
        ensures
            r == *self,
    {
        SystrayIconArgs { icon_id: self.icon_id.clone() }
    }
}

/// A provider function's answer.
#[derive(Clone, Copy, Debug, PartialEq, Eq, Structural)]
pub enum ProviderFunctionResponse {
    Null,
}

/// The outcome of calling a provider function.
pub type ProviderFunctionResult = Result<ProviderFunctionResponse, String>;

} // verus!
