//! The command-line data model.
//!
//! These types carry the parsed command line into the application.  Parsing
//! itself — flag names, help text, exit-on-error behaviour — is argument
//! plumbing performed by the embedding program, which hands a `Cli` value
//! over; the types here hold what that value means.  File paths are carried
//! as plain text, and a length argument keeps the exact text it was given
//! (interpreting it involves floating point and is left to the consumer).

use vstd::prelude::*;

verus! {

/// The parsed command line: the subcommand, if one was given.
#[derive(Debug, PartialEq, Eq)]
pub struct Cli {
    command: Option<CliCommand>,
}

impl Cli {
    /// The subcommand as given.
    pub closed spec fn spec_command(&self) -> Option<CliCommand> {
        self.command
    }

    /// Wraps an already-parsed command line.
    pub fn new(command: Option<CliCommand>) -> (c: Cli)
        ensures
            c.spec_command() == command,
    {
        Cli { command }
    }

    /// The subcommand to run: the one given, or `Empty` when the program
    /// was launched with no arguments.
    pub fn command(&self) -> (c: CliCommand)
        ensures
            self.spec_command() matches Some(cc) ==> c == cc,
            self.spec_command() is None ==> c == CliCommand::Empty,
    {
        match &self.command {
            Some(c) => c.clone(),
            None => CliCommand::Empty,
        }
    }
}

/// A subcommand of the application.
#[derive(Debug, PartialEq, Eq)]
pub enum CliCommand {
    /// Opens a widget by its config path and chosen placement.
    StartWidget(StartWidgetArgs),
    /// Opens a widget by its config path and a preset name.
    StartWidgetPreset(StartWidgetPresetArgs),
    /// Opens all widgets that are set to launch on startup.
    Startup(StartupArgs),
    /// Retrieves and outputs a specific part of the state.
    Query(QueryArgs),
    /// Used when the application is launched with no arguments.
    Empty,
}

impl Clone for CliCommand {
    fn clone(&self) -> (r: Self)
        ensures
            r == *self,
    {
        match self {
            CliCommand::StartWidget(args) => CliCommand::StartWidget(args.clone()),
            CliCommand::StartWidgetPreset(args) => CliCommand::StartWidgetPreset(args.clone()),
            CliCommand::Startup(args) => CliCommand::Startup(args.clone()),
            CliCommand::Query(args) => CliCommand::Query(*args),
            CliCommand::Empty => CliCommand::Empty,
        }
    }
}

/// Arguments for opening a widget with an explicit placement.
#[derive(Debug, PartialEq, Eq)]
pub struct StartWidgetArgs {
    /// Relative file path to the widget config within the application's
    /// config directory, as text.
    pub config_path: String,
    /// Anchor-point of the widget.
    pub anchor: AnchorPoint,
    /// Offset from the anchor-point.
    pub offset_x: LengthValue,
    /// Offset from the anchor-point.
    pub offset_y: LengthValue,
    /// Width of the widget in % or physical pixels.
    pub width: LengthValue,
    /// Height of the widget in % or physical pixels.
    pub height: LengthValue,
    /// Monitor(s) to place the widget on.
    pub monitor_type: MonitorType,
}

impl Clone for StartWidgetArgs {
    fn clone(&self) -> (r: Self)
        ensures
            r == *self,
    {
        StartWidgetArgs {
            config_path: self.config_path.clone(),
            anchor: self.anchor,
            offset_x: self.offset_x.clone(),
            offset_y: self.offset_y.clone(),
            width: self.width.clone(),
            height: self.height.clone(),
            monitor_type: self.monitor_type,
        }
    }
}

/// A point of the screen or widget that a placement is anchored to.
#[derive(Clone, Copy, Debug, PartialEq, Eq, Structural)]
pub enum AnchorPoint {
    TopLeft,
    TopCenter,
    TopRight,
    CenterLeft,
    Center,
    CenterRight,
    BottomLeft,
    BottomCenter,
    BottomRight,
}

/// A length argument — a percentage or a number of physical pixels — kept
/// as the exact text it was given on the command line (for example `50%` or
/// `120px`); interpreting it numerically is left to the consumer.
#[derive(Debug, PartialEq, Eq)]
pub struct LengthValue {
    pub text: String,
}

impl Clone for LengthValue {
    fn clone(&self) -> (r: Self)
        ensures
            r == *self,
    {
        LengthValue { text: self.text.clone() }
    }
}

/// Which monitors a widget is placed on.
#[derive(Clone, Copy, Debug, PartialEq, Eq, Structural)]
pub enum MonitorType {
    All,
    Primary,
    Secondary,
}

/// Arguments for opening a widget by a preset name.
#[derive(Debug, PartialEq, Eq)]
pub struct StartWidgetPresetArgs {
    /// Relative file path to the widget config within the application's
    /// config directory, as text.
    pub config_path: String,
    /// Name of the preset within the target widget config.
    pub preset_name: String,
}

impl Clone for StartWidgetPresetArgs {
    fn clone(&self) -> (r: Self)
        ensures
            r == *self,
    {
        StartWidgetPresetArgs {
            config_path: self.config_path.clone(),
            preset_name: self.preset_name.clone(),
        }
    }
}

/// Arguments for opening the startup widgets.
#[derive(Debug, PartialEq, Eq)]
pub struct StartupArgs {
    /// Absolute or relative path to the application's config directory, as
    /// text.
    pub config_dir: Option<String>,
}

impl Clone for StartupArgs {
    fn clone(&self) -> (r: Self)
        ensures
            r == *self,
    {
        let config_dir = match &self.config_dir {
            Some(dir) => Some(dir.clone()),
            None => None,
        };
        StartupArgs { config_dir }
    }
}

/// A query of the running application's state.
#[derive(Clone, Copy, Debug, PartialEq, Eq, Structural)]
pub enum QueryArgs {
    /// Outputs available monitors.
    Monitors,
}

} // verus!
