//! The command-line, tray and provider data models, and the verified text
//! predicates they rely on.

use window_util::cli::{
    AnchorPoint, Cli, CliCommand, LengthValue, MonitorType, QueryArgs, StartWidgetArgs,
    StartWidgetPresetArgs, StartupArgs,
};
use window_util::event::is_ignored_title;
use window_util::provider::{ProviderFunctionResponse, SetMuteArgs, SystrayFunction, SystrayIconArgs};
use window_util::text::{str_contains, str_eq};
use window_util::tray::MenuEvent;

#[test]
fn cli_command_defaults_to_empty() {
    let cli = Cli::new(None);
    assert_eq!(cli.command(), CliCommand::Empty);
}

#[test]
fn cli_command_hands_back_the_given_subcommand() {
    let args = StartWidgetPresetArgs {
        config_path: "starter/vanilla".to_string(),
        preset_name: "default".to_string(),
    };
    let cli = Cli::new(Some(CliCommand::StartWidgetPreset(args.clone())));
    assert_eq!(cli.command(), CliCommand::StartWidgetPreset(args));
}

#[test]
fn start_widget_args_round_trip_through_clone() {
    let args = StartWidgetArgs {
        config_path: "starter/vanilla".to_string(),
        anchor: AnchorPoint::TopCenter,
        offset_x: LengthValue { text: "0px".to_string() },
        offset_y: LengthValue { text: "10px".to_string() },
        width: LengthValue { text: "50%".to_string() },
        height: LengthValue { text: "40px".to_string() },
        monitor_type: MonitorType::Primary,
    };
    let cli = Cli::new(Some(CliCommand::StartWidget(args.clone())));
    assert_eq!(cli.command(), CliCommand::StartWidget(args));
}

#[test]
fn startup_args_clone_keeps_the_config_dir() {
    let with_dir = StartupArgs { config_dir: Some(".edgebar".to_string()) };
    assert_eq!(with_dir.clone(), with_dir);
    let without = StartupArgs { config_dir: None };
    assert_eq!(without.clone(), without);
    let cli = Cli::new(Some(CliCommand::Startup(with_dir.clone())));
    assert_eq!(cli.command(), CliCommand::Startup(with_dir));
}

#[test]
fn query_args_pass_through() {
    let cli = Cli::new(Some(CliCommand::Query(QueryArgs::Monitors)));
    assert_eq!(cli.command(), CliCommand::Query(QueryArgs::Monitors));
}

#[test]
fn menu_event_round_trips_through_its_id() {
    let id = MenuEvent::Exit.to_string();
    assert_eq!(id, "exit");
    assert_eq!(MenuEvent::from_str(&id), Ok(MenuEvent::Exit));
}

#[test]
fn unknown_menu_ids_are_rejected_with_the_offending_id() {
    assert_eq!(
        MenuEvent::from_str("exit_now"),
        Err("Invalid menu event: exit_now".to_string()),
    );
    assert_eq!(MenuEvent::from_str(""), Err("Invalid menu event: ".to_string()));
}

#[test]
fn ignore_list_matches_substrings_only() {
    assert!(is_ignored_title("Dropdown - EdgeBar"));
    assert!(is_ignored_title("a EdgeBar - macos/macos b"));
    assert!(!is_ignored_title("Notepad"));
    assert!(!is_ignored_title(""));
    assert!(!is_ignored_title("EdgeBar"));
    assert!(!is_ignored_title("Dev Tools"));
}

#[test]
fn substring_search_is_exact() {
    assert!(str_contains("hello world", "lo wo"));
    assert!(str_contains("hello", "hello"));
    assert!(str_contains("hello", ""));
    assert!(str_contains("", ""));
    assert!(!str_contains("", "a"));
    assert!(!str_contains("hello", "world"));
    assert!(!str_contains("he", "hello"));
    assert!(str_contains("na\u{ef}ve caf\u{e9}", "caf\u{e9}"));
}

#[test]
fn string_equality_is_character_wise() {
    assert!(str_eq("", ""));
    assert!(str_eq("abc", "abc"));
    assert!(!str_eq("abc", "abd"));
    assert!(!str_eq("abc", "ab"));
    assert!(str_eq("caf\u{e9}", "caf\u{e9}"));
}

#[test]
fn provider_values_round_trip_through_clone() {
    let mute = SetMuteArgs { mute: true, device_id: Some("speakers".to_string()) };
    assert_eq!(mute.clone(), mute);
    let no_device = SetMuteArgs { mute: false, device_id: None };
    assert_eq!(no_device.clone(), no_device);
    let hover = SystrayFunction::IconHoverEnter(SystrayIconArgs { icon_id: "net".to_string() });
    assert_eq!(hover.clone(), hover);
    let click = SystrayFunction::IconLeftClick(SystrayIconArgs { icon_id: "vol".to_string() });
    assert_eq!(click.clone(), click);
    assert_eq!(ProviderFunctionResponse::Null, ProviderFunctionResponse::Null);
}
