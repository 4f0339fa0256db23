//! End-to-end behaviour of the hook callback, the bus and the monitor.

use window_util::bus::EventBus;
use window_util::event::WindowEvent;
use window_util::hook::{CallbackOutcome, HookState, HookThread, IDLE_INTERVAL_MS, PumpAction, event_callback, pump_step};
use window_util::window::Window;

fn units(s: &str) -> Vec<u16> {
    s.encode_utf16().collect()
}

#[test]
fn delivered_titles_are_nonempty() {
    let mut bus = EventBus::new();
    let mut hook = HookThread::new();
    let w = Window::new(&mut bus, &mut hook);
    let delivered = bus.publish(WindowEvent { hwnd: 1, title: String::new() });
    assert!(delivered);
    assert_eq!(w.events_blocking(&mut bus), None);
}

#[test]
fn empty_title_units_are_filtered_at_the_hook() {
    let mut bus = EventBus::new();
    let mut hook = HookThread::new();
    let w = Window::new(&mut bus, &mut hook);
    let outcome = event_callback(&mut bus, 1, &units(""));
    assert_eq!(outcome, CallbackOutcome::EmptyTitle);
    assert_eq!(w.events_blocking(&mut bus), None);
}

#[test]
fn ignored_titles_never_reach_a_monitor() {
    let mut bus = EventBus::new();
    let mut hook = HookThread::new();
    let w = Window::new(&mut bus, &mut hook);
    for title in [
        "Dropdown - EdgeBar",
        "EdgeBar - macos/macos",
        "Tauri App",
        "DevTools",
        "some DevTools window",
        "prefix Tauri App suffix",
    ] {
        let outcome = event_callback(&mut bus, 2, &units(title));
        assert_eq!(outcome, CallbackOutcome::Ignored);
    }
    assert_eq!(w.events_blocking(&mut bus), None);
}

#[test]
fn events_are_observed_in_publication_order() {
    let mut bus = EventBus::new();
    let mut hook = HookThread::new();
    let w = Window::new(&mut bus, &mut hook);
    assert_eq!(event_callback(&mut bus, 11, &units("Notepad")), CallbackOutcome::Published);
    assert_eq!(event_callback(&mut bus, 22, &units("Browser")), CallbackOutcome::Published);
    let first = w.events_blocking(&mut bus).expect("first event");
    let second = w.events_blocking(&mut bus).expect("second event");
    assert_eq!(first, WindowEvent { hwnd: 11, title: "Notepad".to_string() });
    assert_eq!(second, WindowEvent { hwnd: 22, title: "Browser".to_string() });
    assert_eq!(w.events_blocking(&mut bus), None);
}

#[test]
fn empty_titles_are_skipped_between_deliveries() {
    let mut bus = EventBus::new();
    let mut hook = HookThread::new();
    let w = Window::new(&mut bus, &mut hook);
    assert!(bus.publish(WindowEvent { hwnd: 1, title: String::new() }));
    assert!(bus.publish(WindowEvent { hwnd: 2, title: "Editor".to_string() }));
    assert!(bus.publish(WindowEvent { hwnd: 3, title: String::new() }));
    let got = w.events_blocking(&mut bus).expect("the non-empty-titled event");
    assert_eq!(got.hwnd, 2);
    assert_eq!(got.title, "Editor");
    assert_eq!(w.events_blocking(&mut bus), None);
}

#[test]
fn the_two_consumption_forms_agree() {
    let mut bus = EventBus::new();
    let mut hook = HookThread::new();
    let w = Window::new(&mut bus, &mut hook);
    assert_eq!(event_callback(&mut bus, 8, &units("Editor")), CallbackOutcome::Published);
    assert_eq!(event_callback(&mut bus, 9, &units("Shell")), CallbackOutcome::Published);
    let first = w.events(&mut bus).expect("suspending form");
    assert_eq!(first, WindowEvent { hwnd: 8, title: "Editor".to_string() });
    let second = w.events_blocking(&mut bus).expect("blocking form");
    assert_eq!(second, WindowEvent { hwnd: 9, title: "Shell".to_string() });
    assert_eq!(w.events(&mut bus), None);
}

#[test]
fn no_delivery_after_destroy_and_no_replay() {
    let mut bus = EventBus::new();
    let mut hook = HookThread::new();
    let w = Window::new(&mut bus, &mut hook);
    assert_eq!(event_callback(&mut bus, 1, &units("Before")), CallbackOutcome::Published);
    w.destroy(&mut bus);
    assert_eq!(event_callback(&mut bus, 2, &units("After")), CallbackOutcome::NoTarget);
    let w2 = Window::new(&mut bus, &mut hook);
    assert_eq!(w2.events_blocking(&mut bus), None);
}

#[test]
fn last_registrant_wins() {
    let mut bus = EventBus::new();
    let mut hook = HookThread::new();
    let first = Window::new(&mut bus, &mut hook);
    let second = Window::new(&mut bus, &mut hook);
    assert_eq!(event_callback(&mut bus, 9, &units("Terminal")), CallbackOutcome::Published);
    assert_eq!(first.events_blocking(&mut bus), None);
    let got = second.events_blocking(&mut bus).expect("delivered to the newest monitor");
    assert_eq!(got.hwnd, 9);
    assert_eq!(got.title, "Terminal");
    second.destroy(&mut bus);
    assert_eq!(event_callback(&mut bus, 10, &units("Nobody")), CallbackOutcome::NoTarget);
    assert_eq!(first.events_blocking(&mut bus), None);
}

#[test]
fn destroying_a_replaced_monitor_keeps_the_newer_registration() {
    let mut bus = EventBus::new();
    let mut hook = HookThread::new();
    let first = Window::new(&mut bus, &mut hook);
    let second = Window::new(&mut bus, &mut hook);
    first.destroy(&mut bus);
    assert_eq!(event_callback(&mut bus, 4, &units("Still delivered")), CallbackOutcome::Published);
    let got = second.events_blocking(&mut bus).expect("second monitor still registered");
    assert_eq!(got.hwnd, 4);
}

#[test]
fn lossy_decoding_tolerates_invalid_encoding() {
    let mut bus = EventBus::new();
    let mut hook = HookThread::new();
    let w = Window::new(&mut bus, &mut hook);
    // A lone high surrogate is invalid UTF-16 and decodes to the
    // replacement character.
    let bad: Vec<u16> = vec![0xD800u16];
    assert_eq!(event_callback(&mut bus, 5, &bad), CallbackOutcome::Published);
    let got = w.events_blocking(&mut bus).expect("replacement-charactered event");
    assert_eq!(got.title, "\u{FFFD}");
}

#[test]
fn hook_thread_is_started_lazily_at_most_once() {
    let mut hook = HookThread::new();
    assert!(!hook.is_active());
    assert!(!hook.needs_install());
    assert!(hook.ensure_started());
    assert!(hook.needs_install());
    assert!(!hook.ensure_started());
    hook.complete_install(true);
    assert!(hook.is_active());
    assert!(!hook.ensure_started());
    hook.release();
    assert!(!hook.is_active());
}

#[test]
fn failed_install_leaves_the_thread_passive() {
    let mut hook = HookThread::new();
    assert!(hook.ensure_started());
    hook.complete_install(false);
    assert!(!hook.is_active());
    assert!(!hook.ensure_started());
}

#[test]
fn monitor_construction_is_idempotent_for_the_hook() {
    let mut bus = EventBus::new();
    let mut hook = HookThread::new();
    let _w1 = Window::new(&mut bus, &mut hook);
    assert!(hook.needs_install());
    hook.complete_install(true);
    let _w2 = Window::new(&mut bus, &mut hook);
    assert!(hook.is_active());
}

#[test]
fn idle_polling_yields_a_bounded_interval() {
    assert_eq!(pump_step(true), PumpAction::Dispatch);
    assert_eq!(pump_step(false), PumpAction::Sleep { millis: IDLE_INTERVAL_MS });
    assert_eq!(IDLE_INTERVAL_MS, 10);
}

#[test]
fn hook_states_are_distinct() {
    assert_ne!(HookState::Inactive, HookState::Active);
    assert_ne!(HookState::Installing, HookState::Failed);
}
