use clipshell::tray::handle_tray_event;
use clipshell::tray::main_window_label;
use clipshell::tray::route_tray_event;
use clipshell::tray::run_session;
use clipshell::tray::tray_menu_entries;
use clipshell::tray::TrayAction;
use clipshell::tray::TrayEvent;
use clipshell::tray::WindowState;

fn minimized_window() -> WindowState {
    WindowState { visible: false, centered: false, focused: false, minimized: true }
}

#[test]
fn left_click_routes_to_show() {
    let action = route_tray_event(&TrayEvent::LeftClick);
    assert_eq!(action, TrayAction::ShowMainWindow);
}

#[test]
fn show_menu_click_routes_to_show() {
    let event = TrayEvent::MenuItemClick { id: "show".to_string() };
    assert_eq!(route_tray_event(&event), TrayAction::ShowMainWindow);
}

#[test]
fn quit_menu_click_routes_to_exit_zero() {
    let event = TrayEvent::MenuItemClick { id: "quit".to_string() };
    assert_eq!(route_tray_event(&event), TrayAction::Exit { code: 0 });
}

#[test]
fn unknown_menu_id_routes_to_noop() {
    let event = TrayEvent::MenuItemClick { id: "settings".to_string() };
    assert_eq!(route_tray_event(&event), TrayAction::NoOp);
}

#[test]
fn empty_menu_id_routes_to_noop() {
    let event = TrayEvent::MenuItemClick { id: String::new() };
    assert_eq!(route_tray_event(&event), TrayAction::NoOp);
}

#[test]
fn other_event_routes_to_noop() {
    assert_eq!(route_tray_event(&TrayEvent::Other), TrayAction::NoOp);
}

#[test]
fn left_click_surfaces_minimized_window() {
    let outcome = handle_tray_event(Some(minimized_window()), &TrayEvent::LeftClick);
    assert_eq!(outcome.exit_code, None);
    let window = outcome.window.expect("window should still exist");
    assert!(window.visible);
    assert!(window.centered);
    assert!(window.focused);
    assert!(!window.minimized);
}

#[test]
fn show_menu_click_surfaces_minimized_window() {
    let event = TrayEvent::MenuItemClick { id: "show".to_string() };
    let outcome = handle_tray_event(Some(minimized_window()), &event);
    assert_eq!(outcome.exit_code, None);
    let window = outcome.window.expect("window should still exist");
    assert!(window.visible && window.centered && window.focused);
}

#[test]
fn show_with_missing_window_does_nothing() {
    let outcome = handle_tray_event(None, &TrayEvent::LeftClick);
    assert_eq!(outcome.exit_code, None);
    assert_eq!(outcome.window, None);
}

#[test]
fn quit_exits_zero_whatever_the_window_state() {
    let event = TrayEvent::MenuItemClick { id: "quit".to_string() };
    let hidden = handle_tray_event(Some(minimized_window()), &event);
    assert_eq!(hidden.exit_code, Some(0));
    assert_eq!(hidden.window, Some(minimized_window()));
    let missing = handle_tray_event(None, &event);
    assert_eq!(missing.exit_code, Some(0));
    assert_eq!(missing.window, None);
}

#[test]
fn unknown_event_leaves_window_untouched() {
    let start = minimized_window();
    let event = TrayEvent::MenuItemClick { id: "restart".to_string() };
    let outcome = handle_tray_event(Some(start), &event);
    assert_eq!(outcome.exit_code, None);
    assert_eq!(outcome.window, Some(start));
}

#[test]
fn session_quit_after_history_exits_zero() {
    let events = vec![
        TrayEvent::Other,
        TrayEvent::MenuItemClick { id: "unknown".to_string() },
        TrayEvent::LeftClick,
        TrayEvent::MenuItemClick { id: "quit".to_string() },
    ];
    let outcome = run_session(Some(minimized_window()), &events);
    assert_eq!(outcome.exit_code, Some(0));
    let window = outcome.window.expect("window should still exist");
    assert!(window.visible && window.centered && window.focused);
}

#[test]
fn session_stops_at_first_quit() {
    let events = vec![
        TrayEvent::MenuItemClick { id: "quit".to_string() },
        TrayEvent::LeftClick,
    ];
    let outcome = run_session(Some(minimized_window()), &events);
    assert_eq!(outcome.exit_code, Some(0));
    assert_eq!(outcome.window, Some(minimized_window()));
}

#[test]
fn session_without_quit_never_exits() {
    let events = vec![
        TrayEvent::Other,
        TrayEvent::LeftClick,
        TrayEvent::MenuItemClick { id: "show".to_string() },
    ];
    let outcome = run_session(Some(minimized_window()), &events);
    assert_eq!(outcome.exit_code, None);
}

#[test]
fn empty_session_changes_nothing() {
    let events: Vec<TrayEvent> = Vec::new();
    let outcome = run_session(Some(minimized_window()), &events);
    assert_eq!(outcome.exit_code, None);
    assert_eq!(outcome.window, Some(minimized_window()));
}

#[test]
fn main_window_is_looked_up_by_name() {
    assert_eq!(main_window_label(), "main");
}

#[test]
fn tray_menu_has_show_then_quit() {
    let entries = tray_menu_entries();
    assert_eq!(entries.len(), 2);
    assert_eq!(entries[0].id, "show");
    assert_eq!(entries[0].label, "Show Clipboard Manager");
    assert_eq!(entries[1].id, "quit");
    assert_eq!(entries[1].label, "Quit");
}
