//! The tray event router: maps tray interactions to window-visibility
//! actions or process termination, and models what each action does.

use vstd::prelude::*;
use vstd::string::StringExecFns;

verus! {

/// Identifier of the tray menu entry that shows the main window.
pub open spec fn show_id() -> Seq<char> {
    "show"@
}

/// Identifier of the tray menu entry that quits the application.
pub open spec fn quit_id() -> Seq<char> {
    "quit"@
}

/// The name under which the application's single window is looked up.
pub open spec fn main_window_name() -> Seq<char> {
    "main"@
}

/// The label of the main window, looked up fresh on every event rather
/// than cached.
pub fn main_window_label() -> (label: String)
    ensures
        label@ == main_window_name(),
{
    String::from_str("main")
}

/// A tray interaction as delivered by the host runtime.
#[derive(Debug, Clone)]
pub enum TrayEvent {
    /// A left click on the tray icon itself.
    LeftClick,
    /// A click on a tray menu entry, carrying that entry's identifier.
    MenuItemClick { id: String },
    /// Any other tray interaction (right click, double click, hover, ...).
    Other,
}

/// The action the router chooses for one event.
#[derive(Debug, Clone, Copy, PartialEq, Eq, Structural)]
pub enum TrayAction {
    /// Center the main window, make it visible, and focus it.
    ShowMainWindow,
    /// Terminate the process with the given exit code.
    Exit { code: i32 },
    /// Do nothing observable.
    NoOp,
}

/// The visibility-related state of the main window, as far as the
/// router's actions can touch it.
#[derive(Debug, Clone, Copy, PartialEq, Eq, Structural)]
pub struct WindowState {
    pub visible: bool,
    pub centered: bool,
    pub focused: bool,
    pub minimized: bool,
}

/// What the router decides for an event.
pub open spec fn spec_route(event: TrayEvent) -> TrayAction {
    match event {
        TrayEvent::LeftClick => TrayAction::ShowMainWindow,
        TrayEvent::MenuItemClick { id } => {
            if id@ == quit_id() {
                TrayAction::Exit { code: 0 }
            } else if id@ == show_id() {
                TrayAction::ShowMainWindow
            } else {
                TrayAction::NoOp
            }
        },
        TrayEvent::Other => TrayAction::NoOp,
    }
}

/// Map one tray event to the action the application takes for it:
/// a left click or the `show` menu entry surfaces the main window,
/// the `quit` menu entry exits with code 0, and anything else is ignored.
pub fn route_tray_event(event: &TrayEvent) -> (action: TrayAction)
    ensures
        action == spec_route(*event),
{
    match event {
        TrayEvent::LeftClick => TrayAction::ShowMainWindow,
        TrayEvent::MenuItemClick { id } => {
            let quit_name: String = String::from_str("quit");
            let show_name: String = String::from_str("show");
            if *id == quit_name {
                TrayAction::Exit { code: 0 }
            } else if *id == show_name {
                TrayAction::ShowMainWindow
            } else {
                TrayAction::NoOp
            }
        },
        TrayEvent::Other => TrayAction::NoOp,
    }
}

/// The window state a show action leaves behind: centered, visible,
/// focused, and no longer minimized.
pub open spec fn spec_shown_window() -> WindowState {
    WindowState { visible: true, centered: true, focused: true, minimized: false }
}

/// Everything one delivered tray event can change: the main window's
/// state (`None` when the window is missing) and whether the process
/// exits, with which code.
#[derive(Debug, Clone, Copy)]
pub struct EventOutcome {
    pub window: Option<WindowState>,
    pub exit_code: Option<i32>,
}

/// What performing an action does. Showing the window centers, shows
/// and focuses it as one step when it exists and does nothing when it
/// is missing; exiting reports the code and leaves the window alone;
/// a no-op changes nothing.
pub open spec fn spec_apply_action(window: Option<WindowState>, action: TrayAction) -> EventOutcome {
    match action {
        TrayAction::ShowMainWindow => match window {
            Some(w) => EventOutcome { window: Some(spec_shown_window()), exit_code: None },
            None => EventOutcome { window: None, exit_code: None },
        },
        TrayAction::Exit { code } => EventOutcome { window: window, exit_code: Some(code) },
        TrayAction::NoOp => EventOutcome { window: window, exit_code: None },
    }
}

/// Perform one routed action against the main window's state.
pub fn apply_tray_action(window: Option<WindowState>, action: &TrayAction) -> (outcome:
    EventOutcome)
    ensures
        outcome == spec_apply_action(window, *action),
{
    match action {
        TrayAction::ShowMainWindow => {
            match window {
                Some(_) => EventOutcome {
                    window: Some(
                        WindowState {
                            visible: true,
                            centered: true,
                            focused: true,
                            minimized: false,
                        },
                    ),
                    exit_code: None,
                },
                None => EventOutcome { window: None, exit_code: None },
            }
        },
        TrayAction::Exit { code } => EventOutcome { window: window, exit_code: Some(*code) },
        TrayAction::NoOp => EventOutcome { window: window, exit_code: None },
    }
}

/// What one delivered tray event does: route it, then perform the action.
pub open spec fn spec_handle(window: Option<WindowState>, event: TrayEvent) -> EventOutcome {
    spec_apply_action(window, spec_route(event))
}

/// Handle one tray event end to end: route it and perform the action.
pub fn handle_tray_event(window: Option<WindowState>, event: &TrayEvent) -> (outcome: EventOutcome)
    ensures
        outcome == spec_handle(window, *event),
{
    let action = route_tray_event(event);
    apply_tray_action(window, &action)
}

/// What a whole session of tray events does: events are handled one at
/// a time, in order, and the first one that exits ends the session.
pub open spec fn spec_session(window: Option<WindowState>, events: Seq<TrayEvent>) -> EventOutcome
    decreases events.len(),
{
    if events.len() == 0 {
        EventOutcome { window: window, exit_code: None }
    } else {
        let step = spec_handle(window, events[0]);
        if step.exit_code is Some {
            step
        } else {
            spec_session(step.window, events.skip(1))
        }
    }
}

/// Handle a sequence of tray events in delivery order, stopping at the
/// first one that exits the process.
pub fn run_session(window: Option<WindowState>, events: &Vec<TrayEvent>) -> (outcome: EventOutcome)
    ensures
        outcome == spec_session(window, events@),
{
    let mut cur = window;
    let mut i: usize = 0;
    proof {
        assert(events@.skip(0) =~= events@);
    }
    while i < events.len()
        invariant
            0 <= i <= events@.len(),
            spec_session(window, events@) == spec_session(cur, events@.skip(i as int)),
        decreases events@.len() - i,
    {
        proof {
            assert(events@.skip(i as int)[0] == events@[i as int]);
            assert(events@.skip(i as int).skip(1) =~= events@.skip(i as int + 1));
        }
        let step = handle_tray_event(cur, &events[i]);
        if step.exit_code.is_some() {
            return step;
        }
        cur = step.window;
        i = i + 1;
    }
    proof {
        assert(events@.skip(i as int) =~= Seq::<TrayEvent>::empty());
    }
    EventOutcome { window: cur, exit_code: None }
}

/// One entry of the tray menu: a short identifier the router matches
/// on, and the text the user sees.
#[derive(Debug, Clone)]
pub struct MenuEntry {
    pub id: String,
    pub label: String,
}

/// Build the tray menu: the `show` entry first, then the `quit` entry,
/// with their fixed labels and distinct identifiers.
pub fn tray_menu_entries() -> (entries: Vec<MenuEntry>)
    ensures
        entries@.len() == 2,
        entries@[0].id@ == show_id(),
        entries@[0].label@ == "Show Clipboard Manager"@,
        entries@[1].id@ == quit_id(),
        entries@[1].label@ == "Quit"@,
        entries@[0].id@ != entries@[1].id@,
{
    proof {
        reveal_strlit("show");
        reveal_strlit("quit");
        assert(show_id()[0] == 's' && quit_id()[0] == 'q');
    }
    let mut entries: Vec<MenuEntry> = Vec::new();
    entries.push(
        MenuEntry {
            id: String::from_str("show"),
            label: String::from_str("Show Clipboard Manager"),
        },
    );
    entries.push(MenuEntry { id: String::from_str("quit"), label: String::from_str("Quit") });
    entries
}

/// Every tray event other than a left click, a `show` menu click or a
/// `quit` menu click is routed to no action at all: the window is left
/// exactly as it was and the process does not exit.
pub proof fn lemma_unrecognized_event_is_noop(window: Option<WindowState>, event: TrayEvent)
    requires
        !(event is LeftClick),
        event matches TrayEvent::MenuItemClick { id } ==> id@ != quit_id() && id@ != show_id(),
    ensures
        spec_route(event) == TrayAction::NoOp,
        spec_handle(window, event) == (EventOutcome { window: window, exit_code: None }),
{
}

/// Selecting the `quit` menu entry exits the process with code 0,
/// whatever state the main window is in, and touches nothing else.
pub proof fn lemma_quit_exits_with_zero(window: Option<WindowState>, event: TrayEvent)
    requires
        event matches TrayEvent::MenuItemClick { id } && id@ == quit_id(),
    ensures
        spec_route(event) == (TrayAction::Exit { code: 0 }),
        spec_handle(window, event) == (EventOutcome { window: window, exit_code: Some(0i32) }),
{
}

/// A left click or the `show` menu entry never exits; when the main
/// window exists it ends up centered, visible and focused in one step,
/// and when it is missing nothing happens at all.
pub proof fn lemma_show_surfaces_window(window: Option<WindowState>, event: TrayEvent)
    requires
        event is LeftClick || (event matches TrayEvent::MenuItemClick { id } && id@ == show_id()),
    ensures
        spec_route(event) == TrayAction::ShowMainWindow,
        spec_handle(window, event).exit_code is None,
        window is Some ==> spec_handle(window, event).window == Some(spec_shown_window()),
        window is None ==> spec_handle(window, event).window is None,
{
    reveal_strlit("show");
    reveal_strlit("quit");
    assert(show_id()[0] == 's' && quit_id()[0] == 'q');
    assert(show_id() != quit_id());
}

/// Selecting `quit` exits with code 0 regardless of prior event
/// history: after any sequence of events that did not already end the
/// session, one more `quit` menu click ends it with exit code 0.
pub proof fn lemma_quit_after_any_history(
    window: Option<WindowState>,
    history: Seq<TrayEvent>,
    event: TrayEvent,
)
    requires
        event matches TrayEvent::MenuItemClick { id } && id@ == quit_id(),
        spec_session(window, history).exit_code is None,
    ensures
        spec_session(window, history.push(event)).exit_code == Some(0i32),
        spec_session(window, history.push(event)).window == spec_session(window, history).window,
    decreases history.len(),
{
    if history.len() == 0 {
        assert(history.push(event)[0] == event);
        assert(history.push(event).skip(1) =~= Seq::<TrayEvent>::empty());
    } else {
        let step = spec_handle(window, history[0]);
        assert(step.exit_code is None) by {
            if step.exit_code is Some {
                assert(spec_session(window, history) == step);
            }
        }
        assert(history.push(event)[0] == history[0]);
        assert(history.push(event).skip(1) =~= history.skip(1).push(event));
        lemma_quit_after_any_history(step.window, history.skip(1), event);
    }
}

} // verus!
