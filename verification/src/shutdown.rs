//! What the host application's signals mean for the window and for the
//! managed process: closing the window hides it and leaves the process
//! alone; quitting and exiting end the process first.

use crate::events::{event_views, Event, EventView};
use crate::log_buffer::{appended, APP_LOG_CAPACITY};
use crate::supervisor::{
    kill_order, terminate_events, terminated, KillOrder, Slot, Supervisor, SupervisorView,
};
use crate::types::LogType;
use vstd::prelude::*;
use vstd::string::StringExecFns;

verus! {

/// A signal from the host application's window, tray or run loop.
#[derive(Clone, Copy, PartialEq, Eq, Debug, Structural)]
pub enum HostSignal {
    /// The user asked to close the window.
    WindowCloseRequested,
    /// The user chose to quit.
    QuitRequested,
    /// The user chose to show the window, or started the launcher a second
    /// time.
    ShowRequested,
    /// The tray icon was clicked while the window was visible or not.
    TrayClicked { window_visible: bool },
    /// The host application was asked to exit.
    ExitRequested,
    /// The host application exits.
    Exit,
}

/// What is done to the window.
#[derive(Clone, Copy, PartialEq, Eq, Debug, Structural)]
pub enum WindowAction {
    /// The window is left as it is.
    Keep,
    /// The window is hidden.
    Hide,
    /// The window is shown and given the focus.
    ShowAndFocus,
}

/// What the host does in answer to a signal.
#[derive(Debug, Clone, PartialEq, Eq)]
pub struct HostDirective {
    pub window: WindowAction,
    /// Whether the close that was asked for is called off.
    pub prevent_close: bool,
    /// The process to end before anything else, where one was running.
    pub order: Option<KillOrder>,
    /// Whether the host application is told to exit afterwards.
    pub exit_app: bool,
    /// The events to publish.
    pub events: Vec<Event>,
}

/// Whether a signal ends the managed process.
pub open spec fn ends_process(signal: HostSignal) -> bool {
    signal is QuitRequested || signal is ExitRequested || signal is Exit
}

/// What a signal does to the window.
pub open spec fn window_action(signal: HostSignal) -> WindowAction {
    match signal {
        HostSignal::WindowCloseRequested => WindowAction::Hide,
        HostSignal::ShowRequested => WindowAction::ShowAndFocus,
        HostSignal::TrayClicked { window_visible } => if window_visible {
            WindowAction::Hide
        } else {
            WindowAction::ShowAndFocus
        },
        _ => WindowAction::Keep,
    }
}

/// The line that the application log gets when the user quits.
pub open spec fn quit_line() -> Seq<char> {
    "Quit requested from tray, terminating..."@
}

/// The supervisor's state as a quit finds it after its own line was logged.
pub open spec fn quit_noted(s: SupervisorView) -> SupervisorView {
    SupervisorView { app_logs: appended(s.app_logs, APP_LOG_CAPACITY as nat, quit_line()), ..s }
}

/// The supervisor's state after a signal.
pub open spec fn state_after(s: SupervisorView, signal: HostSignal) -> SupervisorView {
    match signal {
        HostSignal::QuitRequested => terminated(quit_noted(s)),
        HostSignal::ExitRequested => terminated(s),
        HostSignal::Exit => terminated(s),
        _ => s,
    }
}

/// The process that a signal asks the host to end, if any.
pub open spec fn order_after(s: SupervisorView, signal: HostSignal) -> Option<KillOrder> {
    if ends_process(signal) {
        kill_order(s)
    } else {
        None
    }
}

/// The events that a signal publishes.
pub open spec fn events_after(s: SupervisorView, signal: HostSignal) -> Seq<EventView> {
    match signal {
        HostSignal::QuitRequested => seq![
            EventView::LogAppended { source: LogType::App, line: quit_line() },
        ] + terminate_events(s),
        HostSignal::ExitRequested => terminate_events(s),
        HostSignal::Exit => terminate_events(s),
        _ => Seq::empty(),
    }
}

/// Answers a signal of the host application. A request to close the window
/// hides it, calls the close off and does not touch the supervisor. Quitting
/// and both stages of exiting run the supervisor's `terminate` before the
/// host goes on; only quitting also tells the host to exit.
pub fn handle_signal(supervisor: &mut Supervisor, signal: HostSignal) -> (directive: HostDirective)
    ensures
        final(supervisor)@ == state_after(old(supervisor)@, signal),
        directive.window == window_action(signal),
        directive.prevent_close == (signal is WindowCloseRequested),
        directive.order == order_after(old(supervisor)@, signal),
        directive.exit_app == (signal is QuitRequested),
        event_views(directive.events@) == events_after(old(supervisor)@, signal),
        ends_process(signal) ==> final(supervisor)@.slot == Slot::Empty,
{
    match signal {
        HostSignal::WindowCloseRequested => HostDirective {
            window: WindowAction::Hide,
            prevent_close: true,
            order: None,
            exit_app: false,
            events: Vec::new(),
        },
        HostSignal::ShowRequested => HostDirective {
            window: WindowAction::ShowAndFocus,
            prevent_close: false,
            order: None,
            exit_app: false,
            events: Vec::new(),
        },
        HostSignal::TrayClicked { window_visible } => HostDirective {
            window: if window_visible {
                WindowAction::Hide
            } else {
                WindowAction::ShowAndFocus
            },
            prevent_close: false,
            order: None,
            exit_app: false,
            events: Vec::new(),
        },
        HostSignal::QuitRequested => {
            let mut events: Vec<Event> = Vec::new();
            let noted = supervisor.log_app(
                String::from_str("Quit requested from tray, terminating..."),
            );
            events.push(noted);
            let termination = supervisor.terminate();
            let mut published = termination.events;
            events.append(&mut published);
            HostDirective {
                window: WindowAction::Keep,
                prevent_close: false,
                order: termination.order,
                exit_app: true,
                events,
            }
        },
        HostSignal::ExitRequested => {
            let termination = supervisor.terminate();
            HostDirective {
                window: WindowAction::Keep,
                prevent_close: false,
                order: termination.order,
                exit_app: false,
                events: termination.events,
            }
        },
        HostSignal::Exit => {
            let termination = supervisor.terminate();
            HostDirective {
                window: WindowAction::Keep,
                prevent_close: false,
                order: termination.order,
                exit_app: false,
                events: termination.events,
            }
        },
    }
}

/// Closing the window never stops the managed process: the supervisor is as
/// it was, and nothing is ordered.
pub proof fn lemma_close_keeps_process(s: SupervisorView)
    ensures
        state_after(s, HostSignal::WindowCloseRequested) == s,
        order_after(s, HostSignal::WindowCloseRequested) is None,
        window_action(HostSignal::WindowCloseRequested) == WindowAction::Hide,
{
}

/// However the host goes down, the process is ended exactly once: the first
/// signal that ends the process orders the end of a running one and leaves
/// the slot empty, and whatever signal follows orders nothing.
pub proof fn lemma_process_ended_once(s: SupervisorView, first: HostSignal, second: HostSignal)
    requires
        ends_process(first),
    ensures
        state_after(s, first).slot == Slot::Empty,
        s.slot is Running ==> order_after(s, first) is Some && order_after(s, first)->Some_0.pid
            == s.slot->Running_0.pid,
        order_after(state_after(s, first), second) is None,
        state_after(state_after(s, first), second).slot == Slot::Empty,
{
}

} // verus!
