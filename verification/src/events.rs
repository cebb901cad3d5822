//! The notifications that the supervisor publishes, and how each is put on
//! the wire: a channel name and a text payload.

use crate::text::{signed_decimal, signed_decimal_string};
use crate::types::LogType;
use vstd::prelude::*;
use vstd::string::StringExecFns;

verus! {

/// How a managed process ended, as the operating system reported it.
#[derive(Clone, Copy, PartialEq, Eq, Debug, Structural)]
pub enum ExitResult {
    /// The process returned this exit code.
    Code(i32),
    /// The process was ended by this signal.
    Signal(i32),
    /// The operating system gave neither a code nor a signal.
    Unknown,
}

/// A notification for whoever subscribed. Delivery is best effort.
#[derive(Debug, Clone, PartialEq, Eq)]
pub enum Event {
    /// A line was appended to the buffer named by `source`.
    LogAppended { source: LogType, line: String },
    /// The managed process ended.
    ProcessExited { result: ExitResult },
}

/// An [`Event`] with its text as a character sequence.
pub ghost enum EventView {
    LogAppended { source: LogType, line: Seq<char> },
    ProcessExited { result: ExitResult },
}

impl View for Event {
    type V = EventView;

    open spec fn view(&self) -> EventView {
        match self {
            Event::LogAppended { source, line } => EventView::LogAppended {
                source: *source,
                line: line@,
            },
            Event::ProcessExited { result } => EventView::ProcessExited { result: *result },
        }
    }
}

/// The views of a list of events, in order.
pub open spec fn event_views(events: Seq<Event>) -> Seq<EventView> {
    events.map_values(|e: Event| e@)
}

/// How many of `events` announce the end of a process.
pub open spec fn exit_count(events: Seq<EventView>) -> nat
    decreases events.len(),
{
    if events.len() == 0 {
        0
    } else {
        exit_count(events.drop_last()) + if events.last() is ProcessExited {
            1nat
        } else {
            0nat
        }
    }
}

/// The text that stands for an exit result: the code in decimal, `signal`
/// and the signal's number, or `unknown`.
pub open spec fn exit_text(result: ExitResult) -> Seq<char> {
    match result {
        ExitResult::Code(code) => signed_decimal(code as int),
        ExitResult::Signal(signal) => "signal "@ + signed_decimal(signal as int),
        ExitResult::Unknown => "unknown"@,
    }
}

/// The name of the channel that an event is published on.
pub open spec fn channel_name(event: EventView) -> Seq<char> {
    match event {
        EventView::LogAppended { source: LogType::App, .. } => "app-log"@,
        EventView::LogAppended { source: LogType::RustFS, .. } => "rustfs-log"@,
        EventView::ProcessExited { .. } => "rustfs-exit"@,
    }
}

/// The text that an event carries: the line, or the exit result as text.
pub open spec fn payload_text(event: EventView) -> Seq<char> {
    match event {
        EventView::LogAppended { line, .. } => line,
        EventView::ProcessExited { result } => exit_text(result),
    }
}

impl ExitResult {
    /// The text that stands for this exit result.
    pub fn text(&self) -> (text: String)
        ensures
            text@ == exit_text(*self),
    {
        match self {
            ExitResult::Code(code) => signed_decimal_string(*code),
            ExitResult::Signal(signal) => String::from_str("signal ").concat(
                signed_decimal_string(*signal).as_str(),
            ),
            ExitResult::Unknown => String::from_str("unknown"),
        }
    }

    /// Whether the process ended by itself with exit code zero.
    pub fn is_success(&self) -> (success: bool)
        ensures
            success == (*self == ExitResult::Code(0)),
    {
        match self {
            ExitResult::Code(code) => *code == 0,
            _ => false,
        }
    }
}

impl Event {
    /// The name of the channel that this event is published on.
    pub fn channel(&self) -> (name: &'static str)
        ensures
            name@ == channel_name(self@),
    {
        match self {
            Event::LogAppended { source, .. } => match source {
                LogType::App => "app-log",
                LogType::RustFS => "rustfs-log",
            },
            Event::ProcessExited { .. } => "rustfs-exit",
        }
    }

    /// The text that this event carries to its subscribers.
    pub fn payload(&self) -> (text: String)
        ensures
            text@ == payload_text(self@),
    {
        match self {
            Event::LogAppended { line, .. } => line.clone(),
            Event::ProcessExited { result } => result.text(),
        }
    }
}

} // verus!
