//! What holds of the supervisor's transitions however they follow one
//! another: one process at a time, one exit notice per process, silence after
//! a stop.

use crate::binary::CandidateView;
use crate::commands::validation_error;
use crate::error::ErrorView;
use crate::events::{exit_count, EventView, ExitResult};
use crate::log_buffer::{appended_all, lemma_full_after_capacity_appends, RUSTFS_LOG_CAPACITY};
use crate::supervisor::{
    accepts_output, awaiting_exit, eof_directive, exit_events, exit_recorded, kill_order,
    launch_begun, launch_completed, launch_error, line_received, next_generation, stream_ended,
    terminate_events, terminated, ManagedProcess, ReaderDirective, Slot, SpawnOutcomeView, Stream,
    SupervisorView, Terminal,
};
use crate::types::ConfigView;
use vstd::prelude::*;

verus! {

/// A launch is refused with `AlreadyRunning` while an earlier launch holds
/// the slot: from the moment it was accepted, and after its child was
/// spawned, whatever the second configuration and however much output the
/// child has sent since. The refusal leaves the one running process in place.
pub proof fn lemma_second_launch_refused(
    s: SupervisorView,
    pid: u32,
    config: ConfigView,
    path_exists: bool,
    candidates: Seq<CandidateView>,
)
    requires
        s.slot == Slot::Empty,
        validation_error(config, path_exists) is None,
    ensures
        launch_error(launch_begun(s), config, path_exists, candidates) == Some(
            ErrorView::AlreadyRunning,
        ),
        launch_error(
            launch_completed(
                launch_begun(s),
                launch_begun(s).generation,
                SpawnOutcomeView::Spawned { pid },
            ),
            config,
            path_exists,
            candidates,
        ) == Some(ErrorView::AlreadyRunning),
        launch_completed(
            launch_begun(s),
            launch_begun(s).generation,
            SpawnOutcomeView::Spawned { pid },
        ).slot == Slot::Running(ManagedProcess { pid, stdout_open: true, stderr_open: true }),
{
}

/// While a process runs, no line and no end of stream makes room for a
/// second launch: the slot stays with the same process.
pub proof fn lemma_output_keeps_the_process(
    s: SupervisorView,
    generation: u64,
    stream: Stream,
    line: Seq<char>,
)
    requires
        s.slot is Running,
    ensures
        line_received(s, generation, stream, line).slot == s.slot,
        stream_ended(s, generation, stream).slot is Running,
        stream_ended(s, generation, stream).slot->Running_0.pid == s.slot->Running_0.pid,
{
}

/// A spawn that fails leaves the slot empty, and a launch can be tried again.
pub proof fn lemma_failed_spawn_empties_slot(s: SupervisorView, cause: Seq<char>)
    requires
        s.slot == Slot::Empty,
    ensures
        launch_completed(
            launch_begun(s),
            launch_begun(s).generation,
            SpawnOutcomeView::Failed { cause },
        ).slot == Slot::Empty,
{
}

/// `terminate` on an empty slot changes nothing and asks for nothing.
pub proof fn lemma_terminate_on_empty(s: SupervisorView)
    requires
        s.slot == Slot::Empty,
    ensures
        terminated(s) == s,
        kill_order(s) is None,
        terminate_events(s) == Seq::<EventView>::empty(),
{
}

/// `terminate` twice in a row ends a running process once: the first call
/// orders its end, the second finds the slot empty, orders nothing and
/// changes nothing.
pub proof fn lemma_terminate_twice(s: SupervisorView)
    ensures
        terminated(s).slot == Slot::Empty,
        s.slot is Running ==> kill_order(s) is Some && kill_order(s)->Some_0.pid
            == s.slot->Running_0.pid,
        kill_order(terminated(s)) is None,
        terminate_events(terminated(s)) == Seq::<EventView>::empty(),
        terminated(terminated(s)) == terminated(s),
{
}

/// Once the slot is empty nothing that a reader or a waiter reports is taken:
/// no line reaches the buffer, no reader is told to wait, no exit is
/// announced. This holds after `terminate` and after an exit was recorded.
pub proof fn lemma_empty_slot_takes_nothing(
    s: SupervisorView,
    generation: u64,
    stream: Stream,
    line: Seq<char>,
    result: ExitResult,
)
    requires
        s.slot == Slot::Empty,
    ensures
        line_received(s, generation, stream, line) == s,
        stream_ended(s, generation, stream) == s,
        eof_directive(s, generation, stream) == ReaderDirective::Finish,
        exit_recorded(s, generation, result) == s,
        exit_events(s, generation, result) == Seq::<EventView>::empty(),
{
}

/// After `terminate` no reader appends to a buffer any more.
pub proof fn lemma_silent_after_terminate(
    s: SupervisorView,
    generation: u64,
    stream: Stream,
    line: Seq<char>,
)
    ensures
        line_received(terminated(s), generation, stream, line) == terminated(s),
        !accepts_output(terminated(s), generation, stream),
{
}

/// What the readers of a stopped process still report is not taken for
/// output of the process launched next: the next launch has another number.
pub proof fn lemma_stale_reports_dropped(s: SupervisorView, pid: u32, stream: Stream)
    ensures
        !accepts_output(
            launch_completed(
                launch_begun(terminated(s)),
                launch_begun(terminated(s)).generation,
                SpawnOutcomeView::Spawned { pid },
            ),
            s.generation,
            stream,
        ),
        next_generation(s.generation) != s.generation,
{
}

/// Of the two readers of a freshly spawned process exactly one is told to
/// wait for the exit status: the one that reports the end of its stream
/// second, whichever stream that is. Every later report of an end of stream
/// is answered with `Finish`.
pub proof fn lemma_single_waiter(
    s: SupervisorView,
    first: Stream,
    second: Stream,
    later: Stream,
)
    requires
        s.slot matches Slot::Running(process) && process.stdout_open && process.stderr_open,
        first != second,
    ensures
        eof_directive(s, s.generation, first) == ReaderDirective::Finish,
        eof_directive(stream_ended(s, s.generation, first), s.generation, second)
            == ReaderDirective::AwaitExit,
        eof_directive(
            stream_ended(stream_ended(s, s.generation, first), s.generation, second),
            s.generation,
            later,
        ) == ReaderDirective::Finish,
        eof_directive(stream_ended(s, s.generation, first), s.generation, first)
            == ReaderDirective::Finish,
{
}

/// An exit is announced at most once per report, and only for a process whose
/// two streams have ended: every line of it was published before.
pub proof fn lemma_exit_after_output(s: SupervisorView, generation: u64, result: ExitResult)
    ensures
        exit_count(exit_events(s, generation, result)) == if awaiting_exit(s, generation) {
            1nat
        } else {
            0nat
        },
        awaiting_exit(s, generation) ==> !accepts_output(s, generation, Stream::Stdout)
            && !accepts_output(s, generation, Stream::Stderr),
{
    let events = exit_events(s, generation, result);
    if awaiting_exit(s, generation) {
        assert(exit_count(events.drop_last().drop_last()) == 0);
        assert(exit_count(events.drop_last()) == 0);
    }
}

/// The exit of a process is announced exactly once: the report that is
/// taken empties the slot and keeps the result, and any further report, under
/// whatever number, changes nothing and announces nothing.
pub proof fn lemma_exit_reported_once(
    s: SupervisorView,
    generation: u64,
    result: ExitResult,
    again: u64,
    other: ExitResult,
)
    requires
        awaiting_exit(s, generation),
    ensures
        exit_recorded(s, generation, result).slot == Slot::Empty,
        exit_recorded(s, generation, result).last_terminal == Some(Terminal::Exited(result)),
        exit_events(exit_recorded(s, generation, result), again, other) == Seq::<
            EventView,
        >::empty(),
        exit_recorded(exit_recorded(s, generation, result), again, other) == exit_recorded(
            s,
            generation,
            result,
        ),
{
}

/// The state after each of `lines` was reported in order.
pub open spec fn lines_received(
    s: SupervisorView,
    generation: u64,
    stream: Stream,
    lines: Seq<Seq<char>>,
) -> SupervisorView
    decreases lines.len(),
{
    if lines.len() == 0 {
        s
    } else {
        line_received(
            lines_received(s, generation, stream, lines.drop_last()),
            generation,
            stream,
            lines.last(),
        )
    }
}

/// The lines that a running process writes reach the process log in the
/// order read, and nothing else of the state changes.
pub proof fn lemma_lines_received(
    s: SupervisorView,
    generation: u64,
    stream: Stream,
    lines: Seq<Seq<char>>,
)
    requires
        accepts_output(s, generation, stream),
    ensures
        lines_received(s, generation, stream, lines) == (SupervisorView {
            process_logs: appended_all(s.process_logs, RUSTFS_LOG_CAPACITY as nat, lines),
            ..s
        }),
    decreases lines.len(),
{
    if lines.len() > 0 {
        lemma_lines_received(s, generation, stream, lines.drop_last());
    }
}

/// A process that writes at least as many lines as the process log holds
/// leaves exactly the last of them in it: the log is full, and older lines
/// are gone.
pub proof fn lemma_long_output_fills_the_log(
    s: SupervisorView,
    generation: u64,
    stream: Stream,
    lines: Seq<Seq<char>>,
)
    requires
        accepts_output(s, generation, stream),
        s.process_logs.len() <= RUSTFS_LOG_CAPACITY,
        lines.len() >= RUSTFS_LOG_CAPACITY,
    ensures
        lines_received(s, generation, stream, lines).process_logs == lines.subrange(
            lines.len() - RUSTFS_LOG_CAPACITY,
            lines.len() as int,
        ),
{
    lemma_lines_received(s, generation, stream, lines);
    lemma_full_after_capacity_appends(s.process_logs, RUSTFS_LOG_CAPACITY as nat, lines);
}

} // verus!
