//! The supervisor of the one managed process: the slot and its transitions,
//! the two log buffers, and what each observation of the child leads to.
//!
//! Nothing here touches the operating system. A launch is prepared here, the
//! caller spawns, and reports what came of it; the readers of the child's two
//! output streams hand in each line and each end of stream; whoever is told to
//! wait for the child hands in its exit status. Every report names the launch
//! it belongs to, so that what a stopped or replaced process still sends is
//! dropped.

use crate::binary::{
    candidate_views, first_usable, lemma_first_usable_from, resolve_binary, BinaryCandidate,
    CandidateView,
};
use crate::commands::{validate_config, validation_error};
use crate::error::{Error, ErrorView};
use crate::events::{event_views, exit_text, Event, EventView, ExitResult};
use crate::invocation::{build_invocation, invocation_for, Invocation};
use crate::log_buffer::{
    appended, line_views, LogBuffer, APP_LOG_CAPACITY, RUSTFS_LOG_CAPACITY,
};
use crate::text::{decimal, decimal_string};
use crate::types::{ConfigView, LogType, RustFsConfig};
use vstd::prelude::*;
use vstd::string::StringExecFns;

verus! {

/// How long a process that was asked to end may take before it is killed, in
/// milliseconds.
pub const TERMINATE_GRACE_MS: u64 = 3000;

/// One of the two output streams of the child.
#[derive(Clone, Copy, PartialEq, Eq, Debug, Structural)]
pub enum Stream {
    Stdout,
    Stderr,
}

/// The process under supervision.
#[derive(Clone, Copy, PartialEq, Eq, Debug, Structural)]
pub struct ManagedProcess {
    /// The operating system's identifier of the process.
    pub pid: u32,
    /// Whether the reader of standard output has not yet seen its end.
    pub stdout_open: bool,
    /// Whether the reader of standard error has not yet seen its end.
    pub stderr_open: bool,
}

/// The single place for a managed process.
#[derive(Clone, Copy, PartialEq, Eq, Debug, Structural)]
pub enum Slot {
    /// No process is supervised.
    Empty,
    /// A launch was accepted and the spawn is under way.
    Starting,
    /// The process runs and its output is being read.
    Running(ManagedProcess),
}

/// How the process that last left the slot ended.
#[derive(Clone, Copy, PartialEq, Eq, Debug, Structural)]
pub enum Terminal {
    /// It ended by itself, with this result.
    Exited(ExitResult),
    /// It was stopped on request.
    Stopped,
}

/// What came of the spawn that a launch asked for.
#[derive(Debug, Clone, PartialEq, Eq)]
pub enum SpawnOutcome {
    /// The child runs under this process identifier.
    Spawned { pid: u32 },
    /// The operating system refused; its words are carried.
    Failed { cause: String },
}

/// A [`SpawnOutcome`] with its text as a character sequence.
pub ghost enum SpawnOutcomeView {
    Spawned { pid: u32 },
    Failed { cause: Seq<char> },
}

impl View for SpawnOutcome {
    type V = SpawnOutcomeView;

    open spec fn view(&self) -> SpawnOutcomeView {
        match self {
            SpawnOutcome::Spawned { pid } => SpawnOutcomeView::Spawned { pid: *pid },
            SpawnOutcome::Failed { cause } => SpawnOutcomeView::Failed { cause: cause@ },
        }
    }
}

/// An accepted launch: what to spawn, and the number under which everything
/// about this launch is reported back.
#[derive(Debug, Clone, PartialEq, Eq)]
pub struct LaunchPlan {
    pub generation: u64,
    pub invocation: Invocation,
}

/// What the caller learns when it reports the outcome of a spawn.
#[derive(Debug, PartialEq, Eq)]
pub struct LaunchReport {
    /// The success message, or why the launch failed.
    pub result: Result<String, Error>,
    /// A child that was spawned for a launch that is no longer wanted: it is
    /// not supervised, and the caller must kill it.
    pub orphan: Option<u32>,
}

/// What a reader does after it has reported the end of its stream.
#[derive(Clone, Copy, PartialEq, Eq, Debug, Structural)]
pub enum ReaderDirective {
    /// Nothing is left to do for this reader.
    Finish,
    /// Both streams have ended: this reader waits for the child's exit status
    /// and reports it.
    AwaitExit,
}

/// The request to end a process: ask it to, and kill it once the grace period
/// has passed.
#[derive(Clone, Copy, PartialEq, Eq, Debug, Structural)]
pub struct KillOrder {
    pub pid: u32,
    pub grace_ms: u64,
}

/// What a call of `terminate` asks of the caller and what it published.
#[derive(Debug, Clone, PartialEq, Eq)]
pub struct Termination {
    /// The process to end, where one was running.
    pub order: Option<KillOrder>,
    /// The events to publish.
    pub events: Vec<Event>,
}

/// The next thing to do while a process that was asked to end is waited for.
#[derive(Clone, Copy, PartialEq, Eq, Debug, Structural)]
pub enum KillStep {
    /// The process has ended: nothing more to do.
    Done,
    /// The grace period has not passed: keep waiting.
    Wait,
    /// The grace period has passed: kill the process.
    Force,
}

/// The state of a supervisor, with the buffers as sequences of lines.
pub ghost struct SupervisorView {
    pub slot: Slot,
    /// The number of the most recent accepted launch.
    pub generation: u64,
    pub last_terminal: Option<Terminal>,
    pub app_logs: Seq<Seq<char>>,
    pub process_logs: Seq<Seq<char>>,
}

/// The state before anything was launched or logged.
pub open spec fn initial_state() -> SupervisorView {
    SupervisorView {
        slot: Slot::Empty,
        generation: 0,
        last_terminal: None,
        app_logs: Seq::empty(),
        process_logs: Seq::empty(),
    }
}

/// Why a launch is refused, if it is: the configuration is checked first,
/// then the slot, then the executable.
pub open spec fn launch_error(
    s: SupervisorView,
    config: ConfigView,
    path_exists: bool,
    candidates: Seq<CandidateView>,
) -> Option<ErrorView> {
    if validation_error(config, path_exists) is Some {
        validation_error(config, path_exists)
    } else if s.slot != Slot::Empty {
        Some(ErrorView::AlreadyRunning)
    } else if first_usable(candidates) is None {
        Some(ErrorView::BinaryNotFound)
    } else {
        None
    }
}

/// The number that follows `generation`; after the largest comes zero.
pub open spec fn next_generation(generation: u64) -> u64 {
    if generation == u64::MAX {
        0
    } else {
        (generation + 1) as u64
    }
}

/// The state after a launch was accepted.
pub open spec fn launch_begun(s: SupervisorView) -> SupervisorView {
    SupervisorView { slot: Slot::Starting, generation: next_generation(s.generation), ..s }
}

/// Whether the launch numbered `generation` still waits for its spawn.
pub open spec fn launch_pending(s: SupervisorView, generation: u64) -> bool {
    s.slot == Slot::Starting && s.generation == generation
}

/// The state after the outcome of a spawn was reported.
pub open spec fn launch_completed(
    s: SupervisorView,
    generation: u64,
    outcome: SpawnOutcomeView,
) -> SupervisorView {
    if !launch_pending(s, generation) {
        s
    } else {
        match outcome {
            SpawnOutcomeView::Spawned { pid } => SupervisorView {
                slot: Slot::Running(ManagedProcess { pid, stdout_open: true, stderr_open: true }),
                ..s
            },
            SpawnOutcomeView::Failed { .. } => SupervisorView { slot: Slot::Empty, ..s },
        }
    }
}

/// The message that answers a successful launch.
pub open spec fn launch_message(pid: u32) -> Seq<char> {
    "RustFS launched successfully (pid "@ + decimal(pid as nat) + ")"@
}

/// What a spawn report is answered with.
pub open spec fn launch_result(
    s: SupervisorView,
    generation: u64,
    outcome: SpawnOutcomeView,
) -> Result<Seq<char>, ErrorView> {
    match outcome {
        SpawnOutcomeView::Spawned { pid } => if launch_pending(s, generation) {
            Ok(launch_message(pid))
        } else {
            Err(ErrorView::Io("launch was cancelled"@))
        },
        SpawnOutcomeView::Failed { cause } => Err(ErrorView::SpawnFailed(cause)),
    }
}

/// The child that a spawn report leaves unsupervised, if any.
pub open spec fn launch_orphan(
    s: SupervisorView,
    generation: u64,
    outcome: SpawnOutcomeView,
) -> Option<u32> {
    match outcome {
        SpawnOutcomeView::Spawned { pid } => if launch_pending(s, generation) {
            None
        } else {
            Some(pid)
        },
        SpawnOutcomeView::Failed { .. } => None,
    }
}

/// Whether `stream` of `process` has not yet ended.
pub open spec fn stream_open(process: ManagedProcess, stream: Stream) -> bool {
    match stream {
        Stream::Stdout => process.stdout_open,
        Stream::Stderr => process.stderr_open,
    }
}

/// `process` with `stream` ended.
pub open spec fn stream_closed(process: ManagedProcess, stream: Stream) -> ManagedProcess {
    match stream {
        Stream::Stdout => ManagedProcess { stdout_open: false, ..process },
        Stream::Stderr => ManagedProcess { stderr_open: false, ..process },
    }
}

/// Whether a report about `stream` of launch `generation` concerns the
/// running process and a stream of it that is still open.
pub open spec fn accepts_output(s: SupervisorView, generation: u64, stream: Stream) -> bool {
    match s.slot {
        Slot::Running(process) => s.generation == generation && stream_open(process, stream),
        _ => false,
    }
}

/// The state after a line of output was reported.
pub open spec fn line_received(
    s: SupervisorView,
    generation: u64,
    stream: Stream,
    line: Seq<char>,
) -> SupervisorView {
    if accepts_output(s, generation, stream) {
        SupervisorView {
            process_logs: appended(s.process_logs, RUSTFS_LOG_CAPACITY as nat, line),
            ..s
        }
    } else {
        s
    }
}

/// The state after the end of a stream was reported.
pub open spec fn stream_ended(s: SupervisorView, generation: u64, stream: Stream) -> SupervisorView {
    match s.slot {
        Slot::Running(process) => if accepts_output(s, generation, stream) {
            SupervisorView { slot: Slot::Running(stream_closed(process, stream)), ..s }
        } else {
            s
        },
        _ => s,
    }
}

/// Whether the process of launch `generation` runs with both streams ended,
/// so that only its exit status is outstanding.
pub open spec fn awaiting_exit(s: SupervisorView, generation: u64) -> bool {
    match s.slot {
        Slot::Running(process) => s.generation == generation && !process.stdout_open
            && !process.stderr_open,
        _ => false,
    }
}

/// What the reader that reported the end of `stream` does next: the one whose
/// report ends the second stream waits for the exit status.
pub open spec fn eof_directive(s: SupervisorView, generation: u64, stream: Stream) -> ReaderDirective {
    if accepts_output(s, generation, stream) && awaiting_exit(
        stream_ended(s, generation, stream),
        generation,
    ) {
        ReaderDirective::AwaitExit
    } else {
        ReaderDirective::Finish
    }
}

/// The last line of a process's output in the buffer, written by the
/// supervisor.
pub open spec fn exit_marker(result: ExitResult) -> Seq<char> {
    "RustFS process exited with code: "@ + exit_text(result)
}

/// The state after the exit status was reported.
pub open spec fn exit_recorded(s: SupervisorView, generation: u64, result: ExitResult) -> SupervisorView {
    if awaiting_exit(s, generation) {
        SupervisorView {
            slot: Slot::Empty,
            last_terminal: Some(Terminal::Exited(result)),
            process_logs: appended(
                s.process_logs,
                RUSTFS_LOG_CAPACITY as nat,
                exit_marker(result),
            ),
            ..s
        }
    } else {
        s
    }
}

/// The events published when the exit status is reported.
pub open spec fn exit_events(s: SupervisorView, generation: u64, result: ExitResult) -> Seq<
    EventView,
> {
    if awaiting_exit(s, generation) {
        seq![
            EventView::LogAppended { source: LogType::RustFS, line: exit_marker(result) },
            EventView::ProcessExited { result },
        ]
    } else {
        Seq::empty()
    }
}

/// The line that the application log gets when a running process is stopped.
pub open spec fn stop_line() -> Seq<char> {
    "RustFS process terminated"@
}

/// The state after `terminate`.
pub open spec fn terminated(s: SupervisorView) -> SupervisorView {
    match s.slot {
        Slot::Empty => s,
        Slot::Starting => SupervisorView { slot: Slot::Empty, ..s },
        Slot::Running(_) => SupervisorView {
            slot: Slot::Empty,
            last_terminal: Some(Terminal::Stopped),
            app_logs: appended(s.app_logs, APP_LOG_CAPACITY as nat, stop_line()),
            ..s
        },
    }
}

/// The process that `terminate` asks the caller to end, if any.
pub open spec fn kill_order(s: SupervisorView) -> Option<KillOrder> {
    match s.slot {
        Slot::Running(process) => Some(
            KillOrder { pid: process.pid, grace_ms: TERMINATE_GRACE_MS },
        ),
        _ => None,
    }
}

/// The events published by `terminate`.
pub open spec fn terminate_events(s: SupervisorView) -> Seq<EventView> {
    match s.slot {
        Slot::Running(_) => seq![EventView::LogAppended { source: LogType::App, line: stop_line() }],
        _ => Seq::empty(),
    }
}

/// What to do about a process that was asked to end `waited_ms` ago.
pub open spec fn kill_step(exited: bool, waited_ms: u64) -> KillStep {
    if exited {
        KillStep::Done
    } else if waited_ms < TERMINATE_GRACE_MS {
        KillStep::Wait
    } else {
        KillStep::Force
    }
}

/// Decides between waiting on and killing a process that was asked to end
/// `waited_ms` milliseconds ago: the wait never outlasts the grace period.
pub fn escalate(exited: bool, waited_ms: u64) -> (step: KillStep)
    ensures
        step == kill_step(exited, waited_ms),
{
    if exited {
        KillStep::Done
    } else if waited_ms < TERMINATE_GRACE_MS {
        KillStep::Wait
    } else {
        KillStep::Force
    }
}

/// The supervisor: the slot for the one managed process and the two log
/// buffers.
pub struct Supervisor {
    slot: Slot,
    generation: u64,
    last_terminal: Option<Terminal>,
    app_logs: LogBuffer,
    process_logs: LogBuffer,
}

impl View for Supervisor {
    type V = SupervisorView;

    closed spec fn view(&self) -> SupervisorView {
        SupervisorView {
            slot: self.slot,
            generation: self.generation,
            last_terminal: self.last_terminal,
            app_logs: self.app_logs@,
            process_logs: self.process_logs@,
        }
    }
}

impl Supervisor {
    /// The buffers have the capacities that the two kinds of log are kept at.
    #[verifier::type_invariant]
    spec fn capacities_fixed(&self) -> bool {
        &&& self.app_logs.spec_capacity() == APP_LOG_CAPACITY
        &&& self.process_logs.spec_capacity() == RUSTFS_LOG_CAPACITY
    }

    /// Appends a line to the launcher's own log.
    fn append_app(&mut self, line: String)
        ensures
            final(self)@ == (SupervisorView {
                app_logs: appended(old(self)@.app_logs, APP_LOG_CAPACITY as nat, line@),
                ..old(self)@
            }),
    {
        proof {
            use_type_invariant(&*self);
        }
        let mut logs = LogBuffer::new(APP_LOG_CAPACITY);
        std::mem::swap(&mut logs, &mut self.app_logs);
        logs.append(line);
        self.app_logs = logs;
    }

    /// Appends a line to the log of the process's output.
    fn append_process(&mut self, line: String)
        ensures
            final(self)@ == (SupervisorView {
                process_logs: appended(
                    old(self)@.process_logs,
                    RUSTFS_LOG_CAPACITY as nat,
                    line@,
                ),
                ..old(self)@
            }),
    {
        proof {
            use_type_invariant(&*self);
        }
        let mut logs = LogBuffer::new(RUSTFS_LOG_CAPACITY);
        std::mem::swap(&mut logs, &mut self.process_logs);
        logs.append(line);
        self.process_logs = logs;
    }

    /// A supervisor with an empty slot and empty buffers.
    pub fn new() -> (supervisor: Supervisor)
        ensures
            supervisor@ == initial_state(),
    {
        Supervisor {
            slot: Slot::Empty,
            generation: 0,
            last_terminal: None,
            app_logs: LogBuffer::new(APP_LOG_CAPACITY),
            process_logs: LogBuffer::new(RUSTFS_LOG_CAPACITY),
        }
    }

    /// The slot as it stands.
    pub fn slot(&self) -> (slot: Slot)
        ensures
            slot == self@.slot,
    {
        self.slot
    }

    /// Whether a process is running.
    pub fn is_running(&self) -> (running: bool)
        ensures
            running == (self@.slot is Running),
    {
        match self.slot {
            Slot::Running(_) => true,
            _ => false,
        }
    }

    /// The number of the most recent accepted launch.
    pub fn generation(&self) -> (generation: u64)
        ensures
            generation == self@.generation,
    {
        self.generation
    }

    /// How the process that last left the slot ended.
    pub fn last_terminal(&self) -> (terminal: Option<Terminal>)
        ensures
            terminal == self@.last_terminal,
    {
        self.last_terminal
    }

    /// The launcher's own log lines, oldest first.
    pub fn app_logs(&self) -> (lines: Vec<String>)
        ensures
            line_views(lines@) == self@.app_logs,
            lines@.len() <= APP_LOG_CAPACITY,
    {
        proof {
            use_type_invariant(self);
        }
        let lines = self.app_logs.snapshot();
        lines
    }

    /// The captured output of the managed process, oldest first.
    pub fn process_logs(&self) -> (lines: Vec<String>)
        ensures
            line_views(lines@) == self@.process_logs,
            lines@.len() <= RUSTFS_LOG_CAPACITY,
    {
        proof {
            use_type_invariant(self);
        }
        let lines = self.process_logs.snapshot();
        lines
    }

    /// Appends a line to the launcher's own log and returns the event that
    /// announces it.
    pub fn log_app(&mut self, line: String) -> (event: Event)
        ensures
            final(self)@ == (SupervisorView {
                app_logs: appended(old(self)@.app_logs, APP_LOG_CAPACITY as nat, line@),
                ..old(self)@
            }),
            event@ == (EventView::LogAppended { source: LogType::App, line: line@ }),
    {
        self.append_app(line.clone());
        Event::LogAppended { source: LogType::App, line }
    }

    /// Drops the lines of both buffers. The slot is left as it is.
    pub fn clear_logs(&mut self)
        ensures
            final(self)@ == (SupervisorView {
                app_logs: Seq::empty(),
                process_logs: Seq::empty(),
                ..old(self)@
            }),
    {
        proof {
            use_type_invariant(&*self);
        }
        self.app_logs = LogBuffer::new(APP_LOG_CAPACITY);
        self.process_logs = LogBuffer::new(RUSTFS_LOG_CAPACITY);
    }

    /// Accepts or refuses a launch. `path_exists` says whether the data path
    /// is on the filesystem; `candidates` are the places where the executable
    /// was looked for. A refusal changes nothing. An accepted launch occupies
    /// the slot and comes back as the plan to spawn; the caller reports the
    /// outcome of the spawn to `complete_launch` under the plan's number.
    pub fn begin_launch(
        &mut self,
        config: &RustFsConfig,
        path_exists: bool,
        candidates: &Vec<BinaryCandidate>,
    ) -> (plan: Result<LaunchPlan, Error>)
        ensures
            config@.data_path.len() == 0 ==> plan is Err && plan->Err_0@
                == ErrorView::DataPathRequired && final(self)@ == old(self)@,
            config@.data_path.len() > 0 && !path_exists ==> plan is Err && plan->Err_0@
                == ErrorView::DataPathNotExist(config@.data_path) && final(self)@ == old(self)@,
            match launch_error(old(self)@, config@, path_exists, candidate_views(candidates@)) {
                Some(error) => {
                    &&& plan is Err
                    &&& plan->Err_0@ == error
                    &&& final(self)@ == old(self)@
                },
                None => {
                    &&& plan is Ok
                    &&& final(self)@ == launch_begun(old(self)@)
                    &&& plan->Ok_0.generation == final(self)@.generation
                    &&& plan->Ok_0.invocation@ == invocation_for(
                        candidates@[first_usable(candidate_views(candidates@))->Some_0].path@,
                        config@,
                    )
                },
            },
    {
        match validate_config(config, path_exists) {
            Err(error) => {
                return Err(error);
            },
            Ok(_) => {},
        }
        match self.slot {
            Slot::Empty => {},
            _ => {
                return Err(Error::AlreadyRunning);
            },
        }
        proof {
        }
        let program = match resolve_binary(candidates) {
            Ok(program) => program,
            Err(error) => {
                return Err(error);
            },
        };
        proof {
            use_type_invariant(&*self);
        }
        let generation: u64 = if self.generation == u64::MAX {
            0
        } else {
            self.generation + 1
        };
        self.generation = generation;
        self.slot = Slot::Starting;
        Ok(LaunchPlan { generation, invocation: build_invocation(program, config) })
    }

    /// Takes the outcome of the spawn of launch `generation`. Where that
    /// launch is still pending, a spawned child becomes the running process
    /// and a failed spawn empties the slot. Where it is not, nothing changes,
    /// and a spawned child comes back as an orphan to kill.
    pub fn complete_launch(&mut self, generation: u64, outcome: SpawnOutcome) -> (report:
        LaunchReport)
        ensures
            final(self)@ == launch_completed(old(self)@, generation, outcome@),
            match launch_result(old(self)@, generation, outcome@) {
                Ok(message) => report.result is Ok && report.result->Ok_0@ == message,
                Err(error) => report.result is Err && report.result->Err_0@ == error,
            },
            report.orphan == launch_orphan(old(self)@, generation, outcome@),
    {
        proof {
            use_type_invariant(&*self);
        }
        let pending = match self.slot {
            Slot::Starting => self.generation == generation,
            _ => false,
        };
        match outcome {
            SpawnOutcome::Spawned { pid } => {
                if pending {
                    self.slot = Slot::Running(
                        ManagedProcess { pid, stdout_open: true, stderr_open: true },
                    );
                    let mut message = String::from_str("RustFS launched successfully (pid ");
                    message.append(decimal_string(pid as u64).as_str());
                    message.append(")");
                    LaunchReport { result: Ok(message), orphan: None }
                } else {
                    LaunchReport {
                        result: Err(Error::Io(String::from_str("launch was cancelled"))),
                        orphan: Some(pid),
                    }
                }
            },
            SpawnOutcome::Failed { cause } => {
                if pending {
                    self.slot = Slot::Empty;
                }
                LaunchReport { result: Err(Error::SpawnFailed(cause)), orphan: None }
            },
        }
    }

    /// Takes one line that a reader read from `stream` of launch
    /// `generation`. Where that launch is the running process and the stream
    /// has not ended, the line goes to the process log and comes back as the
    /// event to publish. Otherwise the line is dropped.
    pub fn on_line(&mut self, generation: u64, stream: Stream, line: String) -> (event: Option<
        Event,
    >)
        ensures
            final(self)@ == line_received(old(self)@, generation, stream, line@),
            accepts_output(old(self)@, generation, stream) ==> event is Some && event->Some_0@ == (
            EventView::LogAppended { source: LogType::RustFS, line: line@ }),
            !accepts_output(old(self)@, generation, stream) ==> event is None,
    {
        if self.accepts(generation, stream) {
            self.append_process(line.clone());
            Some(Event::LogAppended { source: LogType::RustFS, line })
        } else {
            None
        }
    }

    /// Whether a report about `stream` of launch `generation` concerns the
    /// running process and a stream of it that is still open.
    pub fn accepts(&self, generation: u64, stream: Stream) -> (accepted: bool)
        ensures
            accepted == accepts_output(self@, generation, stream),
    {
        match self.slot {
            Slot::Running(process) => self.generation == generation && match stream {
                Stream::Stdout => process.stdout_open,
                Stream::Stderr => process.stderr_open,
            },
            _ => false,
        }
    }

    /// Takes the end of `stream` of launch `generation`. The reader whose
    /// report ends the second stream of the running process is told to wait
    /// for the exit status; every other report is answered with `Finish`.
    pub fn on_eof(&mut self, generation: u64, stream: Stream) -> (directive: ReaderDirective)
        ensures
            final(self)@ == stream_ended(old(self)@, generation, stream),
            directive == eof_directive(old(self)@, generation, stream),
    {
        if !self.accepts(generation, stream) {
            return ReaderDirective::Finish;
        }
        match self.slot {
            Slot::Running(process) => {
                let closed = match stream {
                    Stream::Stdout => ManagedProcess {
                        pid: process.pid,
                        stdout_open: false,
                        stderr_open: process.stderr_open,
                    },
                    Stream::Stderr => ManagedProcess {
                        pid: process.pid,
                        stdout_open: process.stdout_open,
                        stderr_open: false,
                    },
                };
                proof {
                    use_type_invariant(&*self);
                }
                self.slot = Slot::Running(closed);
                if !closed.stdout_open && !closed.stderr_open {
                    ReaderDirective::AwaitExit
                } else {
                    ReaderDirective::Finish
                }
            },
            _ => ReaderDirective::Finish,
        }
    }

    /// Takes the exit status of launch `generation`. Where that launch is the
    /// running process and both its streams have ended, the closing line goes
    /// to the process log, the result is kept, the slot is emptied, and the
    /// events come back: the closing line, then the one exit notice.
    /// Every other report changes nothing and publishes nothing.
    pub fn on_exit(&mut self, generation: u64, result: ExitResult) -> (events: Vec<Event>)
        ensures
            final(self)@ == exit_recorded(old(self)@, generation, result),
            event_views(events@) == exit_events(old(self)@, generation, result),
    {
        let awaited = match self.slot {
            Slot::Running(process) => self.generation == generation && !process.stdout_open
                && !process.stderr_open,
            _ => false,
        };
        let mut events: Vec<Event> = Vec::new();
        if awaited {
            let marker = String::from_str("RustFS process exited with code: ").concat(
                result.text().as_str(),
            );
            self.append_process(marker.clone());
            proof {
                use_type_invariant(&*self);
            }
            self.last_terminal = Some(Terminal::Exited(result));
            self.slot = Slot::Empty;
            events.push(Event::LogAppended { source: LogType::RustFS, line: marker });
            events.push(Event::ProcessExited { result });
        }
        events
    }

    /// Empties the slot. A running process comes back as the order to end
    /// it, and the application log gets a line about it; a pending launch is
    /// cancelled; on an empty slot nothing happens.
    pub fn terminate(&mut self) -> (termination: Termination)
        ensures
            final(self)@ == terminated(old(self)@),
            final(self)@.slot == Slot::Empty,
            termination.order == kill_order(old(self)@),
            event_views(termination.events@) == terminate_events(old(self)@),
    {
        let mut events: Vec<Event> = Vec::new();
        let order = match self.slot {
            Slot::Running(process) => {
                let line = String::from_str("RustFS process terminated");
                self.append_app(line.clone());
                proof {
                    use_type_invariant(&*self);
                }
                self.last_terminal = Some(Terminal::Stopped);
                events.push(Event::LogAppended { source: LogType::App, line });
                Some(KillOrder { pid: process.pid, grace_ms: TERMINATE_GRACE_MS })
            },
            _ => None,
        };
        proof {
            use_type_invariant(&*self);
        }
        self.slot = Slot::Empty;
        Termination { order, events }
    }
}

} // verus!
