use rustfs_launcher::binary::BinaryCandidate;
use rustfs_launcher::commands::{
    check_tcp_connection, get_app_logs, get_rustfs_logs, launch_rustfs, stop_rustfs,
    validate_config,
};
use rustfs_launcher::error::Error;
use rustfs_launcher::events::{Event, ExitResult};
use rustfs_launcher::health::ConnectOutcome;
use rustfs_launcher::invocation::Invocation;
use rustfs_launcher::supervisor::{
    escalate, KillOrder, KillStep, ManagedProcess, ReaderDirective, Slot, SpawnOutcome, Stream,
    Supervisor, Terminal, TERMINATE_GRACE_MS,
};
use rustfs_launcher::types::{LogType, RustFsConfig};

fn config(data_path: &str) -> RustFsConfig {
    RustFsConfig {
        data_path: data_path.to_string(),
        port: Some(9000),
        host: Some("127.0.0.1".to_string()),
        access_key: None,
        secret_key: None,
        console_enable: false,
    }
}

fn binary() -> Vec<BinaryCandidate> {
    vec![BinaryCandidate { path: "/usr/bin/rustfs".to_string(), exists: true, executable: true }]
}

fn running(pid: u32) -> (Supervisor, u64) {
    let mut supervisor = Supervisor::new();
    let plan = supervisor.begin_launch(&config("/tmp/data"), true, &binary()).unwrap();
    let report = supervisor.complete_launch(plan.generation, SpawnOutcome::Spawned { pid });
    assert!(report.result.is_ok());
    (supervisor, plan.generation)
}

fn exits_in(events: &[Event]) -> usize {
    events.iter().filter(|e| matches!(e, Event::ProcessExited { .. })).count()
}

#[test]
fn new_supervisor_is_empty() {
    let supervisor = Supervisor::new();
    assert_eq!(supervisor.slot(), Slot::Empty);
    assert!(!supervisor.is_running());
    assert_eq!(supervisor.last_terminal(), None);
    assert_eq!(supervisor.app_logs(), Vec::<String>::new());
    assert_eq!(supervisor.process_logs(), Vec::<String>::new());
}

#[test]
fn validate_accepts_an_existing_data_path() {
    assert_eq!(validate_config(&config("/tmp/data"), true), Ok(true));
}

#[test]
fn validate_refuses_an_empty_data_path() {
    assert_eq!(validate_config(&config(""), true), Err(Error::DataPathRequired));
    assert_eq!(validate_config(&config(""), false), Err(Error::DataPathRequired));
}

#[test]
fn validate_refuses_a_missing_data_path() {
    assert_eq!(
        validate_config(&config("/no/such/dir"), false),
        Err(Error::DataPathNotExist("/no/such/dir".to_string()))
    );
}

#[test]
fn launch_with_empty_data_path_is_refused_and_nothing_is_spawned() {
    let mut supervisor = Supervisor::new();
    let plan = supervisor.begin_launch(&config(""), true, &binary());
    assert_eq!(plan, Err(Error::DataPathRequired));
    assert_eq!(supervisor.slot(), Slot::Empty);
    assert_eq!(supervisor.generation(), 0);
}

#[test]
fn launch_with_missing_data_path_is_refused_and_nothing_is_spawned() {
    let mut supervisor = Supervisor::new();
    let plan = supervisor.begin_launch(&config("/no/such/dir"), false, &binary());
    assert_eq!(plan, Err(Error::DataPathNotExist("/no/such/dir".to_string())));
    assert_eq!(supervisor.slot(), Slot::Empty);
}

#[test]
fn launch_without_a_usable_binary_is_refused() {
    let mut supervisor = Supervisor::new();
    let candidates =
        vec![BinaryCandidate { path: "/x/rustfs".to_string(), exists: true, executable: false }];
    let plan = supervisor.begin_launch(&config("/tmp/data"), true, &candidates);
    assert_eq!(plan, Err(Error::BinaryNotFound));
    assert_eq!(supervisor.slot(), Slot::Empty);
}

#[test]
fn the_configuration_is_checked_before_the_slot() {
    let (mut supervisor, _) = running(7);
    assert_eq!(
        supervisor.begin_launch(&config(""), true, &binary()),
        Err(Error::DataPathRequired)
    );
    assert_eq!(
        supervisor.begin_launch(&config("/gone"), false, &binary()),
        Err(Error::DataPathNotExist("/gone".to_string()))
    );
    assert_eq!(
        supervisor.begin_launch(&config("/tmp/data"), true, &Vec::new()),
        Err(Error::AlreadyRunning)
    );
}

#[test]
fn accepted_launch_occupies_the_slot_and_plans_the_spawn() {
    let mut supervisor = Supervisor::new();
    let plan = supervisor.begin_launch(&config("/tmp/data"), true, &binary()).unwrap();
    assert_eq!(supervisor.slot(), Slot::Starting);
    assert_eq!(plan.generation, 1);
    assert_eq!(supervisor.generation(), 1);
    assert_eq!(
        plan.invocation,
        Invocation {
            program: "/usr/bin/rustfs".to_string(),
            args: vec![
                "/tmp/data".to_string(),
                "--address".to_string(),
                "127.0.0.1:9000".to_string()
            ],
            envs: vec![],
        }
    );
}

#[test]
fn spawned_child_becomes_the_running_process() {
    let mut supervisor = Supervisor::new();
    let plan = supervisor.begin_launch(&config("/tmp/data"), true, &binary()).unwrap();
    let report = supervisor.complete_launch(plan.generation, SpawnOutcome::Spawned { pid: 4242 });
    assert_eq!(report.result, Ok("RustFS launched successfully (pid 4242)".to_string()));
    assert_eq!(report.orphan, None);
    assert_eq!(
        supervisor.slot(),
        Slot::Running(ManagedProcess { pid: 4242, stdout_open: true, stderr_open: true })
    );
    assert!(supervisor.is_running());
}

#[test]
fn failed_spawn_leaves_the_slot_empty() {
    let mut supervisor = Supervisor::new();
    let plan = supervisor.begin_launch(&config("/tmp/data"), true, &binary()).unwrap();
    let report = supervisor.complete_launch(
        plan.generation,
        SpawnOutcome::Failed { cause: "No such file or directory (os error 2)".to_string() },
    );
    assert_eq!(
        report.result,
        Err(Error::SpawnFailed("No such file or directory (os error 2)".to_string()))
    );
    assert_eq!(report.orphan, None);
    assert_eq!(supervisor.slot(), Slot::Empty);
    assert!(supervisor.begin_launch(&config("/tmp/data"), true, &binary()).is_ok());
}

#[test]
fn second_launch_is_refused_while_the_first_holds_the_slot() {
    let mut supervisor = Supervisor::new();
    let plan = supervisor.begin_launch(&config("/tmp/data"), true, &binary()).unwrap();
    assert_eq!(
        supervisor.begin_launch(&config("/tmp/other"), true, &binary()),
        Err(Error::AlreadyRunning)
    );
    assert_eq!(supervisor.slot(), Slot::Starting);
    supervisor.complete_launch(plan.generation, SpawnOutcome::Spawned { pid: 11 });
    let before = supervisor.slot();
    assert_eq!(
        supervisor.begin_launch(&config("/tmp/other"), true, &binary()),
        Err(Error::AlreadyRunning)
    );
    assert_eq!(supervisor.slot(), before);
    assert_eq!(supervisor.generation(), plan.generation);
}

#[test]
fn spawn_report_for_a_cancelled_launch_hands_the_child_back() {
    let mut supervisor = Supervisor::new();
    let plan = supervisor.begin_launch(&config("/tmp/data"), true, &binary()).unwrap();
    let termination = supervisor.terminate();
    assert_eq!(termination.order, None);
    assert_eq!(supervisor.slot(), Slot::Empty);
    let report = supervisor.complete_launch(plan.generation, SpawnOutcome::Spawned { pid: 99 });
    assert_eq!(report.result, Err(Error::Io("launch was cancelled".to_string())));
    assert_eq!(report.orphan, Some(99));
    assert_eq!(supervisor.slot(), Slot::Empty);
}

#[test]
fn spawn_report_under_a_wrong_number_changes_nothing() {
    let mut supervisor = Supervisor::new();
    let plan = supervisor.begin_launch(&config("/tmp/data"), true, &binary()).unwrap();
    let report =
        supervisor.complete_launch(plan.generation + 1, SpawnOutcome::Spawned { pid: 5 });
    assert_eq!(report.orphan, Some(5));
    assert_eq!(supervisor.slot(), Slot::Starting);
    let report = supervisor.complete_launch(
        plan.generation + 1,
        SpawnOutcome::Failed { cause: "late".to_string() },
    );
    assert_eq!(report.result, Err(Error::SpawnFailed("late".to_string())));
    assert_eq!(supervisor.slot(), Slot::Starting);
}

#[test]
fn lines_reach_the_process_log_in_the_order_read() {
    let (mut supervisor, generation) = running(1);
    let event = supervisor.on_line(generation, Stream::Stdout, "starting".to_string());
    assert_eq!(
        event,
        Some(Event::LogAppended { source: LogType::RustFS, line: "starting".to_string() })
    );
    supervisor.on_line(generation, Stream::Stderr, "warning".to_string());
    supervisor.on_line(generation, Stream::Stdout, "ready".to_string());
    assert_eq!(supervisor.process_logs(), vec!["starting", "warning", "ready"]);
    assert_eq!(get_rustfs_logs(&supervisor), vec!["starting", "warning", "ready"]);
    assert_eq!(supervisor.app_logs(), Vec::<String>::new());
}

#[test]
fn lines_of_another_launch_are_dropped() {
    let (mut supervisor, generation) = running(1);
    assert!(!supervisor.accepts(generation + 1, Stream::Stdout));
    assert_eq!(supervisor.on_line(generation + 1, Stream::Stdout, "stale".to_string()), None);
    assert_eq!(supervisor.process_logs(), Vec::<String>::new());
}

#[test]
fn lines_after_the_end_of_their_stream_are_dropped() {
    let (mut supervisor, generation) = running(1);
    assert_eq!(supervisor.on_eof(generation, Stream::Stdout), ReaderDirective::Finish);
    assert_eq!(supervisor.on_line(generation, Stream::Stdout, "late".to_string()), None);
    assert!(supervisor.on_line(generation, Stream::Stderr, "still here".to_string()).is_some());
    assert_eq!(supervisor.process_logs(), vec!["still here"]);
}

#[test]
fn only_the_second_end_of_stream_waits_for_the_exit() {
    for (first, second) in [(Stream::Stdout, Stream::Stderr), (Stream::Stderr, Stream::Stdout)] {
        let (mut supervisor, generation) = running(1);
        assert_eq!(supervisor.on_eof(generation, first), ReaderDirective::Finish);
        assert_eq!(supervisor.on_eof(generation, first), ReaderDirective::Finish);
        assert_eq!(supervisor.on_eof(generation, second), ReaderDirective::AwaitExit);
        assert_eq!(supervisor.on_eof(generation, second), ReaderDirective::Finish);
        assert_eq!(supervisor.on_eof(generation, first), ReaderDirective::Finish);
        assert_eq!(
            supervisor.slot(),
            Slot::Running(ManagedProcess { pid: 1, stdout_open: false, stderr_open: false })
        );
    }
}

#[test]
fn exit_is_recorded_and_announced_once() {
    let (mut supervisor, generation) = running(1);
    supervisor.on_line(generation, Stream::Stdout, "bye".to_string());
    supervisor.on_eof(generation, Stream::Stdout);
    supervisor.on_eof(generation, Stream::Stderr);
    let events = supervisor.on_exit(generation, ExitResult::Code(3));
    assert_eq!(
        events,
        vec![
            Event::LogAppended {
                source: LogType::RustFS,
                line: "RustFS process exited with code: 3".to_string()
            },
            Event::ProcessExited { result: ExitResult::Code(3) },
        ]
    );
    assert_eq!(supervisor.slot(), Slot::Empty);
    assert_eq!(supervisor.last_terminal(), Some(Terminal::Exited(ExitResult::Code(3))));
    assert_eq!(supervisor.process_logs(), vec!["bye", "RustFS process exited with code: 3"]);
    assert_eq!(supervisor.on_exit(generation, ExitResult::Code(3)), Vec::<Event>::new());
    assert_eq!(supervisor.process_logs().len(), 2);
}

#[test]
fn exit_before_both_streams_ended_is_not_taken() {
    let (mut supervisor, generation) = running(1);
    assert_eq!(supervisor.on_exit(generation, ExitResult::Code(0)), Vec::<Event>::new());
    supervisor.on_eof(generation, Stream::Stderr);
    assert_eq!(supervisor.on_exit(generation, ExitResult::Code(0)), Vec::<Event>::new());
    assert!(supervisor.is_running());
    assert_eq!(supervisor.last_terminal(), None);
}

#[test]
fn exit_by_signal_is_told_apart() {
    let (mut supervisor, generation) = running(1);
    supervisor.on_eof(generation, Stream::Stdout);
    supervisor.on_eof(generation, Stream::Stderr);
    let events = supervisor.on_exit(generation, ExitResult::Signal(9));
    assert_eq!(events[1], Event::ProcessExited { result: ExitResult::Signal(9) });
    assert_eq!(supervisor.process_logs(), vec!["RustFS process exited with code: signal 9"]);
}

#[test]
fn terminate_on_an_empty_slot_does_nothing() {
    let mut supervisor = Supervisor::new();
    let termination = supervisor.terminate();
    assert_eq!(termination.order, None);
    assert_eq!(termination.events, Vec::<Event>::new());
    assert_eq!(supervisor.slot(), Slot::Empty);
    assert_eq!(supervisor.last_terminal(), None);
    assert_eq!(supervisor.app_logs(), Vec::<String>::new());
}

#[test]
fn terminate_twice_ends_the_process_once() {
    let (mut supervisor, _) = running(321);
    let first = supervisor.terminate();
    assert_eq!(first.order, Some(KillOrder { pid: 321, grace_ms: TERMINATE_GRACE_MS }));
    assert_eq!(
        first.events,
        vec![Event::LogAppended {
            source: LogType::App,
            line: "RustFS process terminated".to_string()
        }]
    );
    let second = supervisor.terminate();
    assert_eq!(second.order, None);
    assert_eq!(second.events, Vec::<Event>::new());
    assert_eq!(supervisor.slot(), Slot::Empty);
    assert_eq!(supervisor.last_terminal(), Some(Terminal::Stopped));
    assert_eq!(get_app_logs(&supervisor), vec!["RustFS process terminated"]);
}

#[test]
fn nothing_is_appended_after_terminate() {
    let (mut supervisor, generation) = running(1);
    supervisor.on_line(generation, Stream::Stdout, "before".to_string());
    supervisor.terminate();
    assert_eq!(supervisor.on_line(generation, Stream::Stdout, "after".to_string()), None);
    assert_eq!(supervisor.on_eof(generation, Stream::Stdout), ReaderDirective::Finish);
    assert_eq!(supervisor.on_eof(generation, Stream::Stderr), ReaderDirective::Finish);
    assert_eq!(supervisor.on_exit(generation, ExitResult::Signal(15)), Vec::<Event>::new());
    assert_eq!(supervisor.process_logs(), vec!["before"]);
    assert_eq!(supervisor.last_terminal(), Some(Terminal::Stopped));
}

#[test]
fn readers_of_a_stopped_process_do_not_feed_the_next_one() {
    let (mut supervisor, old) = running(1);
    supervisor.terminate();
    let plan = supervisor.begin_launch(&config("/tmp/data"), true, &binary()).unwrap();
    supervisor.complete_launch(plan.generation, SpawnOutcome::Spawned { pid: 2 });
    assert_ne!(plan.generation, old);
    assert_eq!(supervisor.on_line(old, Stream::Stdout, "ghost".to_string()), None);
    assert_eq!(supervisor.on_eof(old, Stream::Stdout), ReaderDirective::Finish);
    assert_eq!(
        supervisor.slot(),
        Slot::Running(ManagedProcess { pid: 2, stdout_open: true, stderr_open: true })
    );
    assert!(supervisor.on_line(plan.generation, Stream::Stdout, "fresh".to_string()).is_some());
    assert_eq!(supervisor.process_logs(), vec!["fresh"]);
}

#[test]
fn app_log_lines_are_kept_and_announced() {
    let mut supervisor = Supervisor::new();
    let event = supervisor.log_app("RustFS Launcher started".to_string());
    assert_eq!(
        event,
        Event::LogAppended { source: LogType::App, line: "RustFS Launcher started".to_string() }
    );
    for i in 0..150 {
        supervisor.log_app(format!("entry {}", i));
    }
    let logs = supervisor.app_logs();
    assert_eq!(logs.len(), 100);
    assert_eq!(logs[0], "entry 50");
    assert_eq!(logs[99], "entry 149");
}

#[test]
fn clear_logs_keeps_the_slot() {
    let (mut supervisor, generation) = running(1);
    supervisor.log_app("a".to_string());
    supervisor.on_line(generation, Stream::Stdout, "b".to_string());
    supervisor.clear_logs();
    assert!(supervisor.is_running());
    assert_eq!(supervisor.app_logs(), Vec::<String>::new());
    assert_eq!(supervisor.process_logs(), Vec::<String>::new());
}

#[test]
fn escalation_waits_for_the_grace_period_then_kills() {
    assert_eq!(TERMINATE_GRACE_MS, 3000);
    assert_eq!(escalate(true, 0), KillStep::Done);
    assert_eq!(escalate(true, 10_000), KillStep::Done);
    assert_eq!(escalate(false, 0), KillStep::Wait);
    assert_eq!(escalate(false, 2999), KillStep::Wait);
    assert_eq!(escalate(false, 3000), KillStep::Force);
    assert_eq!(escalate(false, u64::MAX), KillStep::Force);
}

#[test]
fn launch_request_answers_with_a_response() {
    let mut supervisor = Supervisor::new();
    let plan = supervisor.begin_launch(&config("/tmp/data"), true, &binary()).unwrap();
    let answer = launch_rustfs(&mut supervisor, plan.generation, SpawnOutcome::Spawned { pid: 8 });
    let response = answer.response.unwrap();
    assert!(response.success);
    assert_eq!(response.message, "RustFS launched successfully (pid 8)");
    assert_eq!(answer.orphan, None);
    assert!(supervisor.is_running());
}

#[test]
fn launch_request_passes_a_spawn_failure_on() {
    let mut supervisor = Supervisor::new();
    let plan = supervisor.begin_launch(&config("/tmp/data"), true, &binary()).unwrap();
    let answer = launch_rustfs(
        &mut supervisor,
        plan.generation,
        SpawnOutcome::Failed { cause: "exec format error".to_string() },
    );
    assert_eq!(answer.response, Err(Error::SpawnFailed("exec format error".to_string())));
    assert_eq!(supervisor.slot(), Slot::Empty);
}

#[test]
fn stop_request_always_succeeds() {
    let mut supervisor = Supervisor::new();
    let idle = stop_rustfs(&mut supervisor);
    assert!(idle.response.success);
    assert_eq!(idle.response.message, "RustFS process terminated");
    assert_eq!(idle.order, None);
    let (mut supervisor, _) = running(55);
    let busy = stop_rustfs(&mut supervisor);
    assert!(busy.response.success);
    assert_eq!(busy.order, Some(KillOrder { pid: 55, grace_ms: 3000 }));
    assert_eq!(busy.events.len(), 1);
    assert_eq!(supervisor.slot(), Slot::Empty);
}

#[test]
fn launch_run_check_stop_from_end_to_end() {
    let mut supervisor = Supervisor::new();
    let wanted = RustFsConfig {
        data_path: "/tmp/data".to_string(),
        port: Some(9000),
        host: Some("127.0.0.1".to_string()),
        access_key: None,
        secret_key: None,
        console_enable: false,
    };
    let plan = supervisor.begin_launch(&wanted, true, &binary()).unwrap();
    let answer =
        launch_rustfs(&mut supervisor, plan.generation, SpawnOutcome::Spawned { pid: 1000 });
    assert!(answer.response.unwrap().success);
    assert!(supervisor.is_running());
    assert_eq!(check_tcp_connection(true, Some(ConnectOutcome::Refused)), Ok(false));
    assert_eq!(check_tcp_connection(true, Some(ConnectOutcome::Connected)), Ok(true));
    let stopped = stop_rustfs(&mut supervisor);
    assert_eq!(stopped.order.map(|order| order.pid), Some(1000));
    assert_eq!(supervisor.slot(), Slot::Empty);
    assert_eq!(check_tcp_connection(true, Some(ConnectOutcome::Refused)), Ok(false));
}

#[test]
fn long_output_then_failure_fills_the_log_and_exits_once() {
    let (mut supervisor, generation) = running(1);
    let mut published: Vec<Event> = Vec::new();
    for i in 0..1500 {
        let event = supervisor.on_line(generation, Stream::Stdout, format!("out {}", i));
        published.push(event.unwrap());
    }
    assert_eq!(supervisor.on_eof(generation, Stream::Stderr), ReaderDirective::Finish);
    assert_eq!(supervisor.on_eof(generation, Stream::Stdout), ReaderDirective::AwaitExit);
    let before_exit = supervisor.process_logs();
    assert_eq!(before_exit.len(), 1000);
    assert_eq!(before_exit[0], "out 500");
    assert_eq!(before_exit[999], "out 1499");
    published.extend(supervisor.on_exit(generation, ExitResult::Code(1)));
    published.extend(supervisor.on_exit(generation, ExitResult::Code(1)));
    assert_eq!(exits_in(&published), 1);
    assert_eq!(published.last(), Some(&Event::ProcessExited { result: ExitResult::Code(1) }));
    assert_eq!(supervisor.slot(), Slot::Empty);
    let logs = supervisor.process_logs();
    assert_eq!(logs.len(), 1000);
    assert_eq!(logs[0], "out 501");
    assert_eq!(logs[998], "out 1499");
    assert_eq!(logs[999], "RustFS process exited with code: 1");
}
