use rustfs_launcher::binary::BinaryCandidate;
use rustfs_launcher::events::Event;
use rustfs_launcher::shutdown::{handle_signal, HostSignal, WindowAction};
use rustfs_launcher::supervisor::{KillOrder, Slot, SpawnOutcome, Supervisor};
use rustfs_launcher::types::{LogType, RustFsConfig};

fn running_supervisor(pid: u32) -> Supervisor {
    let mut supervisor = Supervisor::new();
    let config = RustFsConfig { data_path: "/tmp/data".to_string(), ..RustFsConfig::default() };
    let candidates =
        vec![BinaryCandidate { path: "/bin/rustfs".to_string(), exists: true, executable: true }];
    let plan = supervisor.begin_launch(&config, true, &candidates).unwrap();
    supervisor.complete_launch(plan.generation, SpawnOutcome::Spawned { pid });
    supervisor
}

#[test]
fn closing_the_window_hides_it_and_keeps_the_process() {
    let mut supervisor = running_supervisor(77);
    let before = supervisor.slot();
    let directive = handle_signal(&mut supervisor, HostSignal::WindowCloseRequested);
    assert_eq!(directive.window, WindowAction::Hide);
    assert!(directive.prevent_close);
    assert_eq!(directive.order, None);
    assert!(!directive.exit_app);
    assert!(directive.events.is_empty());
    assert_eq!(supervisor.slot(), before);
    assert!(supervisor.app_logs().is_empty());
}

#[test]
fn quitting_ends_the_process_and_exits() {
    let mut supervisor = running_supervisor(77);
    let directive = handle_signal(&mut supervisor, HostSignal::QuitRequested);
    assert_eq!(directive.window, WindowAction::Keep);
    assert!(!directive.prevent_close);
    assert_eq!(directive.order, Some(KillOrder { pid: 77, grace_ms: 3000 }));
    assert!(directive.exit_app);
    assert_eq!(
        directive.events,
        vec![
            Event::LogAppended {
                source: LogType::App,
                line: "Quit requested from tray, terminating...".to_string()
            },
            Event::LogAppended {
                source: LogType::App,
                line: "RustFS process terminated".to_string()
            },
        ]
    );
    assert_eq!(supervisor.slot(), Slot::Empty);
    assert_eq!(
        supervisor.app_logs(),
        vec!["Quit requested from tray, terminating...", "RustFS process terminated"]
    );
}

#[test]
fn quit_then_exit_ends_the_process_once() {
    let mut supervisor = running_supervisor(5);
    let quit = handle_signal(&mut supervisor, HostSignal::QuitRequested);
    let requested = handle_signal(&mut supervisor, HostSignal::ExitRequested);
    let exit = handle_signal(&mut supervisor, HostSignal::Exit);
    let orders: Vec<KillOrder> =
        [quit.order, requested.order, exit.order].into_iter().flatten().collect();
    assert_eq!(orders, vec![KillOrder { pid: 5, grace_ms: 3000 }]);
    assert!(!requested.exit_app);
    assert!(!exit.exit_app);
    assert!(requested.events.is_empty());
    assert!(exit.events.is_empty());
}

#[test]
fn exit_without_a_process_orders_nothing() {
    let mut supervisor = Supervisor::new();
    for signal in [HostSignal::ExitRequested, HostSignal::Exit] {
        let directive = handle_signal(&mut supervisor, signal);
        assert_eq!(directive.order, None);
        assert!(directive.events.is_empty());
        assert_eq!(supervisor.slot(), Slot::Empty);
    }
}

#[test]
fn exit_alone_ends_a_running_process() {
    for signal in [HostSignal::ExitRequested, HostSignal::Exit] {
        let mut supervisor = running_supervisor(9);
        let directive = handle_signal(&mut supervisor, signal);
        assert_eq!(directive.order, Some(KillOrder { pid: 9, grace_ms: 3000 }));
        assert_eq!(directive.events.len(), 1);
        assert_eq!(supervisor.slot(), Slot::Empty);
    }
}

#[test]
fn showing_and_tray_clicks_only_move_the_window() {
    let mut supervisor = running_supervisor(1);
    let before = supervisor.slot();
    let show = handle_signal(&mut supervisor, HostSignal::ShowRequested);
    assert_eq!(show.window, WindowAction::ShowAndFocus);
    let hide = handle_signal(&mut supervisor, HostSignal::TrayClicked { window_visible: true });
    assert_eq!(hide.window, WindowAction::Hide);
    let reveal = handle_signal(&mut supervisor, HostSignal::TrayClicked { window_visible: false });
    assert_eq!(reveal.window, WindowAction::ShowAndFocus);
    for directive in [show, hide, reveal] {
        assert!(!directive.prevent_close);
        assert!(!directive.exit_app);
        assert_eq!(directive.order, None);
        assert!(directive.events.is_empty());
    }
    assert_eq!(supervisor.slot(), before);
}
