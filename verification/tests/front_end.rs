use rustfs_launcher::form::{
    blank, files_dropped, folder_selected, handle_submit, optional_field, parse_port,
    submit_disabled, submit_label, whitespace, SubmitAction,
};
use rustfs_launcher::text::decimal_string;
use rustfs_launcher::toast::{
    remove_toast, show_toast, ToastMessage, ToastType, TOAST_LIFETIME_MS,
};
use rustfs_launcher::types::{CommandResponse, LogType, RustFsConfig};
use rustfs_launcher::ui::{load_config, log_lines, UiState};
use std::collections::VecDeque;

fn config(data_path: &str, port: Option<u16>) -> RustFsConfig {
    RustFsConfig { data_path: data_path.to_string(), port, ..RustFsConfig::default() }
}

fn toast(message: &str, toast_type: ToastType, id: u64) -> ToastMessage {
    ToastMessage { message: message.to_string(), toast_type, id }
}

fn lines(logs: &VecDeque<String>) -> Vec<String> {
    logs.iter().cloned().collect()
}

#[test]
fn whitespace_agrees_with_the_standard_library() {
    for code in 0u32..0x3100 {
        if let Some(c) = char::from_u32(code) {
            assert_eq!(whitespace(c), c.is_whitespace(), "U+{:04X}", code);
        }
    }
    assert!(!whitespace('\u{FEFF}'));
    assert!(!whitespace('\u{10FFFF}'));
}

#[test]
fn blank_texts() {
    assert!(blank(""));
    assert!(blank(" "));
    assert!(blank(" \t\r\n\u{3000}"));
    assert!(!blank("a"));
    assert!(!blank("  a  "));
    assert!(!blank("   ."));
    for text in ["", "  ", "\u{a0}", " x", "x ", "\u{2003}\u{2003}", "/tmp"] {
        assert_eq!(blank(text), text.trim().is_empty());
    }
}

#[test]
fn submit_while_running_stops() {
    assert_eq!(handle_submit(true, &config("", Some(0))), SubmitAction::Stop);
    assert_eq!(handle_submit(true, &config("/data", Some(9000))), SubmitAction::Stop);
}

#[test]
fn submit_without_a_data_path_is_refused() {
    let refusal = SubmitAction::Reject("Data path is required".to_string());
    assert_eq!(handle_submit(false, &config("", Some(9000))), refusal);
    assert_eq!(handle_submit(false, &config("   ", Some(9000))), refusal);
    assert_eq!(handle_submit(false, &config(" \t", Some(0))), refusal);
}

#[test]
fn submit_with_port_zero_is_refused() {
    assert_eq!(
        handle_submit(false, &config("/data", Some(0))),
        SubmitAction::Reject("Port must be greater than 0".to_string())
    );
}

#[test]
fn submit_of_a_sound_configuration_launches() {
    assert_eq!(handle_submit(false, &config("/data", Some(1))), SubmitAction::Launch);
    assert_eq!(handle_submit(false, &config("/data", Some(65535))), SubmitAction::Launch);
    assert_eq!(handle_submit(false, &config("/data", None)), SubmitAction::Launch);
    assert_eq!(handle_submit(false, &config(" /data ", Some(9000))), SubmitAction::Launch);
}

#[test]
fn picked_folder_becomes_the_data_path() {
    let mut current = config("/old", Some(9000));
    folder_selected(&mut current, Some("/new".to_string()));
    assert_eq!(current, config("/new", Some(9000)));
    folder_selected(&mut current, Some(String::new()));
    assert_eq!(current, config("/new", Some(9000)));
    folder_selected(&mut current, None);
    assert_eq!(current, config("/new", Some(9000)));
}

#[test]
fn first_dropped_file_becomes_the_data_path() {
    let mut current = config("/old", None);
    files_dropped(&mut current, &vec!["/a".to_string(), "/b".to_string()]);
    assert_eq!(current, config("/a", None));
    files_dropped(&mut current, &Vec::new());
    assert_eq!(current, config("/a", None));
}

#[test]
fn toast_kinds_are_drawn_apart() {
    assert_eq!(ToastType::Success.icon(), "✓");
    assert_eq!(ToastType::Error.icon(), "✕");
    assert_eq!(ToastType::Info.icon(), "ℹ");
    assert_eq!(ToastType::Success.class(), "success");
    assert_eq!(ToastType::Error.class(), "error");
    assert_eq!(ToastType::Info.class(), "info");
    assert_eq!(TOAST_LIFETIME_MS, 3000);
}

#[test]
fn toasts_are_shown_in_order_and_removed_by_number() {
    let mut toasts: Vec<ToastMessage> = Vec::new();
    show_toast(&mut toasts, "one".to_string(), ToastType::Info, 1);
    show_toast(&mut toasts, "two".to_string(), ToastType::Error, 2);
    show_toast(&mut toasts, "three".to_string(), ToastType::Success, 3);
    show_toast(&mut toasts, "two again".to_string(), ToastType::Info, 2);
    assert_eq!(toasts.len(), 4);
    remove_toast(&mut toasts, 2);
    assert_eq!(
        toasts,
        vec![toast("one", ToastType::Info, 1), toast("three", ToastType::Success, 3)]
    );
    remove_toast(&mut toasts, 42);
    assert_eq!(toasts.len(), 2);
    remove_toast(&mut toasts, 1);
    remove_toast(&mut toasts, 3);
    assert!(toasts.is_empty());
    remove_toast(&mut toasts, 3);
    assert!(toasts.is_empty());
}

#[test]
fn stored_configuration_wins_over_the_default() {
    let stored = config("/kept", Some(1234));
    assert_eq!(load_config(Some(stored.clone())), stored);
    assert_eq!(load_config(None), RustFsConfig::default());
}

#[test]
fn fresh_screen() {
    let ui = UiState::new();
    assert!(!ui.is_running);
    assert!(!ui.service_status);
    assert_eq!(ui.current_log_type, LogType::App);
    assert!(ui.toasts.is_empty());
    assert!(ui.shows_placeholder());
    assert_eq!(ui.visible_logs(), Vec::<String>::new());
}

#[test]
fn launch_click_marks_running_and_logs() {
    let mut ui = UiState::new();
    ui.on_launch_clicked("10:00:00 AM", "RustFsConfig { .. }", 17);
    assert!(ui.is_running);
    assert_eq!(ui.toasts, vec![toast("Launching RustFS...", ToastType::Info, 17)]);
    assert_eq!(
        lines(&ui.app_logs),
        vec![
            "[10:00:00 AM] Launch button clicked",
            "[10:00:00 AM] Config: RustFsConfig { .. }"
        ]
    );
}

#[test]
fn successful_launch_answer() {
    let mut ui = UiState::new();
    ui.is_running = true;
    let answer = CommandResponse { success: true, message: "started".to_string() };
    ui.on_launch_answered("now", "JsValue(Object)", Some(answer), 3);
    assert!(ui.is_running);
    assert_eq!(ui.toasts, vec![toast("RustFS launched successfully!", ToastType::Success, 3)]);
    assert_eq!(
        lines(&ui.app_logs),
        vec![
            "[now] Invoke result: JsValue(Object)",
            "[now] Result message: started",
            "[now] Launch successful!"
        ]
    );
}

#[test]
fn failed_launch_answer() {
    let mut ui = UiState::new();
    ui.is_running = true;
    let answer = CommandResponse { success: false, message: "no binary".to_string() };
    ui.on_launch_answered("now", "raw", Some(answer), 4);
    assert!(!ui.is_running);
    assert_eq!(ui.toasts, vec![toast("Launch failed: no binary", ToastType::Error, 4)]);
    assert_eq!(
        lines(&ui.app_logs),
        vec![
            "[now] Invoke result: raw",
            "[now] Result message: no binary",
            "[now] Launch result: no binary"
        ]
    );
}

#[test]
fn unreadable_launch_answer() {
    let mut ui = UiState::new();
    ui.is_running = true;
    ui.on_launch_answered("now", "JsValue(\"boom\")", None, 5);
    assert!(!ui.is_running);
    assert_eq!(ui.toasts, vec![toast("RustFS launch command failed", ToastType::Error, 5)]);
    assert_eq!(
        lines(&ui.app_logs),
        vec![
            "[now] Invoke result: JsValue(\"boom\")",
            "[now] Launch completed but response parsing failed"
        ]
    );
}

#[test]
fn launch_without_a_host_behind_the_page() {
    let mut ui = UiState::new();
    ui.is_running = true;
    ui.on_host_missing(6);
    assert!(!ui.is_running);
    assert_eq!(
        ui.toasts,
        vec![toast("Error: Not running in Tauri environment", ToastType::Error, 6)]
    );
    assert_eq!(lines(&ui.app_logs), vec!["[ERROR] Not running in Tauri environment"]);
}

#[test]
fn stop_click_and_answers() {
    let mut ui = UiState::new();
    ui.is_running = true;
    ui.service_status = true;
    ui.on_stop_clicked(1);
    assert!(ui.is_running);
    ui.on_stop_answered(Some(CommandResponse { success: false, message: "busy".to_string() }), 2);
    assert!(ui.is_running);
    assert!(ui.service_status);
    ui.on_stop_answered(None, 3);
    assert!(ui.is_running);
    ui.on_stop_answered(Some(CommandResponse { success: true, message: "ok".to_string() }), 4);
    assert!(!ui.is_running);
    assert!(!ui.service_status);
    assert_eq!(
        ui.toasts,
        vec![
            toast("Stopping RustFS...", ToastType::Info, 1),
            toast("Failed to stop: busy", ToastType::Error, 2),
            toast("Failed to parse stop response", ToastType::Error, 3),
            toast("RustFS stopped", ToastType::Success, 4),
        ]
    );
    assert_eq!(
        lines(&ui.app_logs),
        vec!["Stopping RustFS...", "Failed to stop: busy", "RustFS stopped successfully"]
    );
}

#[test]
fn process_exit_turns_the_screen_to_the_output() {
    let mut ui = UiState::new();
    ui.is_running = true;
    ui.service_status = true;
    ui.log_received(LogType::RustFS, "panic!".to_string());
    ui.on_process_exited("101", 9);
    assert!(!ui.is_running);
    assert!(!ui.service_status);
    assert_eq!(ui.current_log_type, LogType::RustFS);
    assert_eq!(ui.toasts, vec![toast("RustFS exited with code: 101", ToastType::Error, 9)]);
    assert_eq!(
        lines(&ui.app_logs),
        vec!["[ERROR] RustFS process exited unexpectedly: 101"]
    );
    assert_eq!(ui.visible_logs(), vec!["panic!"]);
    assert!(!ui.shows_placeholder());
}

#[test]
fn health_answers_set_the_indicator() {
    let mut ui = UiState::new();
    ui.health_checked(Some(true));
    assert!(ui.service_status);
    ui.health_checked(Some(false));
    assert!(!ui.service_status);
    ui.health_checked(Some(true));
    ui.health_checked(None);
    assert!(!ui.service_status);
}

#[test]
fn received_logs_are_bounded_per_kind() {
    let mut ui = UiState::new();
    for i in 0..120 {
        ui.log_received(LogType::App, format!("app {}", i));
    }
    for i in 0..1100 {
        ui.log_received(LogType::RustFS, format!("out {}", i));
    }
    assert_eq!(ui.app_logs.len(), 100);
    assert_eq!(ui.app_logs[0], "app 20");
    assert_eq!(ui.rustfs_logs.len(), 1000);
    assert_eq!(ui.rustfs_logs[0], "out 100");
    assert_eq!(ui.rustfs_logs[999], "out 1099");
}

#[test]
fn fetched_logs_replace_and_clear_empties() {
    let mut ui = UiState::new();
    ui.log_received(LogType::App, "old".to_string());
    ui.logs_fetched(LogType::App, vec!["a".to_string(), "b".to_string()]);
    ui.logs_fetched(LogType::RustFS, vec!["x".to_string()]);
    assert_eq!(lines(&ui.app_logs), vec!["a", "b"]);
    assert_eq!(lines(&ui.rustfs_logs), vec!["x"]);
    assert_eq!(ui.visible_logs(), vec!["a", "b"]);
    ui.current_log_type = LogType::RustFS;
    assert_eq!(ui.visible_logs(), vec!["x"]);
    assert_eq!(log_lines(&ui.app_logs), vec!["a", "b"]);
    ui.clear_logs();
    assert!(ui.app_logs.is_empty());
    assert!(ui.rustfs_logs.is_empty());
    assert!(ui.shows_placeholder());
}

#[test]
fn port_field_reads_decimal_ports() {
    assert_eq!(parse_port("9000"), Some(9000));
    assert_eq!(parse_port("0"), Some(0));
    assert_eq!(parse_port("65535"), Some(65535));
    assert_eq!(parse_port("+80"), Some(80));
    assert_eq!(parse_port("00080"), Some(80));
}

#[test]
fn port_field_refuses_everything_else() {
    for text in ["", "+", "-1", "65536", "99999999999999999999", "80a", " 80", "8 0", "++1", "1+", "٣"] {
        assert_eq!(parse_port(text), None, "{:?}", text);
    }
}

#[test]
fn port_field_agrees_with_the_standard_library() {
    for n in 0u32..70000 {
        let text = n.to_string();
        assert_eq!(parse_port(&text), text.parse::<u16>().ok());
    }
    for text in ["", "+", "+0", "+65535", "+65536", "-0", "0x10", "1e3", "12\n", "000000000000000001"] {
        assert_eq!(parse_port(text), text.parse::<u16>().ok(), "{:?}", text);
    }
}

#[test]
fn empty_text_fields_are_no_value() {
    assert_eq!(optional_field(String::new()), None);
    assert_eq!(optional_field("x".to_string()), Some("x".to_string()));
    assert_eq!(optional_field(" ".to_string()), Some(" ".to_string()));
}

#[test]
fn submit_button_follows_the_form() {
    assert!(submit_disabled(false, &config("", Some(9000))));
    assert!(!submit_disabled(false, &config("/data", Some(9000))));
    assert!(!submit_disabled(false, &config(" ", Some(9000))));
    assert!(!submit_disabled(true, &config("", Some(9000))));
    assert_eq!(submit_label(true), "Stop RustFS");
    assert_eq!(submit_label(false), "Launch RustFS");
}

#[test]
fn every_port_shown_reads_back_as_itself() {
    for port in 0..=u16::MAX {
        assert_eq!(parse_port(&decimal_string(u64::from(port))), Some(port));
    }
}
