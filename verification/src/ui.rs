//! The state behind the front end's screen, and how each click, answer and
//! event changes it. Drawing is left to the caller; so are the clock and
//! the numbering of notifications, whose readings come in as arguments.

use crate::log_buffer::{appended, line_views, push_log, APP_LOG_CAPACITY, RUSTFS_LOG_CAPACITY};
use crate::toast::{show_toast, toast_views, ToastMessage, ToastType, ToastView};
use crate::types::{CommandResponse, LogType, RustFsConfig};
use std::collections::VecDeque;
use vstd::prelude::*;
use vstd::string::StringExecFns;

verus! {

/// What the screen shows.
pub struct UiState {
    /// Whether the form is in its stop mode.
    pub is_running: bool,
    /// Whether the service indicator shows the service as online.
    pub service_status: bool,
    /// Which log the log panel shows.
    pub current_log_type: LogType,
    /// The notifications on screen.
    pub toasts: Vec<ToastMessage>,
    /// The launcher's log lines, oldest first.
    pub app_logs: VecDeque<String>,
    /// The process's output lines, oldest first.
    pub rustfs_logs: VecDeque<String>,
}

/// A [`UiState`] with its texts as character sequences.
pub ghost struct UiView {
    pub is_running: bool,
    pub service_status: bool,
    pub current_log_type: LogType,
    pub toasts: Seq<ToastView>,
    pub app_logs: Seq<Seq<char>>,
    pub rustfs_logs: Seq<Seq<char>>,
}

impl View for UiState {
    type V = UiView;

    open spec fn view(&self) -> UiView {
        UiView {
            is_running: self.is_running,
            service_status: self.service_status,
            current_log_type: self.current_log_type,
            toasts: toast_views(self.toasts@),
            app_logs: line_views(self.app_logs@),
            rustfs_logs: line_views(self.rustfs_logs@),
        }
    }
}

/// The screen before anything happened.
pub open spec fn initial_ui() -> UiView {
    UiView {
        is_running: false,
        service_status: false,
        current_log_type: LogType::App,
        toasts: Seq::empty(),
        app_logs: Seq::empty(),
        rustfs_logs: Seq::empty(),
    }
}

/// `ui` with one more notification.
pub open spec fn with_toast(ui: UiView, message: Seq<char>, toast_type: ToastType, id: u64) -> UiView {
    UiView { toasts: ui.toasts.push(ToastView { message, toast_type, id }), ..ui }
}

/// `ui` with one more line in the launcher's log.
pub open spec fn with_app_log(ui: UiView, line: Seq<char>) -> UiView {
    UiView { app_logs: appended(ui.app_logs, APP_LOG_CAPACITY as nat, line), ..ui }
}

/// `ui` with one more line in the log named by `source`.
pub open spec fn with_log(ui: UiView, source: LogType, line: Seq<char>) -> UiView {
    match source {
        LogType::App => with_app_log(ui, line),
        LogType::RustFS => UiView {
            rustfs_logs: appended(ui.rustfs_logs, RUSTFS_LOG_CAPACITY as nat, line),
            ..ui
        },
    }
}

/// A log line that starts with the time in square brackets.
pub open spec fn stamped(now: Seq<char>, text: Seq<char>) -> Seq<char> {
    "["@ + now + "] "@ + text
}

/// The screen after the launch button was clicked.
pub open spec fn launch_clicked(ui: UiView, now: Seq<char>, config_text: Seq<char>, id: u64) -> UiView {
    with_app_log(
        with_app_log(
            with_toast(
                UiView { is_running: true, ..ui },
                "Launching RustFS..."@,
                ToastType::Info,
                id,
            ),
            stamped(now, "Launch button clicked"@),
        ),
        stamped(now, "Config: "@ + config_text),
    )
}

/// The screen after the launcher answered a launch with `raw`, read as
/// `answer`: `None` stands for an answer that could not be read.
pub open spec fn launch_answered(
    ui: UiView,
    now: Seq<char>,
    raw: Seq<char>,
    answer: Option<(bool, Seq<char>)>,
    id: u64,
) -> UiView {
    let noted = with_app_log(ui, stamped(now, "Invoke result: "@ + raw));
    match answer {
        Some((true, message)) => with_app_log(
            with_toast(
                with_app_log(noted, stamped(now, "Result message: "@ + message)),
                "RustFS launched successfully!"@,
                ToastType::Success,
                id,
            ),
            stamped(now, "Launch successful!"@),
        ),
        Some((false, message)) => UiView {
            is_running: false,
            ..with_app_log(
                with_toast(
                    with_app_log(noted, stamped(now, "Result message: "@ + message)),
                    "Launch failed: "@ + message,
                    ToastType::Error,
                    id,
                ),
                stamped(now, "Launch result: "@ + message),
            )
        },
        None => UiView {
            is_running: false,
            ..with_app_log(
                with_toast(noted, "RustFS launch command failed"@, ToastType::Error, id),
                stamped(now, "Launch completed but response parsing failed"@),
            )
        },
    }
}

/// The screen after a launch was tried where no launcher is behind the page.
pub open spec fn host_missing(ui: UiView, id: u64) -> UiView {
    UiView {
        is_running: false,
        ..with_app_log(
            with_toast(ui, "Error: Not running in Tauri environment"@, ToastType::Error, id),
            "[ERROR] Not running in Tauri environment"@,
        )
    }
}

/// The screen after the stop button was clicked.
pub open spec fn stop_clicked(ui: UiView, id: u64) -> UiView {
    with_app_log(with_toast(ui, "Stopping RustFS..."@, ToastType::Info, id), "Stopping RustFS..."@)
}

/// The screen after the launcher answered a stop: `None` stands for an
/// answer that could not be read.
pub open spec fn stop_answered(ui: UiView, answer: Option<(bool, Seq<char>)>, id: u64) -> UiView {
    match answer {
        Some((true, _)) => with_app_log(
            with_toast(
                UiView { is_running: false, service_status: false, ..ui },
                "RustFS stopped"@,
                ToastType::Success,
                id,
            ),
            "RustFS stopped successfully"@,
        ),
        Some((false, message)) => with_app_log(
            with_toast(ui, "Failed to stop: "@ + message, ToastType::Error, id),
            "Failed to stop: "@ + message,
        ),
        None => with_toast(ui, "Failed to parse stop response"@, ToastType::Error, id),
    }
}

/// The screen after the process was reported to have ended: the form
/// leaves its stop mode, the service counts as offline, the user is told,
/// and the log panel turns to the process's output.
pub open spec fn process_exited(ui: UiView, exit_code: Seq<char>, id: u64) -> UiView {
    UiView {
        current_log_type: LogType::RustFS,
        ..with_app_log(
            with_toast(
                UiView { is_running: false, service_status: false, ..ui },
                "RustFS exited with code: "@ + exit_code,
                ToastType::Error,
                id,
            ),
            "[ERROR] RustFS process exited unexpectedly: "@ + exit_code,
        )
    }
}

/// What of an answer the screen goes by.
pub open spec fn answer_view(answer: Option<CommandResponse>) -> Option<(bool, Seq<char>)> {
    match answer {
        Some(response) => Some((response.success, response.message@)),
        None => None,
    }
}

/// The lines that the log panel shows.
pub open spec fn visible_lines(ui: UiView) -> Seq<Seq<char>> {
    match ui.current_log_type {
        LogType::App => ui.app_logs,
        LogType::RustFS => ui.rustfs_logs,
    }
}

/// The configuration that the form starts with: the stored one where one was
/// read, the default otherwise.
pub fn load_config(stored: Option<RustFsConfig>) -> (config: RustFsConfig)
    ensures
        match stored {
            Some(kept) => config == kept,
            None => config@ == crate::types::default_config(),
        },
{
    match stored {
        Some(kept) => kept,
        None => RustFsConfig::default(),
    }
}

/// Copies the lines of a log, oldest first.
pub fn log_lines(logs: &VecDeque<String>) -> (lines: Vec<String>)
    ensures
        line_views(lines@) == line_views(logs@),
{
    let mut lines: Vec<String> = Vec::new();
    let n: usize = logs.len();
    let mut i: usize = 0;
    while i < n
        invariant
            n == logs@.len(),
            i <= n,
            lines@.len() == i,
            forall|k: int| 0 <= k < i ==> lines@[k]@ == #[trigger] logs@[k]@,
        decreases n - i,
    {
        lines.push(logs[i].clone());
        i = i + 1;
    }
    lines
}

/// A log line that starts with the time in square brackets.
fn stamp(now: &str, text: &str) -> (line: String)
    ensures
        line@ == stamped(now@, text@),
{
    let mut line = String::from_str("[");
    line.append(now);
    line.append("] ");
    line.append(text);
    line
}

impl UiState {
    /// The screen before anything happened.
    pub fn new() -> (ui: UiState)
        ensures
            ui@ == initial_ui(),
    {
        let ui = UiState {
            is_running: false,
            service_status: false,
            current_log_type: LogType::App,
            toasts: Vec::new(),
            app_logs: VecDeque::new(),
            rustfs_logs: VecDeque::new(),
        };
        assert(ui@.toasts =~= Seq::empty());
        assert(ui@.app_logs =~= Seq::empty());
        ui
    }

    /// Puts a notification on screen.
    pub fn toast(&mut self, message: String, toast_type: ToastType, id: u64)
        ensures
            final(self)@ == with_toast(old(self)@, message@, toast_type, id),
    {
        show_toast(&mut self.toasts, message, toast_type, id);
    }

    /// Appends a line to the log named by `source`, as an event of the
    /// launcher delivers it.
    pub fn log_received(&mut self, source: LogType, line: String)
        ensures
            final(self)@ == with_log(old(self)@, source, line@),
    {
        match source {
            LogType::App => push_log(&mut self.app_logs, line, APP_LOG_CAPACITY),
            LogType::RustFS => push_log(&mut self.rustfs_logs, line, RUSTFS_LOG_CAPACITY),
        }
    }

    /// Replaces the log named by `source` by the lines fetched from the
    /// launcher.
    pub fn logs_fetched(&mut self, source: LogType, lines: Vec<String>)
        ensures
            final(self)@ == (match source {
                LogType::App => UiView { app_logs: line_views(lines@), ..old(self)@ },
                LogType::RustFS => UiView { rustfs_logs: line_views(lines@), ..old(self)@ },
            }),
    {
        let mut fresh: VecDeque<String> = VecDeque::new();
        let n: usize = lines.len();
        let mut i: usize = 0;
        while i < n
            invariant
                n == lines@.len(),
                i <= n,
                fresh@.len() == i,
                forall|k: int| 0 <= k < i ==> fresh@[k]@ == #[trigger] lines@[k]@,
            decreases n - i,
        {
            fresh.push_back(lines[i].clone());
            i = i + 1;
        }
        assert(line_views(fresh@) =~= line_views(lines@));
        match source {
            LogType::App => {
                self.app_logs = fresh;
            },
            LogType::RustFS => {
                self.rustfs_logs = fresh;
            },
        }
    }

    /// Empties both logs.
    pub fn clear_logs(&mut self)
        ensures
            final(self)@ == (UiView {
                app_logs: Seq::empty(),
                rustfs_logs: Seq::empty(),
                ..old(self)@
            }),
    {
        self.app_logs = VecDeque::new();
        self.rustfs_logs = VecDeque::new();
        assert(line_views(self.app_logs@) =~= Seq::empty());
    }

    /// The lines that the log panel shows, oldest first.
    pub fn visible_logs(&self) -> (lines: Vec<String>)
        ensures
            line_views(lines@) == visible_lines(self@),
    {
        match self.current_log_type {
            LogType::App => log_lines(&self.app_logs),
            LogType::RustFS => log_lines(&self.rustfs_logs),
        }
    }

    /// Whether the log panel shows its placeholder: the log on show is empty.
    pub fn shows_placeholder(&self) -> (empty: bool)
        ensures
            empty == (visible_lines(self@).len() == 0),
    {
        match self.current_log_type {
            LogType::App => self.app_logs.len() == 0,
            LogType::RustFS => self.rustfs_logs.len() == 0,
        }
    }

    /// Takes what a reachability check gave: anything but a plain `true`
    /// shows the service as offline.
    pub fn health_checked(&mut self, answer: Option<bool>)
        ensures
            final(self)@ == (UiView {
                service_status: answer == Some(true),
                ..old(self)@
            }),
    {
        self.service_status = match answer {
            Some(reachable) => reachable,
            None => false,
        };
    }

    /// The launch button was clicked at `now`, with the configuration shown
    /// as `config_text`.
    pub fn on_launch_clicked(&mut self, now: &str, config_text: &str, id: u64)
        ensures
            final(self)@ == launch_clicked(old(self)@, now@, config_text@, id),
    {
        self.is_running = true;
        self.toast(String::from_str("Launching RustFS..."), ToastType::Info, id);
        self.log_received(LogType::App, stamp(now, "Launch button clicked"));
        let detail = String::from_str("Config: ").concat(config_text);
        self.log_received(LogType::App, stamp(now, detail.as_str()));
    }

    /// The launcher answered a launch at `now` with `raw`, read as `answer`.
    pub fn on_launch_answered(
        &mut self,
        now: &str,
        raw: &str,
        answer: Option<CommandResponse>,
        id: u64,
    )
        ensures
            final(self)@ == launch_answered(old(self)@, now@, raw@, answer_view(answer), id),
    {
        let noted = String::from_str("Invoke result: ").concat(raw);
        self.log_received(LogType::App, stamp(now, noted.as_str()));
        match answer {
            Some(response) => {
                let result = String::from_str("Result message: ").concat(
                    response.message.as_str(),
                );
                self.log_received(LogType::App, stamp(now, result.as_str()));
                if response.success {
                    self.toast(
                        String::from_str("RustFS launched successfully!"),
                        ToastType::Success,
                        id,
                    );
                    self.log_received(LogType::App, stamp(now, "Launch successful!"));
                } else {
                    self.toast(
                        String::from_str("Launch failed: ").concat(response.message.as_str()),
                        ToastType::Error,
                        id,
                    );
                    let outcome = String::from_str("Launch result: ").concat(
                        response.message.as_str(),
                    );
                    self.log_received(LogType::App, stamp(now, outcome.as_str()));
                    self.is_running = false;
                }
            },
            None => {
                self.toast(String::from_str("RustFS launch command failed"), ToastType::Error, id);
                self.log_received(
                    LogType::App,
                    stamp(now, "Launch completed but response parsing failed"),
                );
                self.is_running = false;
            },
        }
    }

    /// A launch was tried where no launcher is behind the page.
    pub fn on_host_missing(&mut self, id: u64)
        ensures
            final(self)@ == host_missing(old(self)@, id),
    {
        self.toast(
            String::from_str("Error: Not running in Tauri environment"),
            ToastType::Error,
            id,
        );
        self.log_received(
            LogType::App,
            String::from_str("[ERROR] Not running in Tauri environment"),
        );
        self.is_running = false;
    }

    /// The stop button was clicked.
    pub fn on_stop_clicked(&mut self, id: u64)
        ensures
            final(self)@ == stop_clicked(old(self)@, id),
    {
        self.toast(String::from_str("Stopping RustFS..."), ToastType::Info, id);
        self.log_received(LogType::App, String::from_str("Stopping RustFS..."));
    }

    /// The launcher answered a stop.
    pub fn on_stop_answered(&mut self, answer: Option<CommandResponse>, id: u64)
        ensures
            final(self)@ == stop_answered(old(self)@, answer_view(answer), id),
    {
        match answer {
            Some(response) => {
                if response.success {
                    self.is_running = false;
                    self.service_status = false;
                    self.toast(String::from_str("RustFS stopped"), ToastType::Success, id);
                    self.log_received(
                        LogType::App,
                        String::from_str("RustFS stopped successfully"),
                    );
                } else {
                    let failure = String::from_str("Failed to stop: ").concat(
                        response.message.as_str(),
                    );
                    self.toast(failure.clone(), ToastType::Error, id);
                    self.log_received(LogType::App, failure);
                }
            },
            None => {
                self.toast(
                    String::from_str("Failed to parse stop response"),
                    ToastType::Error,
                    id,
                );
            },
        }
    }

    /// The process was reported to have ended, with `exit_code` as the
    /// event carried it.
    pub fn on_process_exited(&mut self, exit_code: &str, id: u64)
        ensures
            final(self)@ == process_exited(old(self)@, exit_code@, id),
    {
        self.is_running = false;
        self.service_status = false;
        self.toast(
            String::from_str("RustFS exited with code: ").concat(exit_code),
            ToastType::Error,
            id,
        );
        self.log_received(
            LogType::App,
            String::from_str("[ERROR] RustFS process exited unexpectedly: ").concat(exit_code),
        );
        self.current_log_type = LogType::RustFS;
    }
}

} // verus!
