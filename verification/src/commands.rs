//! The requests that the front end makes of the launcher, each answered from
//! the supervisor's state and from what the caller observed of the system.

use crate::binary::{candidate_views, diagnose, diagnostic_report, BinaryCandidate};
use crate::error::{Error, ErrorView};
use crate::events::{event_views, Event};
use crate::health::{check, ConnectOutcome};
use crate::log_buffer::{line_views, APP_LOG_CAPACITY, RUSTFS_LOG_CAPACITY};
use crate::supervisor::{
    kill_order, launch_completed, launch_orphan, launch_result, terminate_events, terminated,
    KillOrder, SpawnOutcome, Supervisor,
};
use crate::types::{CommandResponse, ConfigView, RustFsConfig};
use vstd::prelude::*;
use vstd::string::StringExecFns;

verus! {

/// Why a configuration is refused by itself: no data path, or one that is
/// not on the filesystem.
pub open spec fn validation_error(config: ConfigView, path_exists: bool) -> Option<ErrorView> {
    if config.data_path.len() == 0 {
        Some(ErrorView::DataPathRequired)
    } else if !path_exists {
        Some(ErrorView::DataPathNotExist(config.data_path))
    } else {
        None
    }
}

/// Checks a configuration by itself: it must name a data path, and the path
/// must be on the filesystem, which `path_exists` reports.
pub fn validate_config(config: &RustFsConfig, path_exists: bool) -> (valid: Result<bool, Error>)
    ensures
        match validation_error(config@, path_exists) {
            Some(error) => valid is Err && valid->Err_0@ == error,
            None => valid == Ok::<bool, Error>(true),
        },
{
    if config.data_path.as_str().is_empty() {
        return Err(Error::DataPathRequired);
    }
    if !path_exists {
        return Err(Error::DataPathNotExist(config.data_path.clone()));
    }
    Ok(true)
}

/// What the caller gets back when it reports a spawn: the answer for the
/// front end, and a child to kill where the launch was no longer wanted.
#[derive(Debug, PartialEq, Eq)]
pub struct LaunchResponse {
    pub response: Result<CommandResponse, Error>,
    pub orphan: Option<u32>,
}

/// Reports the outcome of the spawn of launch `generation` to the supervisor
/// and phrases the answer for the front end.
pub fn launch_rustfs(supervisor: &mut Supervisor, generation: u64, outcome: SpawnOutcome) -> (answer:
    LaunchResponse)
    ensures
        final(supervisor)@ == launch_completed(old(supervisor)@, generation, outcome@),
        match launch_result(old(supervisor)@, generation, outcome@) {
            Ok(message) => {
                &&& answer.response is Ok
                &&& answer.response->Ok_0.success
                &&& answer.response->Ok_0.message@ == message
            },
            Err(error) => answer.response is Err && answer.response->Err_0@ == error,
        },
        answer.orphan == launch_orphan(old(supervisor)@, generation, outcome@),
{
    let report = supervisor.complete_launch(generation, outcome);
    let response = match report.result {
        Ok(message) => Ok(CommandResponse { success: true, message }),
        Err(error) => Err(error),
    };
    LaunchResponse { response, orphan: report.orphan }
}

/// The message that answers a request to stop.
pub open spec fn stop_message() -> Seq<char> {
    "RustFS process terminated"@
}

/// What the caller gets back when it asks to stop: the answer for the front
/// end, the process to end where one was running, and the events to publish.
#[derive(Debug, Clone, PartialEq, Eq)]
pub struct StopResponse {
    pub response: CommandResponse,
    pub order: Option<KillOrder>,
    pub events: Vec<Event>,
}

/// Stops the managed process. The request succeeds whatever the slot holds.
pub fn stop_rustfs(supervisor: &mut Supervisor) -> (answer: StopResponse)
    ensures
        final(supervisor)@ == terminated(old(supervisor)@),
        answer.response.success,
        answer.response.message@ == stop_message(),
        answer.order == kill_order(old(supervisor)@),
        event_views(answer.events@) == terminate_events(old(supervisor)@),
{
    let termination = supervisor.terminate();
    StopResponse {
        response: CommandResponse {
            success: true,
            message: String::from_str("RustFS process terminated"),
        },
        order: termination.order,
        events: termination.events,
    }
}

/// Answers a request for the diagnostic report. `probe` is what examining the
/// filesystem gave: the candidates, or the operating system's words where the
/// examination itself failed, which come back as an `Io` error.
pub fn diagnose_rustfs_binary(probe: Result<Vec<BinaryCandidate>, String>) -> (response: Result<
    CommandResponse,
    Error,
>)
    ensures
        match probe {
            Ok(candidates) => {
                &&& response is Ok
                &&& response->Ok_0.success
                &&& response->Ok_0.message@ == diagnostic_report(candidate_views(candidates@))
            },
            Err(cause) => response is Err && response->Err_0@ == ErrorView::Io(cause@),
        },
{
    match probe {
        Ok(candidates) => Ok(CommandResponse { success: true, message: diagnose(&candidates) }),
        Err(cause) => Err(Error::Io(cause)),
    }
}

/// The launcher's own log lines, oldest first.
pub fn get_app_logs(supervisor: &Supervisor) -> (lines: Vec<String>)
    ensures
        line_views(lines@) == supervisor@.app_logs,
        lines@.len() <= APP_LOG_CAPACITY,
{
    supervisor.app_logs()
}

/// The captured output of the managed process, oldest first.
pub fn get_rustfs_logs(supervisor: &Supervisor) -> (lines: Vec<String>)
    ensures
        line_views(lines@) == supervisor@.process_logs,
        lines@.len() <= RUSTFS_LOG_CAPACITY,
{
    supervisor.process_logs()
}

/// Answers a request for a reachability check. `address_valid` says whether
/// host and port made a socket address; `attempt` is how the connection
/// attempt to it ended, where one was made. An invalid address is an error;
/// otherwise the answer is the result of the check.
pub fn check_tcp_connection(address_valid: bool, attempt: Option<ConnectOutcome>) -> (reachable:
    Result<bool, Error>)
    ensures
        !address_valid ==> reachable is Err && reachable->Err_0@ == ErrorView::InvalidAddress,
        address_valid ==> reachable == Ok::<bool, Error>(attempt == Some(ConnectOutcome::Connected)),
{
    if !address_valid {
        return Err(Error::InvalidAddress);
    }
    Ok(check(address_valid, attempt))
}

} // verus!
