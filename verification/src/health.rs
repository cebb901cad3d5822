//! Reachability of the configured address: how the address is written, which
//! address is polled, and what one connection attempt amounts to.

use crate::error::Error;
use crate::text::{decimal, decimal_string};
use crate::types::{ConfigView, RustFsConfig};
use vstd::prelude::*;
use vstd::string::StringExecFns;

verus! {

/// How long one connection attempt may take, in milliseconds.
pub const CONNECT_TIMEOUT_MS: u64 = 1000;

/// The pause between two reachability checks, in milliseconds.
pub const POLL_INTERVAL_MS: u64 = 3000;

/// The host that is used where the configuration names none.
pub open spec fn default_host() -> Seq<char> {
    "127.0.0.1"@
}

/// The host of a configuration: its own, or loopback.
pub open spec fn effective_host(config: ConfigView) -> Seq<char> {
    match config.host {
        Some(host) => host,
        None => default_host(),
    }
}

/// A socket address as text: the host, a colon, the port in decimal.
pub open spec fn socket_address(host: Seq<char>, port: u16) -> Seq<char> {
    host + ":"@ + decimal(port as nat)
}

/// Writes `host` and `port` as one socket address.
pub fn socket_address_text(host: &str, port: u16) -> (address: String)
    ensures
        address@ == socket_address(host@, port),
{
    let mut address = String::from_str(host);
    address.append(":");
    address.append(decimal_string(port as u64).as_str());
    address
}

/// Where the periodic check connects to: host and port of the configuration.
/// A configuration without a port is not polled.
pub fn health_target(config: &RustFsConfig) -> (target: Option<(String, u16)>)
    ensures
        match config.port {
            Some(port) => {
                &&& target is Some
                &&& target->Some_0.0@ == effective_host(config@)
                &&& target->Some_0.1 == port
            },
            None => target is None,
        },
{
    match config.port {
        Some(port) => {
            let host = match &config.host {
                Some(host) => host.clone(),
                None => String::from_str("127.0.0.1"),
            };
            Some((host, port))
        },
        None => None,
    }
}

/// How one timed connection attempt ended.
#[derive(Clone, Copy, PartialEq, Eq, Debug, Structural)]
pub enum ConnectOutcome {
    /// The connection was made within the timeout.
    Connected,
    /// The peer refused, or another network failure came back.
    Refused,
    /// The timeout passed without an answer.
    TimedOut,
    /// The attempt itself could not be carried out.
    Aborted,
}

/// The reachability signal of one check: `true` only where host and port made
/// a socket address and the connection to it was made within the timeout.
/// Refusal, timeout, an attempt that could not be carried out and an address
/// that is none all give `false`.
pub fn check(address_valid: bool, attempt: Option<ConnectOutcome>) -> (reachable: bool)
    ensures
        reachable == (address_valid && attempt == Some(ConnectOutcome::Connected)),
{
    match attempt {
        Some(ConnectOutcome::Connected) => address_valid,
        _ => false,
    }
}

/// The signal that the service indicator shows after a check: whatever went
/// wrong, the service counts as unreachable.
pub fn service_status(check: &Result<bool, Error>) -> (online: bool)
    ensures
        online == (check == Ok::<bool, Error>(true)),
{
    match check {
        Ok(reachable) => *reachable,
        Err(_) => false,
    }
}

} // verus!
