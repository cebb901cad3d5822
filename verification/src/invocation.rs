//! How a configuration becomes the command line and environment of the
//! server process.

use crate::health::{effective_host, socket_address, socket_address_text};
use crate::log_buffer::line_views;
use crate::types::{ConfigView, RustFsConfig};
use vstd::prelude::*;
use vstd::string::StringExecFns;

verus! {

/// What is handed to the operating system to start the server.
#[derive(Debug, Clone, PartialEq, Eq)]
pub struct Invocation {
    /// Path of the executable.
    pub program: String,
    /// The arguments, in order.
    pub args: Vec<String>,
    /// Environment variables set for the child: name and value.
    pub envs: Vec<(String, String)>,
}

/// An [`Invocation`] with its texts as character sequences.
pub ghost struct InvocationView {
    pub program: Seq<char>,
    pub args: Seq<Seq<char>>,
    pub envs: Seq<(Seq<char>, Seq<char>)>,
}

/// The views of a list of name and value pairs, in order.
pub open spec fn env_views(envs: Seq<(String, String)>) -> Seq<(Seq<char>, Seq<char>)> {
    envs.map_values(|e: (String, String)| (e.0@, e.1@))
}

impl View for Invocation {
    type V = InvocationView;

    open spec fn view(&self) -> InvocationView {
        InvocationView {
            program: self.program@,
            args: line_views(self.args@),
            envs: env_views(self.envs@),
        }
    }
}

/// The arguments that tell the server where to listen: none without a port.
pub open spec fn address_args(config: ConfigView) -> Seq<Seq<char>> {
    match config.port {
        Some(port) => seq!["--address"@, socket_address(effective_host(config), port)],
        None => Seq::<Seq<char>>::empty(),
    }
}

/// The argument that switches the console on, where the configuration asks
/// for it.
pub open spec fn console_args(config: ConfigView) -> Seq<Seq<char>> {
    if config.console_enable {
        seq!["--console-enable"@]
    } else {
        Seq::<Seq<char>>::empty()
    }
}

/// The arguments of a launch: the data path, then the listening address, then
/// the console switch.
pub open spec fn launch_args(config: ConfigView) -> Seq<Seq<char>> {
    seq![config.data_path] + address_args(config) + console_args(config)
}

/// One environment variable, where a value is configured for it.
pub open spec fn credential_env(name: Seq<char>, value: Option<Seq<char>>) -> Seq<
    (Seq<char>, Seq<char>),
> {
    match value {
        Some(v) => seq![(name, v)],
        None => Seq::<(Seq<char>, Seq<char>)>::empty(),
    }
}

/// The environment of a launch: the credentials, which are kept off the
/// command line.
pub open spec fn launch_envs(config: ConfigView) -> Seq<(Seq<char>, Seq<char>)> {
    credential_env("RUSTFS_ACCESS_KEY"@, config.access_key) + credential_env(
        "RUSTFS_SECRET_KEY"@,
        config.secret_key,
    )
}

/// The invocation that runs `program` as `config` asks.
pub open spec fn invocation_for(program: Seq<char>, config: ConfigView) -> InvocationView {
    InvocationView { program, args: launch_args(config), envs: launch_envs(config) }
}

/// Builds the invocation that runs `program` as `config` asks.
pub fn build_invocation(program: String, config: &RustFsConfig) -> (invocation: Invocation)
    ensures
        invocation@ == invocation_for(program@, config@),
{
    let mut args: Vec<String> = Vec::new();
    args.push(config.data_path.clone());
    assert(line_views(args@) =~= seq![config@.data_path]);
    match config.port {
        Some(port) => {
            let address = match &config.host {
                Some(host) => socket_address_text(host.as_str(), port),
                None => socket_address_text("127.0.0.1", port),
            };
            args.push(String::from_str("--address"));
            args.push(address);
            assert(line_views(args@) =~= seq![config@.data_path] + address_args(config@));
        },
        None => {
        },
    }
    if config.console_enable {
        let ghost before = args@;
        args.push(String::from_str("--console-enable"));
        assert(line_views(args@) =~= line_views(before) + console_args(config@));
    }

    let mut envs: Vec<(String, String)> = Vec::new();
    match &config.access_key {
        Some(key) => {
            envs.push((String::from_str("RUSTFS_ACCESS_KEY"), key.clone()));
        },
        None => {},
    }
    assert(env_views(envs@) =~= credential_env("RUSTFS_ACCESS_KEY"@, config@.access_key));
    let ghost first = envs@;
    match &config.secret_key {
        Some(key) => {
            envs.push((String::from_str("RUSTFS_SECRET_KEY"), key.clone()));
        },
        None => {},
    }
    assert(env_views(envs@) =~= env_views(first) + credential_env(
        "RUSTFS_SECRET_KEY"@,
        config@.secret_key,
    ));
    Invocation { program, args, envs }
}

} // verus!
