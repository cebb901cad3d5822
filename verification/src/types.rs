//! The values exchanged between the front end and the launcher.

use vstd::prelude::*;
use vstd::string::StringExecFns;

verus! {

/// What the user configures for one launch of the server.
#[derive(Debug, Clone, PartialEq)]
pub struct RustFsConfig {
    /// Directory that the server stores its data in. Required.
    pub data_path: String,
    /// Port that the server listens on.
    pub port: Option<u16>,
    /// Host that the server binds to; loopback where absent.
    pub host: Option<String>,
    /// Access key handed to the server.
    pub access_key: Option<String>,
    /// Secret key handed to the server.
    pub secret_key: Option<String>,
    /// Whether the server's console is switched on.
    pub console_enable: bool,
}

/// The view of an optional text.
pub open spec fn optional_text(text: Option<String>) -> Option<Seq<char>> {
    match text {
        Some(t) => Some(t@),
        None => None,
    }
}

/// A [`RustFsConfig`] with its texts as character sequences.
pub ghost struct ConfigView {
    pub data_path: Seq<char>,
    pub port: Option<u16>,
    pub host: Option<Seq<char>>,
    pub access_key: Option<Seq<char>>,
    pub secret_key: Option<Seq<char>>,
    pub console_enable: bool,
}

impl View for RustFsConfig {
    type V = ConfigView;

    open spec fn view(&self) -> ConfigView {
        ConfigView {
            data_path: self.data_path@,
            port: self.port,
            host: optional_text(self.host),
            access_key: optional_text(self.access_key),
            secret_key: optional_text(self.secret_key),
            console_enable: self.console_enable,
        }
    }
}

/// The configuration that a fresh installation starts from.
pub open spec fn default_config() -> ConfigView {
    ConfigView {
        data_path: Seq::<char>::empty(),
        port: Some(9000u16),
        host: Some("127.0.0.1"@),
        access_key: Some("rustfsadmin"@),
        secret_key: Some("rustfsadmin"@),
        console_enable: false,
    }
}

impl Default for RustFsConfig {
    fn default() -> (config: RustFsConfig)
        ensures
            config@ == default_config(),
    {
        RustFsConfig {
            data_path: String::new(),
            port: Some(9000),
            host: Some(String::from_str("127.0.0.1")),
            access_key: Some(String::from_str("rustfsadmin")),
            secret_key: Some(String::from_str("rustfsadmin")),
            console_enable: false,
        }
    }
}

/// Which of the two log buffers a line belongs to.
#[derive(Clone, Copy, PartialEq, Eq, Debug, Structural)]
pub enum LogType {
    /// The launcher's own diagnostic lines.
    App,
    /// The supervised process's output.
    RustFS,
}

/// The answer to a request that yields a message.
#[derive(Debug, Clone, PartialEq, Eq)]
pub struct CommandResponse {
    pub success: bool,
    pub message: String,
}

} // verus!
