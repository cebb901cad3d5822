//! The failures that the launcher reports to its caller.

use vstd::prelude::*;
use vstd::string::StringExecFns;

verus! {

/// Why an operation of the launcher was refused or failed.
#[derive(Debug, Clone, PartialEq, Eq)]
pub enum Error {
    /// The configuration names no data path.
    DataPathRequired,
    /// The data path, carried here, is not on the filesystem.
    DataPathNotExist(String),
    /// No usable server executable was found.
    BinaryNotFound,
    /// The operating system refused to start the process; its words are carried.
    SpawnFailed(String),
    /// A managed process already occupies the slot.
    AlreadyRunning,
    /// Host and port do not make a socket address.
    InvalidAddress,
    /// An operating-system failure outside the spawn itself; its words are carried.
    Io(String),
}

/// An [`Error`] with its texts as character sequences.
pub ghost enum ErrorView {
    DataPathRequired,
    DataPathNotExist(Seq<char>),
    BinaryNotFound,
    SpawnFailed(Seq<char>),
    AlreadyRunning,
    InvalidAddress,
    Io(Seq<char>),
}

impl View for Error {
    type V = ErrorView;

    open spec fn view(&self) -> ErrorView {
        match self {
            Error::DataPathRequired => ErrorView::DataPathRequired,
            Error::DataPathNotExist(path) => ErrorView::DataPathNotExist(path@),
            Error::BinaryNotFound => ErrorView::BinaryNotFound,
            Error::SpawnFailed(cause) => ErrorView::SpawnFailed(cause@),
            Error::AlreadyRunning => ErrorView::AlreadyRunning,
            Error::InvalidAddress => ErrorView::InvalidAddress,
            Error::Io(cause) => ErrorView::Io(cause@),
        }
    }
}

/// The sentence shown to the user for `error`.
pub open spec fn error_message(error: ErrorView) -> Seq<char> {
    match error {
        ErrorView::DataPathRequired => "Data path is required"@,
        ErrorView::DataPathNotExist(path) => "Data path does not exist: "@ + path,
        ErrorView::BinaryNotFound => "RustFS binary not found"@,
        ErrorView::SpawnFailed(cause) => "Failed to launch RustFS: "@ + cause,
        ErrorView::AlreadyRunning => "RustFS is already running"@,
        ErrorView::InvalidAddress => "Invalid address"@,
        ErrorView::Io(cause) => "IO error: "@ + cause,
    }
}

impl Error {
    /// The sentence shown to the user for this error.
    pub fn message(&self) -> (text: String)
        ensures
            text@ == error_message(self@),
    {
        match self {
            Error::DataPathRequired => String::from_str("Data path is required"),
            Error::DataPathNotExist(path) => String::from_str("Data path does not exist: ").concat(
                path.as_str(),
            ),
            Error::BinaryNotFound => String::from_str("RustFS binary not found"),
            Error::SpawnFailed(cause) => String::from_str("Failed to launch RustFS: ").concat(
                cause.as_str(),
            ),
            Error::AlreadyRunning => String::from_str("RustFS is already running"),
            Error::InvalidAddress => String::from_str("Invalid address"),
            Error::Io(cause) => String::from_str("IO error: ").concat(cause.as_str()),
        }
    }

    /// Whether the error was found by looking at the request alone, before
    /// anything was asked of the operating system.
    pub fn is_validation(&self) -> (validation: bool)
        ensures
            validation == is_validation_error(self@),
    {
        match self {
            Error::DataPathRequired => true,
            Error::DataPathNotExist(_) => true,
            Error::InvalidAddress => true,
            _ => false,
        }
    }
}

/// The errors that are detected before any side effect.
pub open spec fn is_validation_error(error: ErrorView) -> bool {
    error is DataPathRequired || error is DataPathNotExist || error is InvalidAddress
}

} // verus!
