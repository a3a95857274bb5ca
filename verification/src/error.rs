//! The failures that reach the user, and the text each one is shown as.
use crate::decimal::{i64_to_decimal, signed_decimal};
use vstd::prelude::*;
use vstd::string::StringExecFns;

verus! {

/// The kind of an I/O failure, as the operating system classifies it.
#[derive(Debug, Clone, Copy, PartialEq, Eq, Structural)]
pub enum ErrorKind {
    NotFound,
    PermissionDenied,
    ConnectionRefused,
    ConnectionReset,
    HostUnreachable,
    NetworkUnreachable,
    ConnectionAborted,
    NotConnected,
    AddrInUse,
    AddrNotAvailable,
    NetworkDown,
    BrokenPipe,
    AlreadyExists,
    WouldBlock,
    NotADirectory,
    IsADirectory,
    DirectoryNotEmpty,
    ReadOnlyFilesystem,
    StaleNetworkFileHandle,
    InvalidInput,
    InvalidData,
    TimedOut,
    WriteZero,
    StorageFull,
    NotSeekable,
    QuotaExceeded,
    FileTooLarge,
    ResourceBusy,
    ExecutableFileBusy,
    Deadlock,
    CrossesDevices,
    TooManyLinks,
    InvalidFilename,
    ArgumentListTooLong,
    Interrupted,
    Unsupported,
    UnexpectedEof,
    OutOfMemory,
    Other,
}

impl ErrorKind {
    /// The name of the kind, as diagnostics show it.
    pub open spec fn name_text(&self) -> Seq<char> {
        match self {
            ErrorKind::NotFound => "NotFound"@,
            ErrorKind::PermissionDenied => "PermissionDenied"@,
            ErrorKind::ConnectionRefused => "ConnectionRefused"@,
            ErrorKind::ConnectionReset => "ConnectionReset"@,
            ErrorKind::HostUnreachable => "HostUnreachable"@,
            ErrorKind::NetworkUnreachable => "NetworkUnreachable"@,
            ErrorKind::ConnectionAborted => "ConnectionAborted"@,
            ErrorKind::NotConnected => "NotConnected"@,
            ErrorKind::AddrInUse => "AddrInUse"@,
            ErrorKind::AddrNotAvailable => "AddrNotAvailable"@,
            ErrorKind::NetworkDown => "NetworkDown"@,
            ErrorKind::BrokenPipe => "BrokenPipe"@,
            ErrorKind::AlreadyExists => "AlreadyExists"@,
            ErrorKind::WouldBlock => "WouldBlock"@,
            ErrorKind::NotADirectory => "NotADirectory"@,
            ErrorKind::IsADirectory => "IsADirectory"@,
            ErrorKind::DirectoryNotEmpty => "DirectoryNotEmpty"@,
            ErrorKind::ReadOnlyFilesystem => "ReadOnlyFilesystem"@,
            ErrorKind::StaleNetworkFileHandle => "StaleNetworkFileHandle"@,
            ErrorKind::InvalidInput => "InvalidInput"@,
            ErrorKind::InvalidData => "InvalidData"@,
            ErrorKind::TimedOut => "TimedOut"@,
            ErrorKind::WriteZero => "WriteZero"@,
            ErrorKind::StorageFull => "StorageFull"@,
            ErrorKind::NotSeekable => "NotSeekable"@,
            ErrorKind::QuotaExceeded => "QuotaExceeded"@,
            ErrorKind::FileTooLarge => "FileTooLarge"@,
            ErrorKind::ResourceBusy => "ResourceBusy"@,
            ErrorKind::ExecutableFileBusy => "ExecutableFileBusy"@,
            ErrorKind::Deadlock => "Deadlock"@,
            ErrorKind::CrossesDevices => "CrossesDevices"@,
            ErrorKind::TooManyLinks => "TooManyLinks"@,
            ErrorKind::InvalidFilename => "InvalidFilename"@,
            ErrorKind::ArgumentListTooLong => "ArgumentListTooLong"@,
            ErrorKind::Interrupted => "Interrupted"@,
            ErrorKind::Unsupported => "Unsupported"@,
            ErrorKind::UnexpectedEof => "UnexpectedEof"@,
            ErrorKind::OutOfMemory => "OutOfMemory"@,
            ErrorKind::Other => "Other"@,
        }
    }

    /// The name of the kind, as diagnostics show it.
    pub fn name(&self) -> (name: &'static str)
        ensures
            name@ == self.name_text(),
    {
        match self {
            ErrorKind::NotFound => "NotFound",
            ErrorKind::PermissionDenied => "PermissionDenied",
            ErrorKind::ConnectionRefused => "ConnectionRefused",
            ErrorKind::ConnectionReset => "ConnectionReset",
            ErrorKind::HostUnreachable => "HostUnreachable",
            ErrorKind::NetworkUnreachable => "NetworkUnreachable",
            ErrorKind::ConnectionAborted => "ConnectionAborted",
            ErrorKind::NotConnected => "NotConnected",
            ErrorKind::AddrInUse => "AddrInUse",
            ErrorKind::AddrNotAvailable => "AddrNotAvailable",
            ErrorKind::NetworkDown => "NetworkDown",
            ErrorKind::BrokenPipe => "BrokenPipe",
            ErrorKind::AlreadyExists => "AlreadyExists",
            ErrorKind::WouldBlock => "WouldBlock",
            ErrorKind::NotADirectory => "NotADirectory",
            ErrorKind::IsADirectory => "IsADirectory",
            ErrorKind::DirectoryNotEmpty => "DirectoryNotEmpty",
            ErrorKind::ReadOnlyFilesystem => "ReadOnlyFilesystem",
            ErrorKind::StaleNetworkFileHandle => "StaleNetworkFileHandle",
            ErrorKind::InvalidInput => "InvalidInput",
            ErrorKind::InvalidData => "InvalidData",
            ErrorKind::TimedOut => "TimedOut",
            ErrorKind::WriteZero => "WriteZero",
            ErrorKind::StorageFull => "StorageFull",
            ErrorKind::NotSeekable => "NotSeekable",
            ErrorKind::QuotaExceeded => "QuotaExceeded",
            ErrorKind::FileTooLarge => "FileTooLarge",
            ErrorKind::ResourceBusy => "ResourceBusy",
            ErrorKind::ExecutableFileBusy => "ExecutableFileBusy",
            ErrorKind::Deadlock => "Deadlock",
            ErrorKind::CrossesDevices => "CrossesDevices",
            ErrorKind::TooManyLinks => "TooManyLinks",
            ErrorKind::InvalidFilename => "InvalidFilename",
            ErrorKind::ArgumentListTooLong => "ArgumentListTooLong",
            ErrorKind::Interrupted => "Interrupted",
            ErrorKind::Unsupported => "Unsupported",
            ErrorKind::UnexpectedEof => "UnexpectedEof",
            ErrorKind::OutOfMemory => "OutOfMemory",
            ErrorKind::Other => "Other",
        }
    }
}

/// A failure to read or understand the client's configuration. It comes
/// from outside the vault logic, which only passes it on with its message.
#[derive(Debug, Clone, PartialEq, Eq)]
pub struct ConfigError {
    pub message: String,
}

/// A failure of a request to the daemon.
#[derive(Debug, Clone, PartialEq, Eq)]
pub enum RevaultDError {
    /// Something went wrong on the client's side of the exchange.
    Unexpected(String),
    /// The daemon gave no answer in time, without a definite connection
    /// failure.
    NoAnswer,
    /// The connection to the daemon failed, with the kind of the I/O failure
    /// where one is known.
    Transport(Option<ErrorKind>, String),
    /// The daemon answered with an error code and a message.
    Rpc(i32, String),
}

impl RevaultDError {
    /// The text the failure is shown as.
    ///
    /// A refused connection says that the daemon cannot be reached, whatever
    /// the detail; a missing answer says so; a daemon error shows its code in
    /// brackets before the message; any other transport failure shows its
    /// detail, followed by the kind in brackets where one is known.
    pub open spec fn rendered(&self) -> Seq<char> {
        match self {
            RevaultDError::Unexpected(detail) => detail@,
            RevaultDError::NoAnswer => "daemon did not answer"@,
            RevaultDError::Transport(Some(ErrorKind::ConnectionRefused), _) =>
                "failed to connect to daemon"@,
            RevaultDError::Transport(Some(kind), detail) => detail@ + " ["@ + kind.name_text()
                + "]"@,
            RevaultDError::Transport(None, detail) => detail@,
            RevaultDError::Rpc(code, detail) => "["@ + signed_decimal(*code as int) + "] "@
                + detail@,
        }
    }

    /// Renders the failure for display.
    pub fn to_string(&self) -> (text: String)
        ensures
            text@ == self.rendered(),
    {
        match self {
            RevaultDError::Unexpected(detail) => detail.clone(),
            RevaultDError::NoAnswer => String::from_str("daemon did not answer"),
            RevaultDError::Transport(Some(ErrorKind::ConnectionRefused), _) => String::from_str(
                "failed to connect to daemon",
            ),
            RevaultDError::Transport(Some(kind), detail) => {
                let mut text = detail.clone();
                text.append(" [");
                text.append(kind.name());
                text.append("]");
                text
            },
            RevaultDError::Transport(None, detail) => detail.clone(),
            RevaultDError::Rpc(code, detail) => {
                let mut text = String::from_str("[");
                let digits = i64_to_decimal(*code as i64);
                text.append(digits.as_str());
                text.append("] ");
                text.append(detail.as_str());
                text
            },
        }
    }
}

/// Any failure the client can show to its user.
#[derive(Debug, Clone, PartialEq, Eq)]
pub enum Error {
    ConfigError(ConfigError),
    RevaultDError(RevaultDError),
    UnexpectedError(String),
}

impl Error {
    /// The text the failure is shown as.
    pub open spec fn rendered(&self) -> Seq<char> {
        match self {
            Error::ConfigError(e) => e.message@,
            Error::RevaultDError(e) => e.rendered(),
            Error::UnexpectedError(detail) => "Unexpected error: "@ + detail@,
        }
    }

    /// Renders the failure for display.
    pub fn to_string(&self) -> (text: String)
        ensures
            text@ == self.rendered(),
    {
        match self {
            Error::ConfigError(e) => e.message.clone(),
            Error::RevaultDError(e) => e.to_string(),
            Error::UnexpectedError(detail) => {
                let mut text = String::from_str("Unexpected error: ");
                text.append(detail.as_str());
                text
            },
        }
    }
}

impl From<ConfigError> for Error {
    fn from(error: ConfigError) -> (converted: Error) {
        Error::ConfigError(error)
    }
}

impl vstd::std_specs::convert::FromSpecImpl<ConfigError> for Error {
    open spec fn obeys_from_spec() -> bool {
        true
    }

    open spec fn from_spec(error: ConfigError) -> Error {
        Error::ConfigError(error)
    }
}

impl From<RevaultDError> for Error {
    fn from(error: RevaultDError) -> (converted: Error) {
        Error::RevaultDError(error)
    }
}

impl vstd::std_specs::convert::FromSpecImpl<RevaultDError> for Error {
    open spec fn obeys_from_spec() -> bool {
        true
    }

    open spec fn from_spec(error: RevaultDError) -> Error {
        Error::RevaultDError(error)
    }
}

} // verus!
