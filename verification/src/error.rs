use vstd::prelude::*;

verus! {

/// `std::io::Error`, carried through the library without being inspected.
#[verifier::external_type_specification]
#[verifier::external_body]
pub struct ExIoError(std::io::Error);

/// Process exit codes. Numeric values are part of the public contract.
#[derive(Debug, Clone, Copy, PartialEq, Eq, Structural)]
pub enum ExitCode {
    Success,
    ConfigError,
    SteamcmdFatal,
    WindowsAccess,
    IoFatal,
}

/// The documented numeric value of an exit code.
pub open spec fn exit_code_value(code: ExitCode) -> int {
    match code {
        ExitCode::Success => 0,
        ExitCode::ConfigError => 1,
        ExitCode::SteamcmdFatal => 2,
        ExitCode::WindowsAccess => 3,
        ExitCode::IoFatal => 4,
    }
}

impl ExitCode {
    pub fn as_i32(self) -> (n: i32)
        ensures
            n == exit_code_value(self),
    {
        match self {
            ExitCode::Success => 0,
            ExitCode::ConfigError => 1,
            ExitCode::SteamcmdFatal => 2,
            ExitCode::WindowsAccess => 3,
            ExitCode::IoFatal => 4,
        }
    }
}

/// Launcher domain errors. Paths and parser messages are carried as text.
#[derive(Debug)]
pub enum Error {
    Config(String),
    ConfigNotFound(String),
    Steamcmd(String),
    SteamcmdFatal,
    NeedsAdmin,
    Service(String),
    Firewall(String),
    Io(std::io::Error),
    /// A malformed JSON document; the parser's message.
    Json(String),
    /// A malformed TOML document; the parser's message.
    Toml(String),
}

/// The exit code that each kind of error is reported with.
pub open spec fn error_exit_code(e: Error) -> ExitCode {
    match e {
        Error::Config(_) | Error::ConfigNotFound(_) | Error::Toml(_) | Error::Json(_) => ExitCode::ConfigError,
        Error::SteamcmdFatal | Error::Steamcmd(_) => ExitCode::SteamcmdFatal,
        Error::NeedsAdmin | Error::Service(_) | Error::Firewall(_) => ExitCode::WindowsAccess,
        Error::Io(_) => ExitCode::IoFatal,
    }
}

impl Error {
    /// Map a domain error to the exit code the binary should return.
    pub fn exit_code(&self) -> (code: ExitCode)
        ensures
            code == error_exit_code(*self),
    {
        match self {
            Error::Config(_) | Error::ConfigNotFound(_) | Error::Toml(_) | Error::Json(_) => {
                ExitCode::ConfigError
            },
            Error::SteamcmdFatal => ExitCode::SteamcmdFatal,
            Error::Steamcmd(_) => ExitCode::SteamcmdFatal,
            Error::NeedsAdmin => ExitCode::WindowsAccess,
            Error::Service(_) | Error::Firewall(_) => ExitCode::WindowsAccess,
            Error::Io(_) => ExitCode::IoFatal,
        }
    }
}

} // verus!
