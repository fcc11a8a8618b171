//! The failures that the supervisor reports: a kind that callers can
//! branch on, and a message for people.

use vstd::prelude::*;
use vstd::string::*;

verus! {

/// The kinds of failure.
#[derive(Clone, Copy, Debug, PartialEq, Eq, Hash, Structural)]
pub enum ErrorKind {
    /// A binary that the operation needs is missing.
    NotFound,
    /// The web server refused its configuration.
    ConfigError,
    /// A directory or a file could not be created, read or written.
    FilesystemError,
    /// The database's data directory could not be set up.
    InitializationError,
    /// The service's process could not be spawned.
    LaunchError,
    /// The service's port was not listening after the settle interval.
    NotReady,
    /// The service to be stopped does not run.
    NotRunning,
    /// The service's process could not be terminated.
    TerminationError,
    /// The runtime version to be made active is not installed.
    NotInstalled,
    /// The indirection to the active runtime version could not be set.
    SwitchError,
    /// The web server's configuration could not be brought up to date.
    ConfigUpdateError,
    /// The working directory could not be determined.
    EnvironmentError,
}

/// A failure as contracts speak of it.
pub struct Failure {
    pub kind: ErrorKind,
    pub message: Seq<char>,
}

/// A failure of an operation of the supervisor.
#[derive(Clone, Debug, PartialEq, Eq)]
pub struct SupervisorError {
    pub kind: ErrorKind,
    pub message: String,
}

impl View for SupervisorError {
    type V = Failure;

    open spec fn view(&self) -> Failure {
        Failure { kind: self.kind, message: self.message@ }
    }
}

impl SupervisorError {
    /// The failure of the given kind with the given message.
    pub fn new(kind: ErrorKind, message: String) -> (error: SupervisorError)
        ensures
            error@ == (Failure { kind, message: message@ }),
    {
        SupervisorError { kind, message }
    }

    /// The failure to determine the working directory, with what the
    /// operating system said of it.
    pub fn environment(detail: &str) -> (error: SupervisorError)
        ensures
            error@ == (Failure { kind: ErrorKind::EnvironmentError, message: detail@ }),
    {
        SupervisorError { kind: ErrorKind::EnvironmentError, message: String::from_str(detail) }
    }

    /// The kind of the failure.
    pub fn kind(&self) -> (kind: ErrorKind)
        ensures
            kind == self@.kind,
    {
        self.kind
    }

    /// The message of the failure.
    pub fn describe(&self) -> (message: String)
        ensures
            message@ == self@.message,
    {
        self.message.clone()
    }
}

/// The outcome of an operation as contracts speak of it.
pub type Outcome = Result<bool, Failure>;

/// The outcome of an operation in contracts.
pub open spec fn outcome_of(result: Result<bool, SupervisorError>) -> Outcome {
    match result {
        Ok(flag) => Ok(flag),
        Err(error) => Err(error@),
    }
}

} // verus!
