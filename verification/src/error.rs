//! Failures as the cleanup logic sees them: a kind and a message.

use vstd::prelude::*;
use vstd::std_specs::convert::FromSpecImpl;

verus! {

/// The kind of an I/O failure, one variant for each kind that the standard
/// library lets a program name. `Unnamed` is one of the others, under a number
/// by which the embedding program finds it again.
#[derive(Clone, Copy, Debug, PartialEq, Eq, Structural)]
pub enum ErrorKind {
    NotFound,
    PermissionDenied,
    ConnectionRefused,
    ConnectionReset,
    HostUnreachable,
    NetworkUnreachable,
    ConnectionAborted,
    NotConnected,
    AddrInUse,
    AddrNotAvailable,
    NetworkDown,
    BrokenPipe,
    AlreadyExists,
    WouldBlock,
    NotADirectory,
    IsADirectory,
    DirectoryNotEmpty,
    ReadOnlyFilesystem,
    StaleNetworkFileHandle,
    InvalidInput,
    InvalidData,
    TimedOut,
    WriteZero,
    StorageFull,
    NotSeekable,
    QuotaExceeded,
    FileTooLarge,
    ResourceBusy,
    ExecutableFileBusy,
    Deadlock,
    CrossesDevices,
    TooManyLinks,
    InvalidFilename,
    ArgumentListTooLong,
    Interrupted,
    Unsupported,
    UnexpectedEof,
    OutOfMemory,
    Other,
    Unnamed(u32),
}

/// An I/O failure: its kind, and the text that it displays as.
#[derive(Debug, PartialEq, Eq)]
pub struct IoError {
    pub kind: ErrorKind,
    pub message: String,
}

impl IoError {
    /// Whether the failure has this kind and displays as this text.
    pub open spec fn describes(self, kind: ErrorKind, message: Seq<char>) -> bool {
        self.kind == kind && self.message@ == message
    }

    /// A failure with the given kind and text.
    pub fn new(kind: ErrorKind, message: String) -> (error: Self)
        ensures
            error == (IoError { kind, message }),
    {
        IoError { kind, message }
    }

    /// A failure of no particular kind.
    pub fn other(message: String) -> (error: Self)
        ensures
            error == (IoError { kind: ErrorKind::Other, message }),
    {
        IoError { kind: ErrorKind::Other, message }
    }
}

/// The failure of a cleanup attempt, in the form in which it is handed to every
/// caller that waits for the attempt.
#[derive(Debug, PartialEq, Eq)]
pub struct ProcessCleanupFailure {
    pub kind: ErrorKind,
    pub message: String,
}

/// How a cleanup attempt ended.
pub type ProcessCleanupOutcome = Result<(), ProcessCleanupFailure>;

impl Clone for ProcessCleanupFailure {
    fn clone(&self) -> (copy: Self)
        ensures
            copy == *self,
    {
        ProcessCleanupFailure { kind: self.kind, message: self.message.clone() }
    }
}

/// The form in which an I/O failure is recorded for the waiting callers.
pub open spec fn recorded(error: IoError) -> ProcessCleanupFailure {
    ProcessCleanupFailure { kind: error.kind, message: error.message }
}

impl From<IoError> for ProcessCleanupFailure {
    fn from(error: IoError) -> (failure: Self) {
        ProcessCleanupFailure { kind: error.kind, message: error.message }
    }
}

impl FromSpecImpl<IoError> for ProcessCleanupFailure {
    open spec fn obeys_from_spec() -> bool {
        true
    }

    open spec fn from_spec(error: IoError) -> Self {
        recorded(error)
    }
}

impl ProcessCleanupFailure {
    /// The I/O failure that this failure is reported as.
    pub open spec fn error_spec(self) -> IoError {
        IoError { kind: self.kind, message: self.message }
    }

    /// Turns the failure into the I/O failure that a caller sees.
    pub fn into_error(self) -> (error: IoError)
        ensures
            error == self.error_spec(),
            error.kind == self.kind,
            error.message == self.message,
    {
        IoError { kind: self.kind, message: self.message }
    }
}

/// A failure survives being shared: recording an I/O failure and reporting it
/// again gives back its kind and its text, and the other way round.
pub proof fn law_failure_round_trip(error: IoError, failure: ProcessCleanupFailure)
    ensures
        recorded(error).error_spec() == error,
        recorded(failure.error_spec()) == failure,
        recorded(error).kind == error.kind,
        recorded(error).message == error.message,
        failure.error_spec().kind == failure.kind,
        failure.error_spec().message == failure.message,
{
}

/// A failure is described by its own kind and text, and by no others.
pub proof fn law_description_is_exact(error: IoError, kind: ErrorKind, message: Seq<char>)
    ensures
        error.describes(error.kind, error.message@),
        error.describes(kind, message) ==> error.kind == kind && error.message@ == message,
{
}

} // verus!
