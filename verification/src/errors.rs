//! The error type shared by devices, commands and containers.

use vstd::prelude::*;

verus! {

/// The kinds of failure that the library reports.
#[derive(Clone, Copy, Debug, PartialEq, Eq, Structural)]
pub enum ErrorKind {
    /// A container refused an entry, or lacks the one asked for.
    ContainerError,
    /// A container is empty where it must hold something.
    ContainerEmpty,
    /// A container holds something where it must be empty.
    ContainerNotEmpty,
    /// A device has no command, or its command cannot do what is asked.
    CommandError,
    /// Stored data could not be written or read back.
    SerializationError,
    /// The system clock could not be read.
    ClockError,
}

/// A failure: its kind and a message for the operator.
#[derive(Debug, PartialEq, Eq)]
pub struct Error {
    pub kind: ErrorKind,
    pub message: String,
}

pub type ErrorType = Error;

impl Error {
    pub fn new(kind: ErrorKind, message: &str) -> (e: Error)
        ensures
            e.kind == kind,
            e.message@ == message@,
    {
        Error { kind, message: message.to_owned() }
    }

    pub fn kind(&self) -> (k: ErrorKind)
        ensures
            k == self.kind,
    {
        self.kind
    }

    pub fn message(&self) -> (m: &String)
        ensures
            *m == self.message,
    {
        &self.message
    }
}

impl Clone for Error {
    fn clone(&self) -> (e: Error)
        ensures
            e == *self,
    {
        Error { kind: self.kind, message: self.message.clone() }
    }
}

/// The error of a device that is asked to act and has no command.
pub fn no_internal_closure() -> (e: Error)
    ensures
        e.kind == ErrorKind::CommandError,
        e.message@ == "device has no command"@,
{
    Error::new(ErrorKind::CommandError, "device has no command")
}

/// The error of an operation that needs the time and cannot read the clock.
pub fn clock_unreadable() -> (e: Error)
    ensures
        e.kind == ErrorKind::ClockError,
        e.message@ == "the system clock cannot be read"@,
{
    Error::new(ErrorKind::ClockError, "the system clock cannot be read")
}

} // verus!
