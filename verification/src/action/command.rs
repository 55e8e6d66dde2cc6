//! The commands that reach the hardware.
//!
//! What a command does is outside this library: a [`Reader`] or a [`Writer`]
//! is supplied by the device layer, and nothing is assumed of what it returns.

use std::sync::Arc;
use vstd::prelude::*;

use crate::errors::{Error, ErrorKind, ErrorType};
use crate::helpers::arc_clone;
use crate::io::types::direction::IODirection;
use crate::io::types::raw::RawValue;

verus! {

/// Reads a value from an input device.
pub trait Reader: Send + Sync {
    fn read(&self) -> RawValue;
}

/// Writes a value to an output device. The write may fail.
pub trait Writer: Send + Sync {
    fn write(&self, value: RawValue) -> Result<(), ErrorType>;
}

/// A handle on a value that several owners hold at once. The value is never
/// changed through the handle.
pub struct Shared<T: ?Sized> {
    inner: Arc<T>,
}

impl<T: ?Sized> Shared<T> {
    pub fn new(inner: Arc<T>) -> (s: Shared<T>)
        ensures
            s.inner() == inner,
    {
        Shared { inner }
    }

    /// What the handle points to.
    pub closed spec fn inner(&self) -> Arc<T> {
        self.inner
    }
}

impl<T: ?Sized> Clone for Shared<T> {
    fn clone(&self) -> (s: Shared<T>)
        ensures
            s == *self,
    {
        Shared { inner: arc_clone(&self.inner) }
    }
}

/// A command bound to a device: one that reads, or one that writes.
pub enum IOCommand {
    Input(Shared<dyn Reader>),
    Output(Shared<dyn Writer>),
}

impl IOCommand {
    /// The direction of the device that this command serves.
    pub open spec fn spec_direction(&self) -> IODirection {
        match self {
            IOCommand::Input(_) => IODirection::In,
            IOCommand::Output(_) => IODirection::Out,
        }
    }

    #[verifier::when_used_as_spec(spec_direction)]
    pub fn direction(&self) -> (d: IODirection)
        ensures
            d == self.spec_direction(),
    {
        match self {
            IOCommand::Input(_) => IODirection::In,
            IOCommand::Output(_) => IODirection::Out,
        }
    }

    /// `Ok` where this command serves a device of the given direction, an
    /// error of kind `CommandError` where it does not.
    pub fn agrees(&self, direction: IODirection) -> (r: Result<(), ErrorType>)
        ensures
            r is Ok <==> self.direction() == direction,
            r matches Err(e) ==> e.kind == ErrorKind::CommandError,
    {
        if self.direction() == direction {
            Ok(())
        } else {
            Err(Error::new(ErrorKind::CommandError, "command does not agree with the direction of the device"))
        }
    }

    /// What `execute` makes of the result of a write.
    pub fn written(outcome: Result<(), ErrorType>) -> (r: Result<Option<RawValue>, ErrorType>)
        ensures
            r == (match outcome {
                Ok(_) => Ok::<Option<RawValue>, ErrorType>(None),
                Err(e) => Err::<Option<RawValue>, ErrorType>(e),
            }),
    {
        match outcome {
            Ok(_) => Ok(None),
            Err(e) => Err(e),
        }
    }

    /// Runs the command.
    ///
    /// A reading command ignores `value` and returns what it read. A writing
    /// command writes `value` and returns `Ok(None)`, or the error of the
    /// write; without a value to write it fails with `CommandError` and
    /// nothing is written.
    pub fn execute(&self, value: Option<RawValue>) -> (r: Result<Option<RawValue>, ErrorType>)
        ensures
            self is Input ==> r matches Ok(Some(_)),
            self is Output && value is Some ==> (r matches Ok(v) ==> v is None),
            self is Output && value is None ==> (r matches Err(e) && e.kind == ErrorKind::CommandError),
    {
        match self {
            IOCommand::Input(reader) => Ok(Some(reader.inner.read())),
            IOCommand::Output(writer) => match value {
                Some(v) => IOCommand::written(writer.inner.write(v)),
                None => Err(Error::new(ErrorKind::CommandError, "no value to write")),
            },
        }
    }
}

impl Clone for IOCommand {
    fn clone(&self) -> (c: IOCommand)
        ensures
            c == *self,
    {
        match self {
            IOCommand::Input(reader) => IOCommand::Input(reader.clone()),
            IOCommand::Output(writer) => IOCommand::Output(writer.clone()),
        }
    }
}

} // verus!
