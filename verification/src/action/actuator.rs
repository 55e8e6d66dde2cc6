use vstd::prelude::*;

use crate::action::command::IOCommand;
use crate::action::routine::Routine;
use crate::io::metadata::DeviceMetadata;
use crate::io::types::raw::RawValue;
use crate::time::{Span, Timestamp};

verus! {

/// An output device as an evaluator holds it: the description of the device
/// and the command that writes to it, both as they were when the evaluator
/// was bound to the device.
pub struct Actuator {
    pub metadata: DeviceMetadata,
    pub command: IOCommand,
}

impl Actuator {
    pub fn new(metadata: DeviceMetadata, command: IOCommand) -> (a: Actuator)
        ensures
            a == (Actuator { metadata, command }),
    {
        Actuator { metadata, command }
    }

    /// The routine that writes `value` to this device once `delay` has passed
    /// after `now`.
    pub open spec fn routine(&self, value: RawValue, delay: Span, now: Timestamp) -> Routine {
        Routine::new(now.plus(delay), self.metadata, value, self.command)
    }

    /// Makes the routine that writes `value` to this device once `delay` has
    /// passed after `now`.
    pub fn create_routine_at(&self, value: RawValue, delay: Span, now: Timestamp) -> (r: Routine)
        ensures
            r == self.routine(value, delay, now),
            r.timestamp() == now.plus(delay),
            *r.metadata() == self.metadata,
            r.value() == value,
            *r.command() == self.command,
    {
        Routine::new(now.plus(delay), self.metadata.clone(), value, self.command.clone())
    }
}

impl Clone for Actuator {
    fn clone(&self) -> (a: Actuator)
        ensures
            a == *self,
    {
        Actuator { metadata: self.metadata.clone(), command: self.command.clone() }
    }
}

} // verus!
