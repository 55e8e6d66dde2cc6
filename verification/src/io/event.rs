use vstd::prelude::*;

use crate::io::metadata::{DeviceMetadata, IdType};
use crate::io::types::direction::IODirection;
use crate::io::types::kind::IOKind;
use crate::io::types::raw::RawValue;
use crate::time::Timestamp;

verus! {

/// A value together with what kind of value it is.
#[derive(Debug, Clone, Copy, PartialEq, Eq, Structural)]
pub struct IOData {
    pub kind: IOKind,
    pub value: RawValue,
}

/// A value that passed through a device at a point in time: a reading of an
/// input device, or the effect of a command on an output device.
#[derive(Debug, Clone, Copy, PartialEq, Eq, Structural)]
pub struct IOEvent {
    pub id: IdType,
    pub timestamp: Timestamp,
    pub direction: IODirection,
    pub data: IOData,
}

impl IOEvent {
    /// The event of `value` passing through the device that `device`
    /// describes, at `timestamp`.
    pub open spec fn of(device: DeviceMetadata, timestamp: Timestamp, value: RawValue) -> IOEvent {
        IOEvent {
            id: device.id,
            timestamp,
            direction: device.direction,
            data: IOData { kind: device.kind, value },
        }
    }

    pub fn create(device: &DeviceMetadata, timestamp: Timestamp, value: RawValue) -> (e: IOEvent)
        ensures
            e == IOEvent::of(*device, timestamp, value),
    {
        IOEvent {
            id: device.id,
            timestamp,
            direction: device.direction,
            data: IOData { kind: device.kind, value },
        }
    }
}

} // verus!
