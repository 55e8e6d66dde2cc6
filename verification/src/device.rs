//! What a device has to offer to take part in the control loop.

use vstd::prelude::*;

use crate::errors::{clock_unreadable, ErrorKind, ErrorType};
use crate::io::event::IOEvent;
use crate::io::metadata::{DeviceMetadata, IdType};
use crate::io::types::raw::RawValue;
use crate::time::Timestamp;

verus! {

/// A device that can say what it is.
pub trait Device {
    /// What describes the device.
    spec fn metadata(&self) -> DeviceMetadata;

    fn get_metadata(&self) -> (metadata: &DeviceMetadata)
        ensures
            *metadata == self.metadata(),
    ;

    fn name(&self) -> (name: String)
        ensures
            name == self.metadata().name,
    ;

    fn id(&self) -> (id: IdType)
        ensures
            id == self.metadata().id,
    ;
}

/// An input device: a device that can be read.
pub trait Sensor: Device {
    /// Reads the device. Nothing is assumed of the value.
    fn read(&self) -> RawValue;

    /// Reads the device and stamps the reading with the time on the system
    /// clock: the event is that of some value passing through this device at
    /// a time that the clock can give. Where the clock cannot be read, the
    /// result is `ClockError` and the device is not read.
    fn get_event(&self) -> (r: Result<IOEvent, ErrorType>) where Self: Sized
        ensures
            match r {
                Ok(event) => exists|now: Timestamp, value: RawValue|
                    now.on_clock() && event == IOEvent::of(self.metadata(), now, value),
                Err(e) => e.kind == ErrorKind::ClockError,
            },
    {
        match Timestamp::now() {
            Some(now) => {
                let value = self.read();
                Ok(IOEvent::create(self.get_metadata(), now, value))
            },
            None => Err(clock_unreadable()),
        }
    }
}

/// An input device that needs calibration.
pub trait Calibrated {
    /// Starts the calibration of this device, and says whether it succeeded.
    fn calibrate(&self) -> bool;
}

} // verus!
