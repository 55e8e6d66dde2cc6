use vstd::prelude::*;

use crate::io::types::direction::IODirection;
use crate::io::types::kind::IOKind;

verus! {

/// The number by which a device is told from the others.
pub type IdType = u32;

/// What identifies a device: enough to address it again later.
#[derive(Debug, PartialEq, Eq)]
pub struct DeviceMetadata {
    pub name: String,
    pub id: IdType,
    pub kind: IOKind,
    pub direction: IODirection,
}

impl DeviceMetadata {
    pub fn new(name: String, id: IdType, kind: IOKind, direction: IODirection) -> (m: DeviceMetadata)
        ensures
            m == (DeviceMetadata { name, id, kind, direction }),
    {
        DeviceMetadata { name, id, kind, direction }
    }
}

impl Default for DeviceMetadata {
    /// An unnamed input device with id 0 and no kind assigned.
    fn default() -> (m: DeviceMetadata)
        ensures
            m.name@ == Seq::<char>::empty(),
            m.id == 0,
            m.kind == IOKind::Unassigned,
            m.direction == IODirection::In,
    {
        DeviceMetadata {
            name: String::new(),
            id: 0,
            kind: IOKind::Unassigned,
            direction: IODirection::In,
        }
    }
}

impl Clone for DeviceMetadata {
    fn clone(&self) -> (m: DeviceMetadata)
        ensures
            m == *self,
    {
        DeviceMetadata {
            name: self.name.clone(),
            id: self.id,
            kind: self.kind,
            direction: self.direction,
        }
    }
}

} // verus!
