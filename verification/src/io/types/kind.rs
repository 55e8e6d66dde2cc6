use vstd::prelude::*;

verus! {

/// What a device measures or drives.
#[derive(Debug, Clone, Copy, PartialEq, Eq, Structural)]
pub enum IOKind {
    Unassigned,
    Light,
    Pressure,
    Proximity,
    RelativeHumidity,
    AmbientTemperature,
    Voltage,
    Current,
    Flow,
    EC,
    PH,
}

impl Default for IOKind {
    fn default() -> (k: IOKind)
        ensures
            k == IOKind::Unassigned,
    {
        IOKind::Unassigned
    }
}

} // verus!
