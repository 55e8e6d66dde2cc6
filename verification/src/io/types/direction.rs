use vstd::prelude::*;

verus! {

/// The direction of data flow, seen from the system.
///
/// An input device brings data in from the outside world; an output device
/// accepts data and acts on the outside.
#[derive(Debug, Clone, Copy, PartialEq, Eq, Structural)]
pub enum IODirection {
    In,
    Out,
}

impl Default for IODirection {
    fn default() -> (d: IODirection)
        ensures
            d == IODirection::In,
    {
        IODirection::In
    }
}

impl IODirection {
    /// The word for this direction in messages: `Input` or `Output`.
    pub fn name(&self) -> (s: &'static str)
        ensures
            s@ == (match *self {
                IODirection::In => "Input"@,
                IODirection::Out => "Output"@,
            }),
    {
        match self {
            IODirection::In => "Input",
            IODirection::Out => "Output",
        }
    }
}

} // verus!
