use vstd::prelude::*;

verus! {

/// A value read from, or written to, a device.
///
/// Values of different variants are compared by their magnitude: `false` is 0
/// and `true` is 1.
#[derive(Debug, Clone, Copy, PartialEq, Eq, Structural)]
pub enum RawValue {
    Binary(bool),
    PosInt8(u8),
    Int8(i8),
    PosInt(u32),
    Int(i32),
}

impl Default for RawValue {
    fn default() -> (v: RawValue)
        ensures
            v == RawValue::Binary(false),
    {
        RawValue::Binary(false)
    }
}

impl RawValue {
    /// The number that this value stands for.
    pub open spec fn magnitude(self) -> int {
        match self {
            RawValue::Binary(b) => if b { 1 } else { 0 },
            RawValue::PosInt8(n) => n as int,
            RawValue::Int8(n) => n as int,
            RawValue::PosInt(n) => n as int,
            RawValue::Int(n) => n as int,
        }
    }

    pub fn to_int(&self) -> (n: i64)
        ensures
            n == self.magnitude(),
    {
        match *self {
            RawValue::Binary(b) => if b { 1 } else { 0 },
            RawValue::PosInt8(n) => n as i64,
            RawValue::Int8(n) => n as i64,
            RawValue::PosInt(n) => n as i64,
            RawValue::Int(n) => n as i64,
        }
    }
}

} // verus!
