//! The small value types of device data.

pub mod direction;
pub mod kind;
pub mod raw;
