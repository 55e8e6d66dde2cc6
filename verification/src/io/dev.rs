//! Output devices, and the container that holds devices by their id.

pub mod container;
pub mod output;
