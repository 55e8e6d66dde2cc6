//! What is kept: the logs of the devices, and the groups that hold devices.

pub mod chronicle;
pub mod group;
pub mod log;

pub use chronicle::Chronicle;
pub use group::{Group, GroupView};
pub use log::{Log, LogView, RootPath};
