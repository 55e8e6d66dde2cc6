//! Devices and the data that flows through them.

pub mod dev;
pub mod event;
pub mod input;
pub mod metadata;
pub mod types;

pub use dev::container::{DeviceContainer, Entry};
pub use dev::output::{Output, OutputView};
pub use event::{IOData, IOEvent};
pub use input::{GenericInput, Input, InputView};
pub use metadata::{DeviceMetadata, IdType};
pub use types::direction::IODirection;
pub use types::kind::IOKind;
pub use types::raw::RawValue;
