//! From a reading to a command: comparisons, commands, scheduled routines,
//! evaluators and the publisher that ties them to one input device.

pub mod actions;
pub mod actuator;
pub mod command;
pub mod comparison;
pub mod handler;
pub mod history;
pub mod publisher;
pub mod routine;
pub mod threshold;

pub use actions::{Action, BoxedAction};
pub use actuator::Actuator;
pub use command::{IOCommand, Reader, Shared, Writer};
pub use comparison::Comparison;
pub use handler::SchedRoutineHandler;
pub use history::Operation;
pub use publisher::{Publisher, PublisherView};
pub use routine::Routine;
pub use threshold::Threshold;
