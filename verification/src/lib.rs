//! A small control-loop framework: input devices are polled for readings, the
//! readings are handed to evaluators, and an evaluator may schedule a command
//! for an output device, to run once at or after a due time.
//!
//! All state is owned and passed explicitly. An operation that changes a
//! scheduler, a publisher or a device takes it by `&mut`, so the borrow rules
//! give each operation exclusive access for exactly its own duration; to share
//! one of them between threads, put it behind a lock of your choice.
//!
//! Time is a value. Every operation that depends on the time has a form that
//! takes the time as an argument (its name ends in `_at`), and a form that
//! reads the system clock and then does the same. Where the clock cannot be
//! read, the form that reads it does nothing and says so.
//!
//! A command that fails is reported and its routine is dropped: a routine is
//! attempted once, in the first pass that finds it due, and never again.

pub mod action;
pub mod device;
pub mod errors;
pub mod helpers;
pub mod io;
pub mod settings;
pub mod storage;
pub mod time;
