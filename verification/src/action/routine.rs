use vstd::prelude::*;

use crate::action::command::IOCommand;
use crate::errors::ErrorType;
use crate::io::event::IOEvent;
use crate::io::metadata::DeviceMetadata;
use crate::io::types::raw::RawValue;
use crate::storage::chronicle::Chronicle;
use crate::time::Timestamp;

verus! {

/// A command that waits for its time: write this value to this device, with
/// this command, no earlier than this point in time.
///
/// A routine never changes once it is made. An attempt either runs it whole or
/// leaves everything as it was. The log in which the effect of the run is
/// recorded is not held by the routine: whoever attempts the routine lends
/// it, since whoever owns the routine's device owns its log.
pub struct Routine {
    timestamp: Timestamp,
    metadata: DeviceMetadata,
    value: RawValue,
    command: IOCommand,
}

impl Routine {
    /// The routine that writes `value` to the device `metadata` with
    /// `command`, no earlier than `timestamp`.
    pub closed spec fn spec_new(
        timestamp: Timestamp,
        metadata: DeviceMetadata,
        value: RawValue,
        command: IOCommand,
    ) -> Routine {
        Routine { timestamp, metadata, value, command }
    }

    #[verifier::when_used_as_spec(spec_new)]
    pub fn new(timestamp: Timestamp, metadata: DeviceMetadata, value: RawValue, command: IOCommand) -> (r: Routine)
        ensures
            r == Routine::new(timestamp, metadata, value, command),
            r.timestamp() == timestamp,
            *r.metadata() == metadata,
            r.value() == value,
            *r.command() == command,
    {
        Routine { timestamp, metadata, value, command }
    }

    /// A routine holds what it was made of.
    pub broadcast proof fn lemma_new(
        timestamp: Timestamp,
        metadata: DeviceMetadata,
        value: RawValue,
        command: IOCommand,
    )
        ensures
            (#[trigger] Routine::new(timestamp, metadata, value, command)).timestamp() == timestamp,
            *Routine::new(timestamp, metadata, value, command).metadata() == metadata,
            Routine::new(timestamp, metadata, value, command).value() == value,
            *Routine::new(timestamp, metadata, value, command).command() == command,
    {
    }

    /// The earliest time at which the routine may run.
    pub closed spec fn spec_timestamp(&self) -> Timestamp {
        self.timestamp
    }

    #[verifier::when_used_as_spec(spec_timestamp)]
    pub fn timestamp(&self) -> (t: Timestamp)
        ensures
            t == self.timestamp(),
    {
        self.timestamp
    }

    /// The device that the routine writes to, as it was described when the
    /// routine was made.
    pub closed spec fn spec_metadata(&self) -> &DeviceMetadata {
        &self.metadata
    }

    #[verifier::when_used_as_spec(spec_metadata)]
    pub fn metadata(&self) -> (m: &DeviceMetadata)
        ensures
            m == self.metadata(),
    {
        &self.metadata
    }

    /// The value that the routine writes.
    pub closed spec fn spec_value(&self) -> RawValue {
        self.value
    }

    #[verifier::when_used_as_spec(spec_value)]
    pub fn value(&self) -> (v: RawValue)
        ensures
            v == self.value(),
    {
        self.value
    }

    /// The command that the routine runs.
    pub closed spec fn spec_command(&self) -> &IOCommand {
        &self.command
    }

    #[verifier::when_used_as_spec(spec_command)]
    pub fn command(&self) -> (c: &IOCommand)
        ensures
            c == self.command(),
    {
        &self.command
    }

    /// Whether the routine may run at `now`: its time has come or has passed.
    pub open spec fn spec_is_due(&self, now: Timestamp) -> bool {
        now@ >= self.timestamp()@
    }

    #[verifier::when_used_as_spec(spec_is_due)]
    pub fn is_due(&self, now: Timestamp) -> (due: bool)
        ensures
            due == self.is_due(now),
    {
        now.reached(self.timestamp)
    }

    /// The event that records a run of the routine at `now`: the routine's
    /// value, on the routine's device, at that time.
    pub open spec fn effect(&self, now: Timestamp) -> IOEvent {
        IOEvent::of(*self.metadata(), now, self.value())
    }

    /// What an attempt at `now` makes of the result of the command: the
    /// routine's effect where the command succeeded, its error where it failed.
    pub fn conclude(&self, now: Timestamp, outcome: Result<Option<RawValue>, ErrorType>) -> (r: Result<IOEvent, ErrorType>)
        ensures
            r == (match outcome {
                Ok(_) => Ok::<IOEvent, ErrorType>(self.effect(now)),
                Err(e) => Err::<IOEvent, ErrorType>(e),
            }),
    {
        match outcome {
            Ok(_) => Ok(IOEvent::create(&self.metadata, now, self.value)),
            Err(e) => Err(e),
        }
    }

    /// What an attempt makes of the effect of the routine: the effect is
    /// recorded in `log`, and stays where `log` takes it; the error of `log`
    /// stands in its place where `log` does not. An error stays as it is and
    /// leaves `log` as it was.
    pub fn logged<C: Chronicle>(outcome: Result<IOEvent, ErrorType>, log: &mut C) -> (r: Result<IOEvent, ErrorType>)
        ensures
            match outcome {
                Ok(event) => if C::takes(old(log)@, event) {
                    r == outcome && final(log)@ == C::after(old(log)@, event)
                } else {
                    r is Err && final(log)@ == old(log)@
                },
                Err(_) => r == outcome && final(log)@ == old(log)@,
            },
    {
        match outcome {
            Ok(event) => match log.record(event) {
                Ok(_) => Ok(event),
                Err(e) => Err(e),
            },
            Err(e) => Err(e),
        }
    }

    /// Runs the routine if it is due at `now`, and records its effect in
    /// `log`.
    ///
    /// `None` where it is not due: nothing has happened. Where it is due, the
    /// command has been run once with the routine's value, and the result is
    /// `Some`: the effect, which `log` has recorded, where the command
    /// succeeded; the command's error where it failed; and the error of
    /// `log` where the command succeeded and `log` did not take the effect.
    /// Either way the routine is spent. A command that reads cannot fail, so
    /// a due routine with such a command succeeds wherever `log` takes its
    /// effect.
    pub fn attempt<C: Chronicle>(&self, now: Timestamp, log: &mut C) -> (r: Option<Result<IOEvent, ErrorType>>)
        ensures
            r is Some <==> self.is_due(now),
            r matches Some(Ok(event)) ==> event == self.effect(now) && C::takes(old(log)@, event),
            self.is_due(now) && self.command() is Input && C::takes(old(log)@, self.effect(now)) ==> r == Some(
                Ok::<IOEvent, ErrorType>(self.effect(now)),
            ),
            final(log)@ == (match r {
                Some(Ok(event)) => C::after(old(log)@, event),
                _ => old(log)@,
            }),
    {
        if self.is_due(now) {
            let outcome = self.command.execute(Some(self.value));
            Some(Routine::logged(self.conclude(now, outcome), log))
        } else {
            None
        }
    }
}

} // verus!
