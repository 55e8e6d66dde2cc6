use vstd::prelude::*;

use crate::action::actuator::Actuator;
use crate::action::command::IOCommand;
use crate::action::routine::Routine;
use crate::device::Device;
use crate::errors::{clock_unreadable, no_internal_closure, Error, ErrorKind, ErrorType};
use crate::io::event::IOEvent;
use crate::io::metadata::{DeviceMetadata, IdType};
use crate::io::types::direction::IODirection;
use crate::io::types::kind::IOKind;
use crate::io::types::raw::RawValue;
use crate::storage::chronicle::Chronicle;
use crate::storage::log::{Log, LogView, RootPath};
use crate::time::{Span, Timestamp};

verus! {

/// An output device: it takes a value and acts on the outside world.
///
/// The device keeps the value that it was last given, and a log of what was
/// written to it. It needs a command to write at all, and a log before it
/// writes.
pub struct Output {
    metadata: DeviceMetadata,
    state: Option<RawValue>,
    log: Option<Log>,
    command: Option<IOCommand>,
}

/// What an output device holds.
pub struct OutputView {
    pub metadata: DeviceMetadata,
    /// The value that was last written, if any was.
    pub state: Option<RawValue>,
    pub log: Option<LogView>,
    pub command: Option<IOCommand>,
}

impl OutputView {
    /// This device after `event` has taken place on it: the value of the
    /// event is its state, and the event is the last in its log.
    pub open spec fn after(self, event: IOEvent) -> OutputView
        recommends
            self.log is Some,
    {
        OutputView {
            state: Some(event.data.value),
            log: Some(LogView { events: self.log.unwrap().events.push(event), ..self.log.unwrap() }),
            ..self
        }
    }

    /// This device with its log, if it has one, kept under `root`.
    pub open spec fn rooted(self, root: RootPath) -> OutputView {
        OutputView {
            log: match self.log {
                Some(log) => Some(LogView { root: Some(root), ..log }),
                None => None,
            },
            ..self
        }
    }

    /// Which error a device in this state gives when it is asked to act:
    /// `ContainerError` without a log, `CommandError` with a log and without
    /// a command, and none with both.
    pub open spec fn unfit(self) -> Option<ErrorKind> {
        if self.log is None {
            Some(ErrorKind::ContainerError)
        } else if self.command is None {
            Some(ErrorKind::CommandError)
        } else {
            None
        }
    }
}

impl View for Output {
    type V = OutputView;

    closed spec fn view(&self) -> OutputView {
        OutputView {
            metadata: self.metadata,
            state: self.state,
            log: match self.log {
                Some(log) => Some(log@),
                None => None,
            },
            command: self.command,
        }
    }
}

impl Default for Output {
    /// An unnamed output device with id 0, no kind, no log and no command.
    fn default() -> (output: Output)
        ensures
            output@.metadata.name@ == Seq::<char>::empty(),
            output@.metadata.id == 0,
            output@.metadata.kind == IOKind::Unassigned,
            output@.metadata.direction == IODirection::Out,
            output@.state is None,
            output@.log is None,
            output@.command is None,
    {
        Output {
            metadata: DeviceMetadata::new(String::new(), 0, IOKind::Unassigned, IODirection::Out),
            state: None,
            log: None,
            command: None,
        }
    }
}

impl Device for Output {
    open spec fn metadata(&self) -> DeviceMetadata {
        self@.metadata
    }

    fn get_metadata(&self) -> (metadata: &DeviceMetadata) {
        &self.metadata
    }

    fn name(&self) -> (name: String) {
        self.metadata.name.clone()
    }

    fn id(&self) -> (id: IdType) {
        self.metadata.id
    }
}

impl Output {
    /// An output device without log or command, of kind `Unassigned` where
    /// no kind is given.
    pub fn new(name: &str, id: IdType, kind: Option<IOKind>) -> (output: Output)
        ensures
            output@.metadata.name@ == name@,
            output@.metadata.id == id,
            output@.metadata.kind == (match kind {
                Some(kind) => kind,
                None => IOKind::Unassigned,
            }),
            output@.metadata.direction == IODirection::Out,
            output@.state is None,
            output@.log is None,
            output@.command is None,
    {
        let kind = match kind {
            Some(kind) => kind,
            None => IOKind::default(),
        };
        Output {
            metadata: DeviceMetadata::new(name.to_owned(), id, kind, IODirection::Out),
            state: None,
            log: None,
            command: None,
        }
    }

    pub fn state(&self) -> (state: Option<RawValue>)
        ensures
            state == self@.state,
    {
        self.state
    }

    pub fn log(&self) -> (log: Option<&Log>)
        ensures
            log is Some <==> self@.log is Some,
            log matches Some(log) ==> log@ == self@.log.unwrap(),
    {
        self.log.as_ref()
    }

    pub fn has_log(&self) -> (has: bool)
        ensures
            has == self@.log is Some,
    {
        self.log.is_some()
    }

    pub fn has_command(&self) -> (has: bool)
        ensures
            has == self@.command is Some,
    {
        self.command.is_some()
    }

    pub fn set_name(&mut self, name: &str)
        ensures
            final(self)@.metadata.name@ == name@,
            final(self)@ == (OutputView {
                metadata: DeviceMetadata { name: final(self)@.metadata.name, ..old(self)@.metadata },
                ..old(self)@
            }),
    {
        self.metadata.name = name.to_owned();
    }

    pub fn set_id(&mut self, id: IdType)
        ensures
            final(self)@ == (OutputView { metadata: DeviceMetadata { id, ..old(self)@.metadata }, ..old(self)@ }),
    {
        self.metadata.id = id;
    }

    /// Gives the device `log` for its log, in place of the one it had.
    pub fn set_log(&mut self, log: Log)
        ensures
            final(self)@ == (OutputView { log: Some(log@), ..old(self)@ }),
    {
        self.log = Some(log);
    }

    /// Gives the device an empty log of its own, in place of the one it had.
    pub fn init_log(self) -> (output: Output)
        ensures
            output@ == (OutputView {
                log: Some(LogView { id: self@.metadata.id, root: None, events: Seq::empty() }),
                ..self@
            }),
    {
        let log = Log::new(self.metadata.id, None);
        Output { metadata: self.metadata, state: self.state, log: Some(log), command: self.command }
    }

    /// Hands the log of the device events that were read back from a file:
    /// see [`Log::load`]. A device without a log gives `ContainerError`, a
    /// log that holds events `ContainerNotEmpty`, and the device stays as it
    /// is.
    pub fn load_log(&mut self, events: Vec<IOEvent>) -> (r: Result<(), ErrorType>)
        ensures
            match old(self)@.log {
                Some(log) => if log.events.len() == 0 {
                    r is Ok && final(self)@ == (OutputView { log: Some(LogView { events: events@, ..log }), ..old(self)@ })
                } else {
                    r matches Err(e) && e.kind == ErrorKind::ContainerNotEmpty && final(self)@ == old(self)@
                },
                None => r matches Err(e) && e.kind == ErrorKind::ContainerError && final(self)@ == old(self)@,
            },
    {
        match &mut self.log {
            Some(log) => log.load(events),
            None => Err(Error::new(ErrorKind::ContainerError, "device has no log")),
        }
    }

    /// Sets the directory under which the log of the device is kept. A
    /// device without a log stays as it is.
    pub fn set_root(&mut self, root: RootPath)
        ensures
            final(self)@ == old(self)@.rooted(root),
    {
        match &mut self.log {
            Some(log) => log.set_root(root),
            None => {},
        }
    }

    /// Gives the device its command. Only a command that writes will do: one
    /// that reads is refused with `CommandError`.
    pub fn set_command(self, command: IOCommand) -> (r: Result<Output, ErrorType>)
        ensures
            r is Ok <==> command.direction() == IODirection::Out,
            r matches Ok(output) ==> output@ == (OutputView { command: Some(command), ..self@ }),
            r matches Err(e) ==> e.kind == ErrorKind::CommandError,
    {
        match command.agrees(IODirection::Out) {
            Ok(_) => Ok(Output { metadata: self.metadata, state: self.state, log: self.log, command: Some(command) }),
            Err(e) => Err(e),
        }
    }

    /// What `tx` makes of the result of the command: the event of `value`
    /// passing through this device at `now` where the command succeeded, its
    /// error where it failed.
    pub fn sent(&self, value: RawValue, now: Timestamp, outcome: Result<Option<RawValue>, ErrorType>) -> (r: Result<
        IOEvent,
        ErrorType,
    >)
        ensures
            r == (match outcome {
                Ok(_) => Ok::<IOEvent, ErrorType>(IOEvent::of(self@.metadata, now, value)),
                Err(e) => Err::<IOEvent, ErrorType>(e),
            }),
    {
        match outcome {
            Ok(_) => Ok(IOEvent::create(&self.metadata, now, value)),
            Err(e) => Err(e),
        }
    }

    /// Runs the command of the device with `value`, and gives the event of
    /// that write, stamped `now`. Without a command the device fails with
    /// `CommandError`.
    pub fn tx_at(&self, value: RawValue, now: Timestamp) -> (r: Result<IOEvent, ErrorType>)
        ensures
            r matches Ok(event) ==> event == IOEvent::of(self@.metadata, now, value) && self@.command is Some,
            self@.command is None ==> (r matches Err(e) && e.kind == ErrorKind::CommandError),
    {
        match &self.command {
            Some(command) => {
                let outcome = command.execute(Some(value));
                self.sent(value, now, outcome)
            },
            None => Err(no_internal_closure()),
        }
    }

    /// Runs the command of the device with `value`, and gives the event of
    /// that write, stamped with the time on the system clock. Without a
    /// command the device fails with `CommandError`; where the clock cannot
    /// be read, with `ClockError`, and the command is not run.
    pub fn tx(&self, value: RawValue) -> (r: Result<IOEvent, ErrorType>)
        ensures
            r matches Ok(event) ==> (exists|now: Timestamp|
                now.on_clock() && event == IOEvent::of(self@.metadata, now, value)) && self@.command is Some,
            self@.command is None ==> (r matches Err(e) && e.kind == ErrorKind::CommandError),
    {
        if self.command.is_none() {
            return Err(no_internal_closure());
        }
        match Timestamp::now() {
            Some(now) => self.tx_at(value, now),
            None => Err(clock_unreadable()),
        }
    }

    /// What `write` makes of the result of `tx`: where the write succeeded,
    /// the value is kept as the state of the device and the event is
    /// recorded in its log; where it failed, the device stays as it is.
    pub fn written(&mut self, sent: Result<IOEvent, ErrorType>) -> (r: Result<IOEvent, ErrorType>)
        requires
            old(self)@.log is Some,
        ensures
            r == sent,
            final(self)@ == (match sent {
                Ok(event) => old(self)@.after(event),
                Err(_) => old(self)@,
            }),
    {
        match sent {
            Ok(event) => {
                self.state = Some(event.data.value);
                match &mut self.log {
                    Some(log) => log.push(event),
                    None => {},
                }
                Ok(event)
            },
            Err(e) => Err(e),
        }
    }

    /// Writes `value` to the device at `now`: runs the command, keeps the
    /// value as the state of the device, and records the event in its log.
    ///
    /// A device without a log fails with `ContainerError` and one without a
    /// command with `CommandError`, both before anything is written. Where
    /// the command fails, its error is returned. In every case of failure
    /// the device stays as it is.
    pub fn write_at(&mut self, value: RawValue, now: Timestamp) -> (r: Result<IOEvent, ErrorType>)
        ensures
            old(self)@.unfit() matches Some(kind) ==> (r matches Err(e) && e.kind == kind),
            match r {
                Ok(event) => {
                    &&& event == IOEvent::of(old(self)@.metadata, now, value)
                    &&& old(self)@.log is Some
                    &&& final(self)@ == old(self)@.after(event)
                },
                Err(_) => final(self)@ == old(self)@,
            },
    {
        if self.log.is_none() {
            return Err(Error::new(ErrorKind::ContainerError, "output device has no log"));
        }
        let sent = self.tx_at(value, now);
        self.written(sent)
    }

    /// Writes `value` to the device, at the time on the system clock. It
    /// fails as [`Self::write_at`] does, and with `ClockError` where the
    /// clock cannot be read: nothing is written then.
    pub fn write(&mut self, value: RawValue) -> (r: Result<IOEvent, ErrorType>)
        ensures
            old(self)@.unfit() matches Some(kind) ==> (r matches Err(e) && e.kind == kind),
            match r {
                Ok(event) => {
                    &&& exists|now: Timestamp|
                        now.on_clock() && event == IOEvent::of(old(self)@.metadata, now, value)
                    &&& old(self)@.log is Some
                    &&& final(self)@ == old(self)@.after(event)
                },
                Err(_) => final(self)@ == old(self)@,
            },
    {
        if self.log.is_none() {
            return Err(Error::new(ErrorKind::ContainerError, "output device has no log"));
        }
        if self.command.is_none() {
            return Err(no_internal_closure());
        }
        match Timestamp::now() {
            Some(now) => self.write_at(value, now),
            None => Err(clock_unreadable()),
        }
    }

    /// This device as an evaluator may hold it: its description and its
    /// command, as they are now. A device without a log fails with
    /// `ContainerError`, one with a log and without a command with
    /// `CommandError`: no routine is to be made for a device that cannot
    /// record it or cannot run it.
    pub fn actuator(&self) -> (r: Result<Actuator, ErrorType>)
        ensures
            match r {
                Ok(actuator) => self@.unfit() is None && actuator == (Actuator {
                    metadata: self@.metadata,
                    command: self@.command.unwrap(),
                }),
                Err(e) => self@.unfit() == Some(e.kind),
            },
    {
        if self.log.is_none() {
            return Err(Error::new(ErrorKind::ContainerError, "output device has no log"));
        }
        match &self.command {
            Some(command) => Ok(Actuator::new(self.metadata.clone(), command.clone())),
            None => Err(no_internal_closure()),
        }
    }

    /// Makes the routine that writes `value` to this device once `duration`
    /// has passed after `now`. The device has a log and a command: no
    /// routine is made for a device that cannot record it or cannot run it.
    pub fn create_routine_at(&self, value: RawValue, duration: Span, now: Timestamp) -> (routine: Routine)
        requires
            self@.unfit() is None,
        ensures
            routine == Routine::new(now.plus(duration), self@.metadata, value, self@.command.unwrap()),
    {
        match &self.command {
            Some(command) => Routine::new(now.plus(duration), self.metadata.clone(), value, command.clone()),
            None => unreached(),
        }
    }

    /// Makes the routine that writes `value` to this device once `duration`
    /// has passed after the time on the system clock. The device has a log
    /// and a command. Where the clock cannot be read, the result is
    /// `ClockError`.
    pub fn create_routine(&self, value: RawValue, duration: Span) -> (r: Result<Routine, ErrorType>)
        requires
            self@.unfit() is None,
        ensures
            match r {
                Ok(routine) => exists|now: Timestamp|
                    now.on_clock() && routine == Routine::new(
                        now.plus(duration),
                        self@.metadata,
                        value,
                        self@.command.unwrap(),
                    ),
                Err(e) => e.kind == ErrorKind::ClockError,
            },
    {
        match Timestamp::now() {
            Some(now) => Ok(self.create_routine_at(value, duration, now)),
            None => Err(clock_unreadable()),
        }
    }
}

impl Chronicle for Output {
    /// An output device takes the events that bear its own id, if it has a
    /// log.
    open spec fn takes(chronicle: OutputView, event: IOEvent) -> bool {
        chronicle.log is Some && event.id == chronicle.metadata.id
    }

    open spec fn after(chronicle: OutputView, event: IOEvent) -> OutputView {
        chronicle.after(event)
    }

    /// Records in the log of the device an event that a routine caused on
    /// it, and keeps the value of the event as the state of the device. A
    /// device without a log, and an event of another device, give
    /// `ContainerError`.
    fn record(&mut self, event: IOEvent) -> (r: Result<(), ErrorType>)
        ensures
            r matches Err(e) ==> e.kind == ErrorKind::ContainerError,
    {
        if self.log.is_none() {
            Err(Error::new(ErrorKind::ContainerError, "output device has no log"))
        } else if event.id != self.metadata.id {
            Err(Error::new(ErrorKind::ContainerError, "the event belongs to another device"))
        } else {
            let _ = self.written(Ok(event));
            Ok(())
        }
    }
}

} // verus!
