use vstd::prelude::*;

use crate::action::command::IOCommand;
use crate::action::handler::SchedRoutineHandler;
use crate::action::publisher::{Publisher, PublisherView};
use crate::action::routine::Routine;
use crate::device::Device;
use crate::errors::{clock_unreadable, no_internal_closure, Error, ErrorKind, ErrorType};
use crate::io::event::IOEvent;
use crate::io::metadata::{DeviceMetadata, IdType};
use crate::io::types::direction::IODirection;
use crate::io::types::kind::IOKind;
use crate::io::types::raw::RawValue;
use crate::storage::chronicle::Chronicle;
use crate::storage::log::{Log, LogView, RootPath};
use crate::time::Timestamp;

verus! {

/// An input device: it is read for a value from the outside world.
///
/// Every reading is shown to the evaluators of the device's publisher, if it
/// has one, and recorded in the device's log. The device needs a command to
/// read at all, and a log before it reads.
pub struct GenericInput {
    metadata: DeviceMetadata,
    log: Option<Log>,
    publisher: Option<Publisher>,
    command: Option<IOCommand>,
}

pub type Input = GenericInput;

/// What an input device holds.
pub struct InputView {
    pub metadata: DeviceMetadata,
    pub log: Option<LogView>,
    pub publisher: Option<PublisherView>,
    pub command: Option<IOCommand>,
}

impl InputView {
    /// This device with its log, if it has one, kept under `root`.
    pub open spec fn rooted(self, root: RootPath) -> InputView {
        InputView {
            log: match self.log {
                Some(log) => Some(LogView { root: Some(root), ..log }),
                None => None,
            },
            ..self
        }
    }

    /// Whether `after` is what a publisher in state `before` may be once
    /// `event` has been shown to its evaluators: see
    /// [`PublisherView::shown`]. Where there is no publisher, there is none
    /// after.
    pub open spec fn propagated(before: Option<PublisherView>, event: IOEvent, after: Option<PublisherView>) -> bool {
        match before {
            Some(before) => after is Some && before.shown(event, after.unwrap()),
            None => after is None,
        }
    }

    /// Whether `after` is what a device in this state may be once it has
    /// taken the reading `event`: the event is the last in its log, and its
    /// publisher has been shown the event.
    pub open spec fn took(self, event: IOEvent, after: InputView) -> bool
        recommends
            self.log is Some,
    {
        &&& after.metadata == self.metadata
        &&& after.command == self.command
        &&& after.log == Some(LogView { events: self.log.unwrap().events.push(event), ..self.log.unwrap() })
        &&& Self::propagated(self.publisher, event, after.publisher)
    }
}

impl InputView {
    /// Whether a read at `now` of a device in this state may give `result`
    /// and leave the device in the state `after`.
    ///
    /// A device without a log gives `ContainerError` and one without a
    /// command `CommandError`. A device with a log and a command that reads
    /// gives a reading. A reading is the event of some value passing through
    /// the device at `now`, and the device has taken it. A failure leaves the
    /// device as it was.
    pub open spec fn read(self, now: Timestamp, result: Result<IOEvent, ErrorType>, after: InputView) -> bool {
        &&& self.log is None ==> (result matches Err(e) && e.kind == ErrorKind::ContainerError)
        &&& self.log is Some && self.command is None ==> (result matches Err(e) && e.kind == ErrorKind::CommandError)
        &&& self.log is Some && self.reads() ==> result is Ok
        &&& match result {
            Ok(event) => {
                &&& exists|value: RawValue| event == IOEvent::of(self.metadata, now, value)
                &&& self.log is Some
                &&& self.took(event, after)
            },
            Err(_) => after == self,
        }
    }

    /// Whether the device has a command, and one that reads.
    pub open spec fn reads(self) -> bool {
        self.command matches Some(command) && command is Input
    }

    /// This device after a pass of its publisher's scheduler at `now`: the
    /// routines that were due are gone.
    pub open spec fn attempted(self, now: Timestamp) -> InputView {
        InputView {
            publisher: match self.publisher {
                Some(publisher) => Some(
                    PublisherView { routines: SchedRoutineHandler::pending(publisher.routines, now), ..publisher },
                ),
                None => None,
            },
            ..self
        }
    }

    /// The routines of this device's publisher that are due at `now`; none
    /// where it has no publisher.
    pub open spec fn due(self, now: Timestamp) -> Seq<Routine> {
        match self.publisher {
            Some(publisher) => SchedRoutineHandler::due(publisher.routines, now),
            None => Seq::empty(),
        }
    }
}

impl View for GenericInput {
    type V = InputView;

    closed spec fn view(&self) -> InputView {
        InputView {
            metadata: self.metadata,
            log: match self.log {
                Some(log) => Some(log@),
                None => None,
            },
            publisher: match self.publisher {
                Some(publisher) => Some(publisher@),
                None => None,
            },
            command: self.command,
        }
    }
}

impl Default for GenericInput {
    /// An unnamed input device with id 0, no kind, no log, no publisher and
    /// no command.
    fn default() -> (input: GenericInput)
        ensures
            input@.metadata.name@ == Seq::<char>::empty(),
            input@.metadata.id == 0,
            input@.metadata.kind == IOKind::Unassigned,
            input@.metadata.direction == IODirection::In,
            input@.log is None,
            input@.publisher is None,
            input@.command is None,
    {
        GenericInput {
            metadata: DeviceMetadata::new(String::new(), 0, IOKind::Unassigned, IODirection::In),
            log: None,
            publisher: None,
            command: None,
        }
    }
}

impl Device for GenericInput {
    open spec fn metadata(&self) -> DeviceMetadata {
        self@.metadata
    }

    fn get_metadata(&self) -> (metadata: &DeviceMetadata) {
        &self.metadata
    }

    fn name(&self) -> (name: String) {
        self.metadata.name.clone()
    }

    fn id(&self) -> (id: IdType) {
        self.metadata.id
    }
}

impl GenericInput {
    /// An input device without log, publisher or command, of kind
    /// `Unassigned` where no kind is given.
    pub fn new(name: &str, id: IdType, kind: Option<IOKind>) -> (input: GenericInput)
        ensures
            input@.metadata.name@ == name@,
            input@.metadata.id == id,
            input@.metadata.kind == (match kind {
                Some(kind) => kind,
                None => IOKind::Unassigned,
            }),
            input@.metadata.direction == IODirection::In,
            input@.log is None,
            input@.publisher is None,
            input@.command is None,
    {
        let kind = match kind {
            Some(kind) => kind,
            None => IOKind::default(),
        };
        GenericInput {
            metadata: DeviceMetadata::new(name.to_owned(), id, kind, IODirection::In),
            log: None,
            publisher: None,
            command: None,
        }
    }

    /// Gives the device its command. Only a command that reads will do: one
    /// that writes is refused with `CommandError`.
    pub fn add_command(self, command: IOCommand) -> (r: Result<GenericInput, ErrorType>)
        ensures
            r is Ok <==> command.direction() == IODirection::In,
            r matches Ok(input) ==> input@ == (InputView { command: Some(command), ..self@ }),
            r matches Err(e) ==> e.kind == ErrorKind::CommandError,
    {
        match command.agrees(IODirection::In) {
            Ok(_) => Ok(
                GenericInput {
                    metadata: self.metadata,
                    log: self.log,
                    publisher: self.publisher,
                    command: Some(command),
                },
            ),
            Err(e) => Err(e),
        }
    }

    /// Gives the device `log` for its log, in place of the one it had.
    pub fn set_log(&mut self, log: Log)
        ensures
            final(self)@ == (InputView { log: Some(log@), ..old(self)@ }),
    {
        self.log = Some(log);
    }

    /// Gives the device an empty log of its own, in place of the one it had.
    pub fn init_log(self) -> (input: GenericInput)
        ensures
            input@ == (InputView {
                log: Some(LogView { id: self@.metadata.id, root: None, events: Seq::empty() }),
                ..self@
            }),
    {
        let log = Log::new(self.metadata.id, None);
        GenericInput { metadata: self.metadata, log: Some(log), publisher: self.publisher, command: self.command }
    }

    pub fn log(&self) -> (log: Option<&Log>)
        ensures
            log is Some <==> self@.log is Some,
            log matches Some(log) ==> log@ == self@.log.unwrap(),
    {
        self.log.as_ref()
    }

    pub fn has_log(&self) -> (has: bool)
        ensures
            has == self@.log is Some,
    {
        self.log.is_some()
    }

    /// Hands the log of the device events that were read back from a file:
    /// see [`Log::load`]. A device without a log gives `ContainerError`, a
    /// log that holds events `ContainerNotEmpty`, and the device stays as it
    /// is.
    pub fn load_log(&mut self, events: Vec<IOEvent>) -> (r: Result<(), ErrorType>)
        ensures
            match old(self)@.log {
                Some(log) => if log.events.len() == 0 {
                    r is Ok && final(self)@ == (InputView { log: Some(LogView { events: events@, ..log }), ..old(self)@ })
                } else {
                    r matches Err(e) && e.kind == ErrorKind::ContainerNotEmpty && final(self)@ == old(self)@
                },
                None => r matches Err(e) && e.kind == ErrorKind::ContainerError && final(self)@ == old(self)@,
            },
    {
        match &mut self.log {
            Some(log) => log.load(events),
            None => Err(Error::new(ErrorKind::ContainerError, "device has no log")),
        }
    }

    /// Sets the directory under which the log of the device is kept. A
    /// device without a log stays as it is.
    pub fn set_root(&mut self, root: RootPath)
        ensures
            final(self)@ == old(self)@.rooted(root),
    {
        match &mut self.log {
            Some(log) => log.set_root(root),
            None => {},
        }
    }

    /// What `rx` makes of the result of the command: the event of the value
    /// that was read, stamped `now`; `CommandError` where the command
    /// returned no value; the command's error where it failed.
    pub fn received(&self, now: Timestamp, outcome: Result<Option<RawValue>, ErrorType>) -> (r: Result<
        IOEvent,
        ErrorType,
    >)
        ensures
            match outcome {
                Ok(Some(value)) => r == Ok::<IOEvent, ErrorType>(IOEvent::of(self@.metadata, now, value)),
                Ok(None) => r matches Err(e) && e.kind == ErrorKind::CommandError,
                Err(e) => r == Err::<IOEvent, ErrorType>(e),
            },
    {
        match outcome {
            Ok(Some(value)) => Ok(IOEvent::create(&self.metadata, now, value)),
            Ok(None) => Err(Error::new(ErrorKind::CommandError, "command returned no value")),
            Err(e) => Err(e),
        }
    }

    /// Runs the command of the device, and gives the event of that reading,
    /// stamped `now`. Without a command the device fails with
    /// `CommandError`; with a command that reads it succeeds.
    pub fn rx_at(&self, now: Timestamp) -> (r: Result<IOEvent, ErrorType>)
        ensures
            r matches Ok(event) ==> (exists|value: RawValue| event == IOEvent::of(self@.metadata, now, value))
                && self@.command is Some,
            self@.command is None ==> (r matches Err(e) && e.kind == ErrorKind::CommandError),
            self@.reads() ==> r is Ok,
    {
        match &self.command {
            Some(command) => {
                let outcome = command.execute(None);
                self.received(now, outcome)
            },
            None => Err(no_internal_closure()),
        }
    }

    /// Runs the command of the device, and gives the event of that reading,
    /// stamped with the time on the system clock. Without a command the
    /// device fails with `CommandError`. Where the clock cannot be read, it
    /// fails with `ClockError` and the command is not run; with a command
    /// that reads, nothing else makes it fail.
    pub fn rx(&self) -> (r: Result<IOEvent, ErrorType>)
        ensures
            r matches Ok(event) ==> (exists|now: Timestamp, value: RawValue|
                now.on_clock() && event == IOEvent::of(self@.metadata, now, value)) && self@.command is Some,
            self@.command is None ==> (r matches Err(e) && e.kind == ErrorKind::CommandError),
            self@.reads() ==> (r matches Err(e) ==> e.kind == ErrorKind::ClockError),
    {
        if self.command.is_none() {
            return Err(no_internal_closure());
        }
        match Timestamp::now() {
            Some(now) => {
                let r = self.rx_at(now);
                proof {
                    if r is Ok {
                        let value = choose|value: RawValue| r->Ok_0 == IOEvent::of(self@.metadata, now, value);
                        assert(now.on_clock() && r->Ok_0 == IOEvent::of(self@.metadata, now, value));
                    }
                }
                r
            },
            None => Err(clock_unreadable()),
        }
    }

    /// Shows `event` to the evaluators of the device's publisher, in the
    /// order in which they subscribed. Without a publisher nothing happens.
    pub fn propagate(&mut self, event: &IOEvent)
        ensures
            InputView::propagated(old(self)@.publisher, *event, final(self)@.publisher),
            final(self)@.metadata == old(self)@.metadata,
            final(self)@.log == old(self)@.log,
            final(self)@.command == old(self)@.command,
    {
        match &mut self.publisher {
            Some(publisher) => publisher.propagate(event),
            None => {},
        }
    }

    /// What `read` makes of the result of `rx`: a reading is shown to the
    /// publisher and recorded in the log; where there is none, the device
    /// stays as it is.
    pub fn taken(&mut self, received: Result<IOEvent, ErrorType>) -> (r: Result<IOEvent, ErrorType>)
        requires
            old(self)@.log is Some,
        ensures
            r == received,
            match received {
                Ok(event) => old(self)@.took(event, final(self)@),
                Err(_) => final(self)@ == old(self)@,
            },
    {
        match received {
            Ok(event) => {
                self.propagate(&event);
                match &mut self.log {
                    Some(log) => log.push(event),
                    None => {},
                }
                Ok(event)
            },
            Err(e) => Err(e),
        }
    }

    /// Reads the device at `now`: runs the command, shows the reading to the
    /// publisher, and records it in the log.
    ///
    /// A device without a log fails with `ContainerError` and one without a
    /// command with `CommandError`, both before anything is read. Where the
    /// command fails, its error is returned. In every case of failure the
    /// device stays as it is.
    pub fn read_at(&mut self, now: Timestamp) -> (r: Result<IOEvent, ErrorType>)
        ensures
            old(self)@.read(now, r, final(self)@),
    {
        if self.log.is_none() {
            return Err(Error::new(ErrorKind::ContainerError, "input device has no log"));
        }
        let received = self.rx_at(now);
        self.taken(received)
    }

    /// Reads the device, at the time on the system clock: [`Self::read_at`]
    /// at the time that the clock gave.
    ///
    /// A device without a log gives `ContainerError` and one without a
    /// command `CommandError`, whatever the clock says. Where the clock
    /// cannot be read, the result is `ClockError`, the device is not read
    /// and stays as it is.
    pub fn read(&mut self) -> (r: Result<IOEvent, ErrorType>)
        ensures
            old(self)@.log is None ==> (r matches Err(e) && e.kind == ErrorKind::ContainerError),
            old(self)@.log is Some && old(self)@.command is None ==> (r matches Err(e) && e.kind
                == ErrorKind::CommandError),
            (r matches Err(e) && e.kind == ErrorKind::ClockError && final(self)@ == old(self)@) || (exists|
                now: Timestamp,
            | now.on_clock() && old(self)@.read(now, r, final(self)@)),
    {
        if self.log.is_none() || self.command.is_none() {
            // the device fails by itself, at whatever time
            let epoch = Timestamp { nanos: 0 };
            let r = self.read_at(epoch);
            proof {
                assert(epoch.on_clock() && old(self)@.read(epoch, r, self@));
            }
            return r;
        }
        match Timestamp::now() {
            Some(now) => self.read_at(now),
            None => Err(clock_unreadable()),
        }
    }

    /// Runs the routines of the device's publisher that are due at `now`,
    /// removes them, and records their effects in `log`: see
    /// [`Publisher::attempt_routines_at`]. Without a publisher nothing
    /// happens.
    pub fn attempt_routines_at<C: Chronicle>(&mut self, now: Timestamp, log: &mut C) -> (results: Vec<
        Result<IOEvent, ErrorType>,
    >)
        ensures
            final(self)@ == old(self)@.attempted(now),
            results@.len() == old(self)@.due(now).len(),
            forall|k: int|
                0 <= k < results@.len() ==> (#[trigger] results@[k] matches Ok(event) ==> event == old(self)@.due(
                    now,
                )[k].effect(now)),
            final(log)@ == crate::storage::chronicle::after_all::<C>(old(log)@, results@),
    {
        match &mut self.publisher {
            Some(publisher) => publisher.attempt_routines_at(now, log),
            None => Vec::new(),
        }
    }

    /// Gives the device a publisher without evaluators, unless it has a
    /// publisher already: that one stays.
    pub fn init_publisher(&mut self) -> (input: &mut Self)
        ensures
            input@ == (InputView {
                publisher: match old(self)@.publisher {
                    Some(publisher) => Some(publisher),
                    None => Some(PublisherView { actions: Seq::empty(), routines: Seq::empty() }),
                },
                ..old(self)@
            }),
            *final(self) == *final(input),
    {
        if self.publisher.is_none() {
            self.publisher = Some(Publisher::default());
        }
        self
    }

    /// Lends the device's publisher, for subscribing evaluators and for
    /// running its routines.
    pub fn publisher_mut(&mut self) -> (publisher: &mut Option<Publisher>)
        ensures
            Self::seen(*publisher) == old(self)@.publisher,
            final(self)@ == (InputView { publisher: Self::seen(*final(publisher)), ..old(self)@ }),
    {
        &mut self.publisher
    }

    /// What the publisher `publisher`, if there is one, holds.
    pub open spec fn seen(publisher: Option<Publisher>) -> Option<PublisherView> {
        match publisher {
            Some(publisher) => Some(publisher@),
            None => None,
        }
    }

    pub fn publisher(&self) -> (publisher: &Option<Publisher>)
        ensures
            Self::seen(*publisher) == self@.publisher,
    {
        &self.publisher
    }

    pub fn has_publisher(&self) -> (has: bool)
        ensures
            has == self@.publisher is Some,
    {
        match self.publisher {
            Some(_) => true,
            None => false,
        }
    }
}

} // verus!
