use std::sync::Arc;
use vstd::prelude::*;

use crate::errors::{Error, ErrorKind, ErrorType};
use crate::helpers::arc_clone;
use crate::io::event::IOEvent;
use crate::io::metadata::IdType;
use crate::storage::chronicle::Chronicle;

verus! {

/// The directory under which logs and groups keep their files.
pub type RootPath = Arc<String>;

/// The events of one device, in the order in which they were recorded.
///
/// A log only grows. Writing it to a file and reading it back are left to
/// the caller; the log says by [`Log::check_save`] and [`Log::load`] when
/// either is in order.
pub struct Log {
    id: IdType,
    root: Option<RootPath>,
    events: Vec<IOEvent>,
}

/// What a log holds.
pub struct LogView {
    /// The device whose events the log holds.
    pub id: IdType,
    /// The directory under which the log is kept, if one is set.
    pub root: Option<RootPath>,
    /// The events, oldest first.
    pub events: Seq<IOEvent>,
}

impl View for Log {
    type V = LogView;

    closed spec fn view(&self) -> LogView {
        LogView { id: self.id, root: self.root, events: self.events@ }
    }
}

impl Log {
    /// An empty log for the device `id`.
    pub fn new(id: IdType, root: Option<RootPath>) -> (log: Log)
        ensures
            log@ == (LogView { id, root, events: Seq::empty() }),
    {
        Log { id, root, events: Vec::new() }
    }

    pub fn id(&self) -> (id: IdType)
        ensures
            id == self@.id,
    {
        self.id
    }

    pub fn root_path(&self) -> (root: Option<RootPath>)
        ensures
            root == self@.root,
    {
        match &self.root {
            Some(root) => Some(arc_clone(root)),
            None => None,
        }
    }

    pub fn set_root(&mut self, root: RootPath)
        ensures
            final(self)@ == (LogView { root: Some(root), ..old(self)@ }),
    {
        self.root = Some(root);
    }

    /// Records an event behind those that the log holds.
    pub fn push(&mut self, event: IOEvent)
        ensures
            final(self)@ == (LogView { events: old(self)@.events.push(event), ..old(self)@ }),
    {
        self.events.push(event);
    }

    pub fn len(&self) -> (n: usize)
        ensures
            n == self@.events.len(),
    {
        self.events.len()
    }

    pub fn is_empty(&self) -> (empty: bool)
        ensures
            empty == (self@.events.len() == 0),
    {
        self.events.len() == 0
    }

    /// The events, oldest first.
    pub fn events(&self) -> (events: &[IOEvent])
        ensures
            events@ == self@.events,
    {
        self.events.as_slice()
    }

    /// Whether the log may be written out: only a log that holds something
    /// is. An empty log gives `ContainerEmpty`.
    pub fn check_save(&self) -> (r: Result<(), ErrorType>)
        ensures
            r is Ok <==> self@.events.len() > 0,
            r matches Err(e) ==> e.kind == ErrorKind::ContainerEmpty,
    {
        if self.events.len() == 0 {
            Err(Error::new(ErrorKind::ContainerEmpty, "log is empty: nothing to save"))
        } else {
            Ok(())
        }
    }

    /// Whether the log may take over events that were read back from a
    /// file: only an empty log may. A log that holds events gives
    /// `ContainerNotEmpty`.
    pub fn check_load(&self) -> (r: Result<(), ErrorType>)
        ensures
            r is Ok <==> self@.events.len() == 0,
            r matches Err(e) ==> e.kind == ErrorKind::ContainerNotEmpty,
    {
        if self.events.len() == 0 {
            Ok(())
        } else {
            Err(Error::new(ErrorKind::ContainerNotEmpty, "cannot load events into a log that holds events"))
        }
    }

    /// Takes over events that were read back from a file. Only an empty log
    /// takes them; a log that holds events already gives `ContainerNotEmpty`
    /// and stays as it is.
    pub fn load(&mut self, events: Vec<IOEvent>) -> (r: Result<(), ErrorType>)
        ensures
            r is Ok <==> old(self)@.events.len() == 0,
            r is Ok ==> final(self)@ == (LogView { events: events@, ..old(self)@ }),
            r matches Err(e) ==> e.kind == ErrorKind::ContainerNotEmpty && final(self)@ == old(self)@,
    {
        if self.events.len() == 0 {
            self.events = events;
            Ok(())
        } else {
            Err(Error::new(ErrorKind::ContainerNotEmpty, "cannot load events into a log that holds events"))
        }
    }
}

impl Chronicle for Log {
    /// A log takes the events of its own device.
    open spec fn takes(chronicle: LogView, event: IOEvent) -> bool {
        event.id == chronicle.id
    }

    open spec fn after(chronicle: LogView, event: IOEvent) -> LogView {
        LogView { events: chronicle.events.push(event), ..chronicle }
    }

    /// Records an event of the log's own device behind those that the log
    /// holds. An event of another device gives `ContainerError`.
    fn record(&mut self, event: IOEvent) -> (r: Result<(), ErrorType>)
        ensures
            r matches Err(e) ==> e.kind == ErrorKind::ContainerError,
    {
        if event.id == self.id {
            self.events.push(event);
            Ok(())
        } else {
            Err(Error::new(ErrorKind::ContainerError, "the event belongs to another device"))
        }
    }
}

} // verus!
