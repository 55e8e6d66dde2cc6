use vstd::prelude::*;

use crate::errors::{Error, ErrorKind, ErrorType};
use crate::helpers::arc_clone;
use crate::io::dev::output::{Output, OutputView};
use crate::io::event::IOEvent;
use crate::io::input::{GenericInput, InputView};
use crate::io::metadata::IdType;
use crate::storage::chronicle::Chronicle;
use crate::storage::log::{LogView, RootPath};

verus! {

/// A device in a container, under the id by which it is found.
pub struct Entry<D> {
    pub id: IdType,
    pub device: D,
}

/// Devices, each under an id of its own, in the order in which they were
/// inserted.
///
/// No id occurs twice: [`DeviceContainer::insert`] refuses an id that is
/// taken, and nothing else adds an entry or changes an id.
///
/// The devices stand in a row and not in a hash map, because they are walked
/// and changed in place: a poll reads them in the order of insertion, so that
/// each result can be told by its place, and the order in which a hash map is
/// walked is not fixed.
pub struct DeviceContainer<D> {
    entries: Vec<Entry<D>>,
}

impl<D: View> View for DeviceContainer<D> {
    type V = Seq<Entry<D::V>>;

    closed spec fn view(&self) -> Seq<Entry<D::V>> {
        Seq::new(self.entries@.len(), |i: int| Entry { id: self.entries@[i].id, device: self.entries@[i].device@ })
    }
}

/// Whether some entry of `entries` has the id `id`.
pub open spec fn has_id<V>(entries: Seq<Entry<V>>, id: IdType) -> bool {
    exists|i: int| 0 <= i < entries.len() && #[trigger] entries[i].id == id
}

/// Whether `index` is the place of the first entry of `entries` with the id
/// `id`.
pub open spec fn is_place_of<V>(entries: Seq<Entry<V>>, id: IdType, index: int) -> bool {
    &&& 0 <= index < entries.len()
    &&& entries[index].id == id
    &&& forall|k: int| 0 <= k < index ==> entries[k].id != id
}

/// Whether no id occurs twice in `entries`.
pub open spec fn distinct_ids<V>(entries: Seq<Entry<V>>) -> bool {
    forall|i: int, j: int| 0 <= i < j < entries.len() ==> entries[i].id != entries[j].id
}

impl<D: View> Default for DeviceContainer<D> {
    fn default() -> (container: Self)
        ensures
            container@ == Seq::<Entry<D::V>>::empty(),
    {
        DeviceContainer { entries: Vec::new() }
    }
}

impl<D: View> DeviceContainer<D> {
    pub fn len(&self) -> (n: usize)
        ensures
            n == self@.len(),
    {
        self.entries.len()
    }

    /// The place of the entry with the id `id`, if there is one.
    pub fn position(&self, id: IdType) -> (place: Option<usize>)
        ensures
            match place {
                Some(index) => is_place_of(self@, id, index as int),
                None => !has_id(self@, id),
            },
    {
        let mut index: usize = 0;
        while index < self.entries.len()
            invariant
                index <= self.entries@.len(),
                self@.len() == self.entries@.len(),
                forall|k: int| 0 <= k < index ==> self@[k].id != id,
            decreases self.entries@.len() - index,
        {
            if self.entries[index].id == id {
                return Some(index);
            }
            index = index + 1;
        }
        None
    }

    /// Puts `device` into the container under `id`, behind the devices that
    /// it holds. An id that is taken gives `ContainerError`, and the
    /// container stays as it is.
    pub fn insert(&mut self, id: IdType, device: D) -> (r: Result<(), ErrorType>)
        ensures
            r is Ok <==> !has_id(old(self)@, id),
            r is Ok ==> final(self)@ == old(self)@.push(Entry { id, device: device@ }),
            r matches Err(e) ==> e.kind == ErrorKind::ContainerError && final(self)@ == old(self)@,
            distinct_ids(old(self)@) ==> distinct_ids(final(self)@),
    {
        match self.position(id) {
            Some(_) => Err(Error::new(ErrorKind::ContainerError, "Device entry already exists")),
            None => {
                self.entries.push(Entry { id, device });
                Ok(())
            },
        }
    }

    /// The device under the id `k`, if there is one.
    pub fn get(&self, k: &IdType) -> (device: Option<&D>)
        ensures
            device is Some <==> has_id(self@, *k),
            device matches Some(device) ==> exists|index: int|
                is_place_of(self@, *k, index) && device@ == self@[index].device,
    {
        match self.position(*k) {
            Some(index) => {
                Some(&self.entries[index].device)
            },
            None => None,
        }
    }

    /// The id of the entry at `index`.
    pub fn id_at(&self, index: usize) -> (id: IdType)
        requires
            index < self@.len(),
        ensures
            id == self@[index as int].id,
    {
        self.entries[index].id
    }

    /// The device of the entry at `index`.
    pub fn device_at(&self, index: usize) -> (device: &D)
        requires
            index < self@.len(),
        ensures
            device@ == self@[index as int].device,
    {
        &self.entries[index].device
    }

    /// Lends the device of the entry at `index`, to be changed in place. Its
    /// id in the container stays.
    pub fn device_mut(&mut self, index: usize) -> (device: &mut D)
        requires
            index < old(self)@.len(),
        ensures
            device@ == old(self)@[index as int].device,
            final(self)@ == old(self)@.update(
                index as int,
                Entry { id: old(self)@[index as int].id, device: final(device)@ },
            ),
    {
        &mut self.entries[index].device
    }

    /// The devices, in the order in which they were inserted.
    pub fn values(&self) -> (devices: Vec<&D>)
        ensures
            devices@.len() == self@.len(),
            forall|i: int| 0 <= i < devices@.len() ==> (#[trigger] devices@[i])@ == self@[i].device,
    {
        let mut devices: Vec<&D> = Vec::new();
        let mut index: usize = 0;
        while index < self.entries.len()
            invariant
                index <= self.entries@.len(),
                self@.len() == self.entries@.len(),
                devices@.len() == index,
                forall|i: int| 0 <= i < devices@.len() ==> (#[trigger] devices@[i])@ == self@[i].device,
            decreases self.entries@.len() - index,
        {
            devices.push(&self.entries[index].device);
            index = index + 1;
        }
        devices
    }

    /// The entries, in the order in which they were inserted.
    pub fn iter(&self) -> (entries: &[Entry<D>])
        ensures
            entries@.len() == self@.len(),
            forall|i: int|
                0 <= i < entries@.len() ==> (#[trigger] entries@[i]).id == self@[i].id && entries@[i].device@
                    == self@[i].device,
    {
        self.entries.as_slice()
    }
}

impl DeviceContainer<GenericInput> {
    /// Sets the directory under which the logs of all the devices are kept.
    pub fn set_root(&mut self, root: RootPath)
        ensures
            final(self)@.len() == old(self)@.len(),
            forall|i: int|
                0 <= i < old(self)@.len() ==> #[trigger] final(self)@[i] == (Entry {
                    id: old(self)@[i].id,
                    device: old(self)@[i].device.rooted(root),
                }),
    {
        let count: usize = self.len();
        let mut index: usize = 0;
        while index < count
            invariant
                index <= count,
                count == old(self)@.len(),
                self@.len() == old(self)@.len(),
                forall|i: int|
                    0 <= i < index ==> #[trigger] self@[i] == (Entry {
                        id: old(self)@[i].id,
                        device: old(self)@[i].device.rooted(root),
                    }),
                forall|i: int| index <= i < self@.len() ==> #[trigger] self@[i] == old(self)@[i],
            decreases count - index,
        {
            let device = self.device_mut(index);
            device.set_root(arc_clone(&root));
            index = index + 1;
        }
    }
}

impl DeviceContainer<Output> {
    /// Sets the directory under which the logs of all the devices are kept.
    pub fn set_root(&mut self, root: RootPath)
        ensures
            final(self)@.len() == old(self)@.len(),
            forall|i: int|
                0 <= i < old(self)@.len() ==> #[trigger] final(self)@[i] == (Entry {
                    id: old(self)@[i].id,
                    device: old(self)@[i].device.rooted(root),
                }),
    {
        let count: usize = self.len();
        let mut index: usize = 0;
        while index < count
            invariant
                index <= count,
                count == old(self)@.len(),
                self@.len() == old(self)@.len(),
                forall|i: int|
                    0 <= i < index ==> #[trigger] self@[i] == (Entry {
                        id: old(self)@[i].id,
                        device: old(self)@[i].device.rooted(root),
                    }),
                forall|i: int| index <= i < self@.len() ==> #[trigger] self@[i] == old(self)@[i],
            decreases count - index,
        {
            let device = self.device_mut(index);
            device.set_root(arc_clone(&root));
            index = index + 1;
        }
    }
}

impl Chronicle for DeviceContainer<Output> {
    /// Some device takes `event` into its log: the device under the id of
    /// the event is there, and it has a log.
    open spec fn takes(chronicle: Seq<Entry<OutputView>>, event: IOEvent) -> bool {
        exists|index: int|
            is_place_of(chronicle, event.id, index) && (#[trigger] chronicle[index]).device.log is Some
    }

    /// The devices after `event` has taken place on the device that takes
    /// it: see [`OutputView::after`]. The other devices are as they were.
    open spec fn after(chronicle: Seq<Entry<OutputView>>, event: IOEvent) -> Seq<Entry<OutputView>> {
        Seq::new(
            chronicle.len(),
            |i: int|
                if is_place_of(chronicle, event.id, i) && chronicle[i].device.log is Some {
                    Entry { id: chronicle[i].id, device: chronicle[i].device.after(event) }
                } else {
                    chronicle[i]
                },
        )
    }

    /// Records `event` on the device that stands in the container under the
    /// id of the event: the value of the event becomes the state of the
    /// device, and the event the last in its log. Where there is no such
    /// device, or it has no log, the result is `ContainerError` and nothing
    /// changes.
    fn record(&mut self, event: IOEvent) -> (r: Result<(), ErrorType>)
        ensures
            r matches Err(e) ==> e.kind == ErrorKind::ContainerError,
    {
        match self.position(event.id) {
            Some(index) => {
                let device = self.device_mut(index);
                if device.has_log() {
                    let _ = device.written(Ok(event));
                    assert(self@ =~= Self::after(old(self)@, event));
                    Ok(())
                } else {
                    assert(self@ =~= old(self)@);
                    Err(Error::new(ErrorKind::ContainerError, "the output device under the id of the event has no log"))
                }
            },
            None => Err(Error::new(ErrorKind::ContainerError, "no output device under the id of the event")),
        }
    }
}

} // verus!
