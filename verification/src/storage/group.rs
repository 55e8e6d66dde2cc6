use vstd::prelude::*;

use crate::action::routine::Routine;
use crate::device::Device;
use crate::errors::{clock_unreadable, ErrorKind, ErrorType};
use crate::helpers::arc_clone;
use crate::io::dev::container::{DeviceContainer, Entry};
use crate::io::dev::output::{Output, OutputView};
use crate::io::event::IOEvent;
use crate::io::input::{Input, InputView};
use crate::io::metadata::IdType;
use crate::settings::DATA_ROOT;
use crate::storage::log::RootPath;
use crate::time::{Span, Timestamp};

verus! {

/// Input and output devices that are polled together.
///
/// [`Group::poll`] reads every input device, and is to be called at the pace
/// of the group's interval: a call before the interval has passed does
/// nothing. [`Group::attempt_routines`] runs the routines that the readings
/// have caused, and is to be called as often as possible, since a routine
/// runs in the first pass after its time has come.
pub struct Group {
    name: String,
    last_execution: Timestamp,
    root: Option<RootPath>,
    interval: Span,
    pub inputs: DeviceContainer<Input>,
    pub outputs: DeviceContainer<Output>,
}

/// What a group holds.
pub struct GroupView {
    /// The name of the group, which is also the name of its directory.
    pub name: String,
    /// The time for which the last poll stood.
    pub last_execution: Timestamp,
    /// The directory under which the group keeps its own, if one is set.
    pub root: Option<RootPath>,
    /// The time from one poll to the next.
    pub interval: Span,
    /// The input devices, in the order in which they are polled.
    pub inputs: Seq<Entry<InputView>>,
    /// The output devices.
    pub outputs: Seq<Entry<OutputView>>,
}

impl View for Group {
    type V = GroupView;

    closed spec fn view(&self) -> GroupView {
        GroupView {
            name: self.name,
            last_execution: self.last_execution,
            root: self.root,
            interval: self.interval,
            inputs: self.inputs@,
            outputs: self.outputs@,
        }
    }
}

impl Group {
    /// The interval of a new group: five seconds.
    pub open spec fn default_interval() -> Span {
        Span { nanos: 5_000_000_000 }
    }

    /// Whether `after` and `results` are what a poll at `now` may make of
    /// the devices `before`: every device has been read once, in the order
    /// of the container, and the result of each read stands in its place.
    pub open spec fn polled(
        before: Seq<Entry<InputView>>,
        now: Timestamp,
        results: Seq<Result<IOEvent, ErrorType>>,
        after: Seq<Entry<InputView>>,
    ) -> bool {
        &&& after.len() == before.len()
        &&& results.len() == before.len()
        &&& forall|i: int|
            0 <= i < before.len() ==> (#[trigger] after[i]).id == before[i].id && before[i].device.read(
                now,
                results[i],
                after[i].device,
            )
    }

    /// The routines of the devices `inputs` that are due at `now`: those of
    /// the first device in their order, then those of the second, and so on.
    pub open spec fn all_due(inputs: Seq<Entry<InputView>>, now: Timestamp) -> Seq<Routine>
        decreases inputs.len(),
    {
        if inputs.len() == 0 {
            Seq::empty()
        } else {
            Self::all_due(inputs.drop_last(), now) + inputs.last().device.due(now)
        }
    }

    /// The devices `inputs` after a pass at `now` over the scheduler of each.
    pub open spec fn all_attempted(inputs: Seq<Entry<InputView>>, now: Timestamp) -> Seq<Entry<InputView>> {
        Seq::new(inputs.len(), |i: int| Entry { id: inputs[i].id, device: inputs[i].device.attempted(now) })
    }

    /// A group without devices and without a directory, with an interval of
    /// five seconds, whose first poll is due at `now`.
    pub fn new_at(name: &str, now: Timestamp) -> (group: Group)
        ensures
            group@.name@ == name@,
            group@.last_execution == now.minus(Self::default_interval()),
            group@.root is None,
            group@.interval == Self::default_interval(),
            group@.inputs == Seq::<Entry<InputView>>::empty(),
            group@.outputs == Seq::<Entry<OutputView>>::empty(),
    {
        let interval = Span::seconds(5);
        Group {
            name: name.to_owned(),
            last_execution: now.minus(interval),
            root: None,
            interval,
            inputs: DeviceContainer::default(),
            outputs: DeviceContainer::default(),
        }
    }

    /// A group without devices and without a directory, with an interval of
    /// five seconds, whose first poll is due at the time on the system clock.
    /// Where the clock cannot be read, the result is `ClockError`.
    pub fn new(name: &str) -> (r: Result<Group, ErrorType>)
        ensures
            match r {
                Ok(group) => {
                    &&& group@.name@ == name@
                    &&& exists|now: Timestamp|
                        now.on_clock() && group@.last_execution == now.minus(Self::default_interval())
                    &&& group@.root is None
                    &&& group@.interval == Self::default_interval()
                    &&& group@.inputs == Seq::<Entry<InputView>>::empty()
                    &&& group@.outputs == Seq::<Entry<OutputView>>::empty()
                },
                Err(e) => e.kind == ErrorKind::ClockError,
            },
    {
        match Timestamp::now() {
            Some(now) => Ok(Group::new_at(name, now)),
            None => Err(clock_unreadable()),
        }
    }

    /// A new group that keeps its own under `root`. Where the clock cannot
    /// be read, the result is `ClockError`.
    pub fn with_root(name: &str, root: RootPath) -> (r: Result<Group, ErrorType>)
        ensures
            match r {
                Ok(group) => {
                    &&& group@.name@ == name@
                    &&& exists|now: Timestamp|
                        now.on_clock() && group@.last_execution == now.minus(Self::default_interval())
                    &&& group@.root == Some(root)
                    &&& group@.interval == Self::default_interval()
                    &&& group@.inputs == Seq::<Entry<InputView>>::empty()
                    &&& group@.outputs == Seq::<Entry<OutputView>>::empty()
                },
                Err(e) => e.kind == ErrorKind::ClockError,
            },
    {
        match Group::new(name) {
            Ok(group) => {
                let mut group = group;
                group.set_root_ref(root);
                Ok(group)
            },
            Err(e) => Err(e),
        }
    }

    /// A new group that is polled every `interval`. Where the clock cannot
    /// be read, the result is `ClockError`.
    pub fn with_interval(name: &str, interval: Span) -> (r: Result<Group, ErrorType>)
        ensures
            match r {
                Ok(group) => {
                    &&& group@.name@ == name@
                    &&& exists|now: Timestamp|
                        now.on_clock() && group@.last_execution == now.minus(Self::default_interval())
                    &&& group@.root is None
                    &&& group@.interval == interval
                    &&& group@.inputs == Seq::<Entry<InputView>>::empty()
                    &&& group@.outputs == Seq::<Entry<OutputView>>::empty()
                },
                Err(e) => e.kind == ErrorKind::ClockError,
            },
    {
        match Group::new(name) {
            Ok(group) => {
                let mut group = group;
                group.set_interval(interval);
                Ok(group)
            },
            Err(e) => Err(e),
        }
    }

    /// Reads every input device, if the interval has passed since the time
    /// for which the last poll stood.
    ///
    /// A poll that comes too early gives `Err` and changes nothing.
    /// Otherwise every input device is read at `now`, in the order of the
    /// container; a read that fails does not stop the others, and its error
    /// stands in the results. The poll then stands for the time at which it
    /// was due, so that polls keep their pace.
    pub fn poll_at(&mut self, now: Timestamp) -> (r: Result<Vec<Result<IOEvent, ErrorType>>, ()>)
        ensures
            r is Ok <==> now.reached(old(self)@.last_execution.plus(old(self)@.interval)),
            match r {
                Ok(results) => {
                    &&& final(self)@ == (GroupView {
                        last_execution: old(self)@.last_execution.plus(old(self)@.interval),
                        inputs: final(self)@.inputs,
                        ..old(self)@
                    })
                    &&& Self::polled(old(self)@.inputs, now, results@, final(self)@.inputs)
                },
                Err(_) => final(self)@ == old(self)@,
            },
    {
        let next_execution = self.last_execution.plus(self.interval);
        if now.reached(next_execution) {
            let mut results: Vec<Result<IOEvent, ErrorType>> = Vec::new();
            let count: usize = self.inputs.len();
            let mut index: usize = 0;
            while index < count
                invariant
                    index <= count,
                    count == old(self)@.inputs.len(),
                    self.inputs@.len() == count,
                    results@.len() == index,
                    self@ == (GroupView { inputs: self@.inputs, ..old(self)@ }),
                    self.inputs@ == self@.inputs,
                    forall|i: int|
                        0 <= i < index ==> (#[trigger] self.inputs@[i]).id == old(self)@.inputs[i].id && old(
                            self,
                        )@.inputs[i].device.read(now, results@[i], self.inputs@[i].device),
                    forall|i: int| index <= i < count ==> #[trigger] self.inputs@[i] == old(self)@.inputs[i],
                decreases count - index,
            {
                let device = self.inputs.device_mut(index);
                let result = device.read_at(now);
                results.push(result);
                index = index + 1;
            }
            self.last_execution = next_execution;
            Ok(results)
        } else {
            Err(())
        }
    }

    /// Whether `r` and `after` are what a poll at `now` may make of a group
    /// in the state `before`: see [`Self::poll_at`].
    ///
    /// The poll succeeds if and only if `now` has reached the time at which
    /// it is due, which is the time for which the last poll stood plus the
    /// interval. A poll that succeeds stands for that time and has read every
    /// input device at `now`. A poll that comes too early changes nothing.
    pub open spec fn polled_at(
        before: GroupView,
        now: Timestamp,
        r: Result<Vec<Result<IOEvent, ErrorType>>, ()>,
        after: GroupView,
    ) -> bool {
        &&& r is Ok <==> now.reached(before.last_execution.plus(before.interval))
        &&& match r {
            Ok(results) => {
                &&& after == (GroupView {
                    last_execution: before.last_execution.plus(before.interval),
                    inputs: after.inputs,
                    ..before
                })
                &&& Self::polled(before.inputs, now, results@, after.inputs)
            },
            Err(_) => after == before,
        }
    }

    /// Reads every input device, if the interval has passed by the system
    /// clock: [`Self::poll_at`] at the time that the clock gave.
    ///
    /// Whether the poll is due is for the clock to say, and where the clock
    /// cannot be read, the poll fails as one that comes too early. A poll
    /// that is due after the last time that the clock can give fails
    /// whatever the clock says.
    pub fn poll(&mut self) -> (r: Result<Vec<Result<IOEvent, ErrorType>>, ()>)
        ensures
            match r {
                Ok(_) => exists|now: Timestamp| now.on_clock() && Self::polled_at(old(self)@, now, r, final(self)@),
                Err(_) => final(self)@ == old(self)@,
            },
            old(self)@.last_execution.plus(old(self)@.interval)@ > i64::MAX * 1_000_000_000 + u32::MAX ==> r is Err,
    {
        match Timestamp::now() {
            Some(now) => self.poll_at(now),
            None => Err(()),
        }
    }

    /// Whether the group holds an input device under `id`.
    pub fn has_input(&self, id: IdType) -> (has: bool)
        ensures
            has == crate::io::dev::container::has_id(self@.inputs, id),
    {
        self.inputs.position(id).is_some()
    }

    /// Whether the group holds an output device under `id`.
    pub fn has_output(&self, id: IdType) -> (has: bool)
        ensures
            has == crate::io::dev::container::has_id(self@.outputs, id),
    {
        self.outputs.position(id).is_some()
    }

    /// Adds an input device under its own id, which no input device of the
    /// group has yet, and hands the group back for the next call. Where the
    /// group keeps its own under a directory, so does the log of the device
    /// from now on.
    pub fn push_input(&mut self, device: Input) -> (group: &mut Self)
        requires
            !crate::io::dev::container::has_id(old(self)@.inputs, device@.metadata.id),
        ensures
            *final(self) == *final(group),
            group@ == (GroupView {
                inputs: old(self)@.inputs.push(
                    Entry {
                        id: device@.metadata.id,
                        device: match old(self)@.root {
                            Some(root) => device@.rooted(root),
                            None => device@,
                        },
                    },
                ),
                ..old(self)@
            }),
    {
        let id = device.id();
        let mut device = device;
        match &self.root {
            Some(root) => device.set_root(arc_clone(root)),
            None => {},
        }
        match self.inputs.insert(id, device) {
            Ok(_) => self,
            Err(_) => unreached(),
        }
    }

    /// Adds an output device under its own id, which no output device of
    /// the group has yet, and hands the group back for the next call. Where
    /// the group keeps its own under a directory, so does the log of the
    /// device from now on.
    pub fn push_output(&mut self, device: Output) -> (group: &mut Self)
        requires
            !crate::io::dev::container::has_id(old(self)@.outputs, device@.metadata.id),
        ensures
            *final(self) == *final(group),
            group@ == (GroupView {
                outputs: old(self)@.outputs.push(
                    Entry {
                        id: device@.metadata.id,
                        device: match old(self)@.root {
                            Some(root) => device@.rooted(root),
                            None => device@,
                        },
                    },
                ),
                ..old(self)@
            }),
    {
        let id = device.id();
        let mut device = device;
        match &self.root {
            Some(root) => device.set_root(arc_clone(root)),
            None => {},
        }
        match self.outputs.insert(id, device) {
            Ok(_) => self,
            Err(_) => unreached(),
        }
    }

    /// The directory under which the group keeps its own: the one that was
    /// set, or [`DATA_ROOT`]. The directory of the group itself is the one
    /// of the group's name in it.
    pub fn root_dir(&self) -> (dir: String)
        ensures
            dir@ == (match self@.root {
                Some(root) => root@,
                None => DATA_ROOT@,
            }),
    {
        match &self.root {
            Some(root) => root.as_str().to_owned(),
            None => DATA_ROOT.to_owned(),
        }
    }

    /// Runs the routines of every input device's publisher that are due at
    /// `now`, removes them, and records their effects on the output devices
    /// of the group.
    ///
    /// The input devices are taken in the order of their container, and the
    /// routines of each in their own order; the results stand in that order.
    /// The effect of a routine is recorded on the output device that stands
    /// in the group under the id of the routine's device. An effect that no
    /// output device takes gives way to a `ContainerError` in the results.
    pub fn attempt_routines_at(&mut self, now: Timestamp) -> (results: Vec<Result<IOEvent, ErrorType>>)
        ensures
            final(self)@ == (GroupView {
                inputs: Self::all_attempted(old(self)@.inputs, now),
                outputs: crate::storage::chronicle::after_all::<DeviceContainer<Output>>(
                    old(self)@.outputs,
                    results@,
                ),
                ..old(self)@
            }),
            results@.len() == Self::all_due(old(self)@.inputs, now).len(),
            forall|k: int|
                0 <= k < results@.len() ==> (#[trigger] results@[k] matches Ok(event) ==> event == Self::all_due(
                    old(self)@.inputs,
                    now,
                )[k].effect(now)),
    {
        let mut results: Vec<Result<IOEvent, ErrorType>> = Vec::new();
        let count: usize = self.inputs.len();
        let mut index: usize = 0;
        while index < count
            invariant
                index <= count,
                count == old(self)@.inputs.len(),
                self.inputs@.len() == count,
                self@ == (GroupView { inputs: self@.inputs, outputs: self@.outputs, ..old(self)@ }),
                self.inputs@ == self@.inputs,
                self.outputs@ == self@.outputs,
                forall|i: int|
                    0 <= i < index ==> #[trigger] self.inputs@[i] == (Entry {
                        id: old(self)@.inputs[i].id,
                        device: old(self)@.inputs[i].device.attempted(now),
                    }),
                forall|i: int| index <= i < count ==> #[trigger] self.inputs@[i] == old(self)@.inputs[i],
                results@.len() == Self::all_due(old(self)@.inputs.take(index as int), now).len(),
                forall|k: int|
                    0 <= k < results@.len() ==> (#[trigger] results@[k] matches Ok(event) ==> event == Self::all_due(
                        old(self)@.inputs.take(index as int),
                        now,
                    )[k].effect(now)),
                self.outputs@ == crate::storage::chronicle::after_all::<DeviceContainer<Output>>(
                    old(self)@.outputs,
                    results@,
                ),
            decreases count - index,
        {
            let ghost so_far = results@;
            let device = self.inputs.device_mut(index);
            let mut here = device.attempt_routines_at(now, &mut self.outputs);
            proof {
                assert(old(self)@.inputs.take(index + 1).drop_last() =~= old(self)@.inputs.take(index as int));
                crate::storage::chronicle::lemma_after_all_add::<DeviceContainer<Output>>(
                    old(self)@.outputs,
                    so_far,
                    here@,
                );
            }
            results.append(&mut here);
            index = index + 1;
        }
        proof {
            assert(old(self)@.inputs.take(count as int) =~= old(self)@.inputs);
            assert(self.inputs@ =~= Self::all_attempted(old(self)@.inputs, now));
        }
        results
    }

    /// Whether `results` and `after` are what a pass at `now` may make of a
    /// group in the state `before`: see [`Self::attempt_routines_at`].
    pub open spec fn attempted(
        before: GroupView,
        now: Timestamp,
        results: Seq<Result<IOEvent, ErrorType>>,
        after: GroupView,
    ) -> bool {
        &&& after == (GroupView {
            inputs: Self::all_attempted(before.inputs, now),
            outputs: crate::storage::chronicle::after_all::<DeviceContainer<Output>>(before.outputs, results),
            ..before
        })
        &&& results.len() == Self::all_due(before.inputs, now).len()
        &&& forall|k: int|
            0 <= k < results.len() ==> (#[trigger] results[k] matches Ok(event) ==> event == Self::all_due(
                before.inputs,
                now,
            )[k].effect(now))
    }

    /// Runs the routines that are due by the system clock:
    /// [`Self::attempt_routines_at`] at the time that the clock gave. Where
    /// the clock cannot be read, the result is `ClockError`, nothing is run
    /// and nothing changes.
    pub fn attempt_routines(&mut self) -> (r: Result<Vec<Result<IOEvent, ErrorType>>, ErrorType>)
        ensures
            match r {
                Ok(results) => exists|now: Timestamp|
                    now.on_clock() && Self::attempted(old(self)@, now, results@, final(self)@),
                Err(e) => e.kind == ErrorKind::ClockError && final(self)@ == old(self)@,
            },
    {
        match Timestamp::now() {
            Some(now) => Ok(self.attempt_routines_at(now)),
            None => Err(clock_unreadable()),
        }
    }

    pub fn name(&self) -> (name: &String)
        ensures
            *name == self@.name,
    {
        &self.name
    }

    pub fn interval(&self) -> (interval: &Span)
        ensures
            *interval == self@.interval,
    {
        &self.interval
    }

    pub fn set_interval(&mut self, interval: Span)
        ensures
            final(self)@ == (GroupView { interval, ..old(self)@ }),
    {
        self.interval = interval
    }

    pub fn root(&self) -> (root: Option<RootPath>)
        ensures
            root == self@.root,
    {
        match &self.root {
            Some(root) => Some(arc_clone(root)),
            None => None,
        }
    }

    pub fn set_name(&mut self, name: &str)
        ensures
            final(self)@.name@ == name@,
            final(self)@ == (GroupView { name: final(self)@.name, ..old(self)@ }),
    {
        self.name = name.to_owned();
    }

    /// This group, keeping its own under `root`: see [`Self::set_root_ref`].
    pub fn set_root(self, root: RootPath) -> (group: Group)
        ensures
            group@ == (GroupView { root: Some(root), inputs: group@.inputs, outputs: group@.outputs, ..self@ }),
            Self::rooted(self@.inputs, self@.outputs, root, group@.inputs, group@.outputs),
    {
        let mut group = self;
        group.set_root_ref(root);
        group
    }

    /// Whether the devices `inputs` and `outputs` are the devices
    /// `inputs_before` and `outputs_before` with their logs kept under
    /// `root`.
    pub open spec fn rooted(
        inputs_before: Seq<Entry<InputView>>,
        outputs_before: Seq<Entry<OutputView>>,
        root: RootPath,
        inputs: Seq<Entry<InputView>>,
        outputs: Seq<Entry<OutputView>>,
    ) -> bool {
        &&& inputs.len() == inputs_before.len()
        &&& outputs.len() == outputs_before.len()
        &&& forall|i: int|
            0 <= i < inputs.len() ==> #[trigger] inputs[i] == (Entry {
                id: inputs_before[i].id,
                device: inputs_before[i].device.rooted(root),
            })
        &&& forall|i: int|
            0 <= i < outputs.len() ==> #[trigger] outputs[i] == (Entry {
                id: outputs_before[i].id,
                device: outputs_before[i].device.rooted(root),
            })
    }

    /// Sets the directory under which the group keeps its own, and with it
    /// the directory of the log of every device in the group.
    pub fn set_root_ref(&mut self, root: RootPath)
        ensures
            final(self)@ == (GroupView {
                root: Some(root),
                inputs: final(self)@.inputs,
                outputs: final(self)@.outputs,
                ..old(self)@
            }),
            Self::rooted(old(self)@.inputs, old(self)@.outputs, root, final(self)@.inputs, final(self)@.outputs),
    {
        self.root = Some(arc_clone(&root));
        self.inputs.set_root(arc_clone(&root));
        self.outputs.set_root(root);
    }
}

} // verus!
