//! The owner of the device snapshot, the active stream and the listeners,
//! and the protocol that moves all of them to another device.
//!
//! The host decides; the caller does the platform's work. It asks the host
//! for a plan, opens and wires the stream that the plan names, and reports
//! how that went. Only a report of success changes the host.

use crate::buffer::PollingBuffer;
use crate::device::{
    chosen_format, first_named, lemma_first_named, Device, DeviceCatalog, DeviceView, Direction,
    StreamFormat,
};
use crate::registry::{
    after_insert, after_remove, distinct_names, fed, has_name, insert_answer, position,
    remove_answer, Entry, ListenerRegistry, RegistryError,
};
use vstd::prelude::*;

verus! {

/// The audio subsystem could not start.
#[derive(Clone, Copy, PartialEq, Eq, Structural, Debug)]
pub struct InitError;

/// The active stream could not start delivering.
#[derive(Clone, Copy, PartialEq, Eq, Structural, Debug)]
pub struct StreamStartError;

/// Why a device switch did not happen. The stream that was active before
/// is still the active one.
#[derive(Clone, Copy, PartialEq, Eq, Structural, Debug)]
pub enum DeviceSwitchError {
    /// The index names no device of the snapshot.
    OutOfRange,
    /// The new device could not be opened.
    StreamStartFailed,
    /// The listeners could not be moved to the new stream.
    RebindFailed,
}

/// How the platform's part of a switch went.
#[derive(Clone, Copy, PartialEq, Eq, Structural, Debug)]
pub enum SwitchOutcome {
    /// The stream of the plan could not be opened.
    OpenFailed,
    /// The stream was opened, but the listeners could not be wired to it.
    RebindFailed,
    /// The stream is open and wired, and the old one delivers no more.
    Ready,
}

/// The stream that a switch to `index` has to open.
#[derive(Clone, Copy, PartialEq, Eq, Structural, Debug)]
pub struct SwitchPlan {
    /// The device to open, by its index in the host's snapshot.
    pub index: usize,
    /// The format to open it with.
    pub format: StreamFormat,
    /// The identity under which the new stream delivers its frames.
    pub stream: u64,
}

/// The live session on one device.
#[derive(Debug)]
pub struct Stream {
    pub id: u64,
    pub device: String,
    pub format: StreamFormat,
    pub running: bool,
}

/// A stream as contracts see it.
pub struct StreamView {
    pub id: u64,
    pub device: Seq<char>,
    pub format: StreamFormat,
    pub running: bool,
}

impl View for Stream {
    type V = StreamView;

    open spec fn view(&self) -> StreamView {
        StreamView { id: self.id, device: self.device@, format: self.format, running: self.running }
    }
}

/// A host as contracts see it.
pub struct HostView {
    /// The most recent snapshot of the devices.
    pub devices: Seq<DeviceView>,
    /// The index of the active device in that snapshot, where it is there.
    pub current: Option<usize>,
    /// The active stream.
    pub stream: Option<StreamView>,
    /// The listeners, by name, with the frame each holds.
    pub listeners: Seq<Entry>,
    /// The stream that feeds the listeners.
    pub source: Option<u64>,
}

/// The stream that feeds the listeners of a host with this active stream:
/// the stream itself once it runs, none before.
pub open spec fn feeding(stream: Option<StreamView>) -> Option<u64> {
    if stream is Some && stream.unwrap().running {
        Some(stream.unwrap().id)
    } else {
        None
    }
}

/// What holds of every host: listeners have distinct names and hang on the
/// active stream, and the current index names the active stream's device.
pub open spec fn consistent(host: HostView) -> bool {
    &&& distinct_names(host.listeners)
    &&& host.source == feeding(host.stream)
    &&& host.current is Some ==> host.stream is Some && host.current.unwrap() < host.devices.len()
        && host.devices[host.current.unwrap() as int].name == host.stream.unwrap().device
}

/// The identity of the stream that replaces `stream`; it differs from the
/// one replaced.
pub open spec fn next_stream_id(stream: Option<StreamView>) -> u64 {
    if stream is Some && stream.unwrap().id < u64::MAX {
        (stream.unwrap().id + 1) as u64
    } else {
        0
    }
}

/// The format in use on a host.
pub open spec fn format_in_use(stream: Option<StreamView>) -> Option<StreamFormat> {
    if stream is Some {
        Some(stream.unwrap().format)
    } else {
        None
    }
}

/// The plan for a switch of `host` to the device at `index`.
pub open spec fn planned(host: HostView, index: usize) -> SwitchPlan
    recommends
        index < host.devices.len(),
{
    SwitchPlan {
        index,
        format: chosen_format(format_in_use(host.stream), host.devices[index as int]),
        stream: next_stream_id(host.stream),
    }
}

/// A fresh host on `devices` whose first device is the one at `first`.
pub open spec fn started(devices: Seq<DeviceView>, first: Option<usize>) -> HostView {
    HostView {
        devices,
        current: first,
        stream: if first is Some {
            Some(
                StreamView {
                    id: 0,
                    device: devices[first.unwrap() as int].name,
                    format: devices[first.unwrap() as int].default_format,
                    running: false,
                },
            )
        } else {
            None
        },
        listeners: Seq::empty(),
        source: None,
    }
}

/// The host after a completed switch to the device at `index`: the stream
/// of the plan is the active one and runs if the old one ran, every
/// listener is kept and hangs on it, and the device is the current one.
pub open spec fn switched(host: HostView, index: usize) -> HostView
    recommends
        index < host.devices.len(),
{
    let plan = planned(host, index);
    let stream = StreamView {
        id: plan.stream,
        device: host.devices[index as int].name,
        format: plan.format,
        running: host.stream is Some && host.stream.unwrap().running,
    };
    HostView {
        devices: host.devices,
        current: Some(index),
        stream: Some(stream),
        listeners: host.listeners,
        source: feeding(Some(stream)),
    }
}

/// What a switch to `index` answers on a snapshot of `count` devices.
pub open spec fn switch_answer(count: nat, index: usize, outcome: SwitchOutcome) -> Result<
    (),
    DeviceSwitchError,
> {
    if index >= count {
        Err(DeviceSwitchError::OutOfRange)
    } else {
        match outcome {
            SwitchOutcome::OpenFailed => Err(DeviceSwitchError::StreamStartFailed),
            SwitchOutcome::RebindFailed => Err(DeviceSwitchError::RebindFailed),
            SwitchOutcome::Ready => Ok(()),
        }
    }
}

/// The host after a switch to `index` was asked for: all or nothing.
pub open spec fn after_switch(host: HostView, index: usize, outcome: SwitchOutcome) -> HostView {
    if switch_answer(host.devices.len(), index, outcome) is Ok {
        switched(host, index)
    } else {
        host
    }
}

/// The host after a new snapshot of the devices was taken: the active
/// device is looked up by its name, and is unknown where the name is gone.
pub open spec fn refreshed(host: HostView, devices: Seq<DeviceView>) -> HostView {
    HostView {
        devices,
        current: if host.stream is Some {
            first_named(devices, host.stream.unwrap().device)
        } else {
            None
        },
        ..host
    }
}

/// The host after its stream began to deliver.
pub open spec fn listening(host: HostView) -> HostView
    recommends
        host.stream is Some,
{
    let stream = StreamView { running: true, ..host.stream.unwrap() };
    HostView { stream: Some(stream), source: Some(stream.id), ..host }
}

/// The top-level owner of the audio bridge.
#[derive(Debug)]
pub struct AudioHost {
    catalog: DeviceCatalog,
    current: Option<usize>,
    stream: Option<Stream>,
    registry: ListenerRegistry,
}

impl View for AudioHost {
    type V = HostView;

    closed spec fn view(&self) -> HostView {
        HostView {
            devices: self.catalog@,
            current: self.current,
            stream: if self.stream is Some {
                Some(self.stream.unwrap()@)
            } else {
                None
            },
            listeners: self.registry@,
            source: self.registry.source(),
        }
    }
}

impl AudioHost {
    /// The host is consistent and so is its snapshot.
    pub closed spec fn wf(&self) -> bool {
        &&& consistent(self@)
        &&& self.catalog.wf()
    }

    /// Every well-formed host is consistent.
    pub proof fn lemma_wf(&self)
        requires
            self.wf(),
        ensures
            consistent(self@),
    {
    }

    /// The device a fresh host on `catalog` opens first: the default input,
    /// else the default output.
    pub open spec fn first_device(catalog: &DeviceCatalog) -> Option<usize> {
        if catalog.default_index(Direction::Input) is Some {
            catalog.default_index(Direction::Input)
        } else {
            catalog.default_index(Direction::Output)
        }
    }

    /// A host on a first snapshot, given whether the audio subsystem came
    /// up. Its stream is on the default device and does not deliver yet.
    pub fn initialize(subsystem_up: bool, catalog: DeviceCatalog) -> (host: Result<
        AudioHost,
        InitError,
    >)
        requires
            catalog.wf(),
        ensures
            host is Ok <==> subsystem_up,
            host is Ok ==> host.unwrap().wf() && host.unwrap()@ == started(
                catalog@,
                Self::first_device(&catalog),
            ),
    {
        if !subsystem_up {
            return Err(InitError);
        }
        let first = match catalog.default_device_index(Direction::Input) {
            Some(i) => Some(i),
            None => catalog.default_device_index(Direction::Output),
        };
        let stream = match first {
            Some(i) => {
                match catalog.get(i) {
                    Some(device) => Some(
                        Stream {
                            id: 0,
                            device: device.name.clone(),
                            format: device.default_format,
                            running: false,
                        },
                    ),
                    None => None,
                }
            },
            None => None,
        };
        let host = AudioHost { catalog, current: first, stream, registry: ListenerRegistry::new() };
        assert(host@ == started(catalog@, Self::first_device(&catalog)));
        Ok(host)
    }

    /// Takes a new snapshot of the devices and looks the active device up
    /// in it. Stream and listeners are untouched.
    pub fn refresh(&mut self, catalog: DeviceCatalog)
        requires
            old(self).wf(),
            catalog.wf(),
        ensures
            final(self)@ == refreshed(old(self)@, catalog@),
            final(self).wf(),
    {
        let found = match &self.stream {
            Some(stream) => catalog.find_by_name(&stream.device),
            None => None,
        };
        let _count = catalog.len();
        proof {
            lemma_refresh_resolves(self@, catalog@);
        }
        self.catalog = catalog;
        self.current = found;
    }

    /// The devices of the most recent snapshot.
    pub fn devices(&self) -> (devices: &Vec<Device>)
        ensures
            devices@.len() == self@.devices.len(),
            forall|i: int| 0 <= i < devices@.len() ==> (#[trigger] devices@[i])@ == self@.devices[i],
    {
        self.catalog.devices()
    }

    /// The index of the active device in the most recent snapshot, or
    /// nothing where the selection is unknown.
    pub fn current_device_index(&self) -> (index: Option<usize>)
        ensures
            index == self@.current,
    {
        self.current
    }

    /// The active device, or nothing where the selection is unknown.
    pub fn current_device(&self) -> (device: Option<&Device>)
        requires
            self.wf(),
        ensures
            device is Some <==> self@.current is Some,
            device is Some ==> device.unwrap()@ == self@.devices[self@.current.unwrap() as int],
    {
        match self.current {
            Some(i) => self.catalog.get(i),
            None => None,
        }
    }

    /// The active stream.
    pub fn stream(&self) -> (stream: Option<&Stream>)
        ensures
            stream is Some <==> self@.stream is Some,
            stream is Some ==> stream.unwrap()@ == self@.stream.unwrap(),
    {
        self.stream.as_ref()
    }

    /// The listeners, to look at.
    pub fn listeners(&self) -> (registry: &ListenerRegistry)
        ensures
            registry@ == self@.listeners,
            registry.source() == self@.source,
    {
        &self.registry
    }

    /// Registers `buffer` under `name`; the active stream feeds it once it
    /// runs.
    pub fn insert(&mut self, name: String, buffer: PollingBuffer) -> (answer: Result<
        (),
        RegistryError,
    >)
        requires
            old(self).wf(),
        ensures
            answer == insert_answer(old(self)@.listeners, name@),
            final(self)@ == (HostView {
                listeners: after_insert(old(self)@.listeners, name@, buffer@),
                ..old(self)@
            }),
            has_name(final(self)@.listeners, name@),
            final(self).wf(),
    {
        self.registry.insert(name, buffer)
    }

    /// Takes the listener called `name` off the stream and out of the host.
    pub fn remove(&mut self, name: &str) -> (answer: Result<(), RegistryError>)
        requires
            old(self).wf(),
        ensures
            answer == remove_answer(old(self)@.listeners, name@),
            final(self)@ == (HostView {
                listeners: after_remove(old(self)@.listeners, name@),
                ..old(self)@
            }),
            !has_name(final(self)@.listeners, name@),
            final(self).wf(),
    {
        self.registry.remove(name)
    }

    /// A copy of the latest frame of the listener called `name`.
    pub fn poll(&self, name: &str) -> (frame: Option<Vec<u32>>)
        requires
            self.wf(),
        ensures
            frame is Some <==> has_name(self@.listeners, name@),
            frame is Some ==> frame.unwrap()@ == self@.listeners[position(
                self@.listeners,
                name@,
            )].1,
    {
        self.registry.poll(name)
    }

    /// Records that the active stream began to deliver, or why it did not:
    /// `started` is what the platform said. Without a stream there is
    /// nothing to start.
    pub fn listen(&mut self, started: bool) -> (answer: Result<(), StreamStartError>)
        requires
            old(self).wf(),
        ensures
            answer is Ok <==> started && old(self)@.stream is Some,
            final(self)@ == if answer is Ok {
                listening(old(self)@)
            } else {
                old(self)@
            },
            final(self).wf(),
    {
        if !started {
            return Err(StreamStartError);
        }
        match &mut self.stream {
            Some(stream) => {
                stream.running = true;
                self.registry.rebind(stream.id);
                Ok(())
            },
            None => Err(StreamStartError),
        }
    }

    /// Hands a frame that `stream` produced to every listener. Frames of a
    /// stream that is not the running active one are dropped.
    pub fn deliver(&mut self, stream: u64, frame: &[u32]) -> (taken: bool)
        requires
            old(self).wf(),
        ensures
            taken == (old(self)@.source == Some(stream)),
            final(self)@ == (HostView {
                listeners: if taken {
                    fed(old(self)@.listeners, frame@)
                } else {
                    old(self)@.listeners
                },
                ..old(self)@
            }),
            final(self).wf(),
    {
        self.registry.deliver(stream, frame)
    }

    /// What a pick in the selection list asks for: a switch to `selected`
    /// where the current device is known and is another one, else nothing.
    pub fn requested_switch(&self, selected: usize) -> (target: Option<usize>)
        ensures
            target == if self@.current is Some && self@.current != Some(selected) {
                Some(selected)
            } else {
                None
            },
    {
        match self.current {
            Some(current) => {
                if current != selected {
                    Some(selected)
                } else {
                    None
                }
            },
            None => None,
        }
    }

    /// The stream to open for a switch to the device at `index`.
    pub fn plan_switch(&self, index: usize) -> (plan: Result<SwitchPlan, DeviceSwitchError>)
        ensures
            index >= self@.devices.len() ==> plan == Err::<SwitchPlan, DeviceSwitchError>(
                DeviceSwitchError::OutOfRange,
            ),
            index < self@.devices.len() ==> plan == Ok::<SwitchPlan, DeviceSwitchError>(
                planned(self@, index),
            ),
    {
        match self.catalog.get(index) {
            None => Err(DeviceSwitchError::OutOfRange),
            Some(device) => {
                let (in_use, stream) = match &self.stream {
                    Some(active) => (
                        Some(active.format),
                        if active.id < u64::MAX {
                            active.id + 1
                        } else {
                            0
                        },
                    ),
                    None => (None, 0),
                };
                Ok(SwitchPlan { index, format: device.choose_format(in_use), stream })
            },
        }
    }

    /// Completes or abandons the switch to the device at `index`, given how
    /// the platform's part went. On `Ready` the planned stream replaces the
    /// active one, takes over every listener in one step, and its device
    /// becomes the current one. On anything else the host stays as it was.
    pub fn change_device_by_index(&mut self, index: usize, outcome: SwitchOutcome) -> (answer:
        Result<(), DeviceSwitchError>)
        requires
            old(self).wf(),
        ensures
            answer == switch_answer(old(self)@.devices.len(), index, outcome),
            final(self)@ == after_switch(old(self)@, index, outcome),
            final(self).wf(),
    {
        let plan = match self.plan_switch(index) {
            Err(error) => {
                return Err(error);
            },
            Ok(plan) => plan,
        };
        match outcome {
            SwitchOutcome::OpenFailed => {
                return Err(DeviceSwitchError::StreamStartFailed);
            },
            SwitchOutcome::RebindFailed => {
                return Err(DeviceSwitchError::RebindFailed);
            },
            SwitchOutcome::Ready => {},
        }
        let running = match &self.stream {
            Some(active) => active.running,
            None => false,
        };
        let name = match self.catalog.get(index) {
            Some(device) => device.name.clone(),
            None => String::new(),
        };
        if running {
            self.registry.rebind(plan.stream);
        }
        self.stream = Some(Stream { id: plan.stream, device: name, format: plan.format, running });
        self.current = Some(index);
        Ok(())
    }
}

/// A switch to a valid index makes that index the current one, unless it
/// fails; then the current index is what it was.
pub proof fn lemma_switch_selects(host: HostView, index: usize, outcome: SwitchOutcome)
    requires
        index < host.devices.len(),
    ensures
        switch_answer(host.devices.len(), index, outcome) is Ok ==> after_switch(
            host,
            index,
            outcome,
        ).current == Some(index),
        switch_answer(host.devices.len(), index, outcome) is Err ==> after_switch(
            host,
            index,
            outcome,
        ).current == host.current,
{
}

/// After a new snapshot the host is consistent again, and the selection is
/// unknown exactly where no device of the snapshot has the name of the
/// active stream's device; where one has, the first of them is selected.
pub proof fn lemma_refresh_resolves(host: HostView, devices: Seq<DeviceView>)
    requires
        consistent(host),
        devices.len() <= usize::MAX,
    ensures
        consistent(refreshed(host, devices)),
        refreshed(host, devices).current is None <==> host.stream is None || forall|k: int|
            0 <= k < devices.len() ==> (#[trigger] devices[k]).name != host.stream.unwrap().device,
        refreshed(host, devices).current is Some ==> forall|k: int|
            0 <= k < refreshed(host, devices).current.unwrap() ==> (#[trigger] devices[k]).name
                != host.stream.unwrap().device,
{
    if host.stream is Some {
        lemma_first_named(devices, host.stream.unwrap().device);
    }
}

/// A switch is all or nothing: a failed one leaves the whole host as it
/// was, and an index out of range fails whatever the platform reported.
pub proof fn lemma_switch_all_or_nothing(host: HostView, index: usize, outcome: SwitchOutcome)
    ensures
        switch_answer(host.devices.len(), index, outcome) is Err ==> after_switch(
            host,
            index,
            outcome,
        ) == host,
        index >= host.devices.len() ==> switch_answer(host.devices.len(), index, outcome) == Err::<
            (),
            DeviceSwitchError,
        >(DeviceSwitchError::OutOfRange),
{
}

/// A switch drops no listener and leaves none on the old stream: all of
/// them hang on the new stream if the old one ran, and frames that the old
/// stream still produces reach nobody.
pub proof fn lemma_switch_moves_listeners(host: HostView, index: usize)
    requires
        consistent(host),
        index < host.devices.len(),
    ensures
        consistent(switched(host, index)),
        switched(host, index).listeners == host.listeners,
        host.source is Some ==> switched(host, index).source == Some(
            planned(host, index).stream,
        ) && switched(host, index).source != host.source,
        host.source is None ==> switched(host, index).source is None,
{
}

} // verus!
