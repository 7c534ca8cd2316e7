//! Audio endpoints and the snapshot of them that one enumeration gives.

use vstd::prelude::*;

verus! {

/// What an endpoint can do.
#[derive(Clone, Copy, PartialEq, Eq, Structural, Debug)]
pub enum Direction {
    Input,
    Output,
}

/// How one sample is encoded on the wire.
#[derive(Clone, Copy, PartialEq, Eq, Structural, Debug)]
pub enum SampleKind {
    Signed16,
    Unsigned16,
    Real32,
}

/// Sample encoding and rate of a stream.
#[derive(Clone, Copy, PartialEq, Eq, Structural, Debug)]
pub struct StreamFormat {
    pub kind: SampleKind,
    pub rate: u32,
}

/// The platform's device query failed.
#[derive(Clone, Copy, PartialEq, Eq, Structural, Debug)]
pub struct EnumerationError;

/// An audio endpoint. Its index is its place in the catalog that lists it,
/// and means nothing in any other catalog.
#[derive(Clone, Debug)]
pub struct Device {
    pub name: String,
    pub direction: Direction,
    pub default_format: StreamFormat,
    pub formats: Vec<StreamFormat>,
}

/// A device as contracts see it.
pub struct DeviceView {
    pub name: Seq<char>,
    pub direction: Direction,
    pub default_format: StreamFormat,
    pub formats: Seq<StreamFormat>,
}

impl View for Device {
    type V = DeviceView;

    open spec fn view(&self) -> DeviceView {
        DeviceView {
            name: self.name@,
            direction: self.direction,
            default_format: self.default_format,
            formats: self.formats@,
        }
    }
}

/// The device can run a stream of this format: it is its default or one of
/// the others it lists.
pub open spec fn offers(device: DeviceView, format: StreamFormat) -> bool {
    device.default_format == format || device.formats.contains(format)
}

/// The format of a new stream on `device`: the one in use where the device
/// offers it, else the device's default.
pub open spec fn chosen_format(in_use: Option<StreamFormat>, device: DeviceView) -> StreamFormat {
    if in_use is Some && offers(device, in_use.unwrap()) {
        in_use.unwrap()
    } else {
        device.default_format
    }
}

/// The first place in `devices` of a device called `name`, if any. A place
/// that no index can name is not reported.
pub open spec fn first_named(devices: Seq<DeviceView>, name: Seq<char>) -> Option<usize>
    decreases devices.len(),
{
    if devices.len() == 0 {
        None
    } else {
        match first_named(devices.drop_last(), name) {
            Some(i) => Some(i),
            None => if devices.last().name == name && devices.len() - 1 <= usize::MAX {
                Some((devices.len() - 1) as usize)
            } else {
                None
            },
        }
    }
}

/// A default as a catalog keeps it: the platform's choice where it names a
/// device of the list with that direction, else none.
pub open spec fn checked_default(
    devices: Seq<DeviceView>,
    choice: Option<usize>,
    direction: Direction,
) -> Option<usize> {
    if choice is Some && choice.unwrap() < devices.len() && devices[choice.unwrap() as int].direction
        == direction {
        choice
    } else {
        None
    }
}

impl Device {
    /// The name shown to the user.
    pub fn name(&self) -> (name: &str)
        ensures
            name@ == self@.name,
    {
        self.name.as_str()
    }

    /// Whether the device can run a stream of `format`.
    pub fn supports(&self, format: StreamFormat) -> (yes: bool)
        ensures
            yes == offers(self@, format),
    {
        if self.default_format == format {
            return true;
        }
        let mut i: usize = 0;
        while i < self.formats.len()
            invariant
                i <= self.formats@.len(),
                forall|k: int| 0 <= k < i ==> self.formats@[k] != format,
            decreases self.formats@.len() - i,
        {
            if self.formats[i] == format {
                return true;
            }
            i += 1;
        }
        false
    }

    /// The format for a new stream on this device, given the one in use.
    pub fn choose_format(&self, in_use: Option<StreamFormat>) -> (format: StreamFormat)
        ensures
            format == chosen_format(in_use, self@),
    {
        match in_use {
            Some(wanted) => {
                if self.supports(wanted) {
                    wanted
                } else {
                    self.default_format
                }
            },
            None => self.default_format,
        }
    }
}

/// The devices that one enumeration found, in the platform's order, with
/// the platform's default for each direction.
#[derive(Debug)]
pub struct DeviceCatalog {
    devices: Vec<Device>,
    default_input: Option<usize>,
    default_output: Option<usize>,
}

impl View for DeviceCatalog {
    type V = Seq<DeviceView>;

    closed spec fn view(&self) -> Seq<DeviceView> {
        Seq::new(self.devices@.len(), |i: int| self.devices@[i]@)
    }
}

impl DeviceCatalog {
    /// The index of the default device for `direction`, if there is one.
    pub closed spec fn default_index(&self, direction: Direction) -> Option<usize> {
        match direction {
            Direction::Input => self.default_input,
            Direction::Output => self.default_output,
        }
    }

    /// Each default names a device of the catalog with its direction.
    pub open spec fn wf(&self) -> bool {
        &&& self.default_index(Direction::Input) == checked_default(
            self@,
            self.default_index(Direction::Input),
            Direction::Input,
        )
        &&& self.default_index(Direction::Output) == checked_default(
            self@,
            self.default_index(Direction::Output),
            Direction::Output,
        )
    }

    /// The catalog for what the platform reported: `None` where its query
    /// failed, else the devices in its order. The defaults are the indices
    /// that the platform designates.
    pub fn enumerate(
        reported: Option<Vec<Device>>,
        default_input: Option<usize>,
        default_output: Option<usize>,
    ) -> (catalog: Result<DeviceCatalog, EnumerationError>)
        ensures
            catalog is Ok <==> reported is Some,
            catalog is Ok ==> {
                let found = catalog.unwrap();
                &&& found.wf()
                &&& found@.len() == reported.unwrap()@.len()
                &&& forall|i: int|
                    0 <= i < found@.len() ==> #[trigger] found@[i] == reported.unwrap()@[i]@
                &&& found.default_index(Direction::Input) == checked_default(
                    found@,
                    default_input,
                    Direction::Input,
                )
                &&& found.default_index(Direction::Output) == checked_default(
                    found@,
                    default_output,
                    Direction::Output,
                )
            },
    {
        match reported {
            None => Err(EnumerationError),
            Some(devices) => {
                let input = Self::check_default(&devices, default_input, Direction::Input);
                let output = Self::check_default(&devices, default_output, Direction::Output);
                Ok(DeviceCatalog { devices, default_input: input, default_output: output })
            },
        }
    }

    fn check_default(devices: &Vec<Device>, choice: Option<usize>, direction: Direction) -> (kept:
        Option<usize>)
        ensures
            kept == checked_default(
                Seq::new(devices@.len(), |i: int| devices@[i]@),
                choice,
                direction,
            ),
    {
        match choice {
            Some(i) => {
                if i < devices.len() && devices[i].direction == direction {
                    Some(i)
                } else {
                    None
                }
            },
            None => None,
        }
    }

    /// The number of devices.
    pub fn len(&self) -> (n: usize)
        ensures
            n == self@.len(),
    {
        self.devices.len()
    }

    /// The devices, in order.
    pub fn devices(&self) -> (devices: &Vec<Device>)
        ensures
            devices@.len() == self@.len(),
            forall|i: int| 0 <= i < devices@.len() ==> (#[trigger] devices@[i])@ == self@[i],
    {
        &self.devices
    }

    /// The device at `index`.
    pub fn get(&self, index: usize) -> (device: Option<&Device>)
        ensures
            device is Some <==> index < self@.len(),
            device is Some ==> device.unwrap()@ == self@[index as int],
    {
        if index < self.devices.len() {
            Some(&self.devices[index])
        } else {
            None
        }
    }

    /// The index of the platform's default device for `direction`.
    pub fn default_device_index(&self, direction: Direction) -> (index: Option<usize>)
        ensures
            index == self.default_index(direction),
    {
        match direction {
            Direction::Input => self.default_input,
            Direction::Output => self.default_output,
        }
    }

    /// The platform's default device for `direction`, or nothing if it has
    /// none.
    pub fn default_device(&self, direction: Direction) -> (device: Option<&Device>)
        requires
            self.wf(),
        ensures
            device is Some <==> self.default_index(direction) is Some,
            device is Some ==> device.unwrap()@ == self@[self.default_index(
                direction,
            ).unwrap() as int] && device.unwrap()@.direction == direction,
    {
        match self.default_device_index(direction) {
            Some(i) => self.get(i),
            None => None,
        }
    }

    /// The first index of a device called `name`.
    pub fn find_by_name(&self, name: &String) -> (index: Option<usize>)
        ensures
            index == first_named(self@, name@),
    {
        let mut i: usize = 0;
        while i < self.devices.len()
            invariant
                i <= self.devices@.len(),
                self@.len() == self.devices@.len(),
                first_named(self@.take(i as int), name@) == None::<usize>,
            decreases self.devices@.len() - i,
        {
            proof {
                lemma_first_named_step(self@, name@, i as int);
            }
            if self.devices[i].name == *name {
                proof {
                    lemma_first_named_stays(self@, name@, i as int + 1);
                }
                return Some(i);
            }
            i += 1;
        }
        assert(self@.take(i as int) =~= self@);
        None
    }
}

/// Unfolds `first_named` at the prefix of length `i + 1`.
proof fn lemma_first_named_step(devices: Seq<DeviceView>, name: Seq<char>, i: int)
    requires
        0 <= i < devices.len(),
        i <= usize::MAX,
        first_named(devices.take(i), name) == None::<usize>,
    ensures
        first_named(devices.take(i + 1), name) == if devices[i].name == name {
            Some(i as usize)
        } else {
            None
        },
{
    assert(devices.take(i + 1).drop_last() =~= devices.take(i));
    assert(devices.take(i + 1).last() == devices[i]);
}

/// A match found in a prefix is the answer for the whole sequence.
proof fn lemma_first_named_stays(devices: Seq<DeviceView>, name: Seq<char>, n: int)
    requires
        0 <= n <= devices.len(),
        first_named(devices.take(n), name) is Some,
    ensures
        first_named(devices, name) == first_named(devices.take(n), name),
    decreases devices.len() - n,
{
    if n < devices.len() {
        assert(devices.take(n + 1).drop_last() =~= devices.take(n));
        lemma_first_named_stays(devices, name, n + 1);
    } else {
        assert(devices.take(n) =~= devices);
    }
}

/// What `first_named` finds is a device of that name with no device of that
/// name before it; it finds nothing only where no device has the name.
pub proof fn lemma_first_named(devices: Seq<DeviceView>, name: Seq<char>)
    requires
        devices.len() <= usize::MAX,
    ensures
        match first_named(devices, name) {
            Some(i) => i < devices.len() && devices[i as int].name == name && forall|k: int|
                0 <= k < i ==> (#[trigger] devices[k]).name != name,
            None => forall|k: int| 0 <= k < devices.len() ==> (#[trigger] devices[k]).name != name,
        },
    decreases devices.len(),
{
    if devices.len() > 0 {
        let front = devices.drop_last();
        lemma_first_named(front, name);
        assert(forall|k: int| 0 <= k < front.len() ==> front[k] == devices[k]);
    }
}

} // verus!
