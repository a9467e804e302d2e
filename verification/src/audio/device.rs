//! Audio endpoints as the engine sees them.

use vstd::prelude::*;
use vstd::string::*;

verus! {

/// What an endpoint can do.
#[derive(Debug, PartialEq, Eq, Structural)]
pub enum DeviceType {
    Input,
    Output,
    InputOutput,
}

/// One of the two default slots of the system.
#[derive(Debug, Clone, Copy, PartialEq, Eq, Structural)]
pub enum Direction {
    Input,
    Output,
}

impl Clone for DeviceType {
    fn clone(&self) -> (copy: Self)
        ensures
            copy == *self,
    {
        match self {
            DeviceType::Input => DeviceType::Input,
            DeviceType::Output => DeviceType::Output,
            DeviceType::InputOutput => DeviceType::InputOutput,
        }
    }
}

impl DeviceType {
    /// Whether an endpoint of this type can fill the slot `direction`.
    pub open spec fn supports_spec(self, direction: Direction) -> bool {
        match direction {
            Direction::Input => self == DeviceType::Input || self == DeviceType::InputOutput,
            Direction::Output => self == DeviceType::Output || self == DeviceType::InputOutput,
        }
    }

    /// The words for this type in messages.
    pub open spec fn label(self) -> Seq<char> {
        match self {
            DeviceType::Input => "Input"@,
            DeviceType::Output => "Output"@,
            DeviceType::InputOutput => "Input/Output"@,
        }
    }

    /// Whether an endpoint of this type can fill the slot `direction`:
    /// an input slot takes `Input` and `InputOutput`, an output slot takes
    /// `Output` and `InputOutput`.
    pub fn supports(&self, direction: Direction) -> (fits: bool)
        ensures
            fits == self.supports_spec(direction),
    {
        match direction {
            Direction::Input => match self {
                DeviceType::Input => true,
                DeviceType::Output => false,
                DeviceType::InputOutput => true,
            },
            Direction::Output => match self {
                DeviceType::Input => false,
                DeviceType::Output => true,
                DeviceType::InputOutput => true,
            },
        }
    }

    /// The type in words: `Input`, `Output` or `Input/Output`.
    pub fn to_string(&self) -> (words: String)
        ensures
            words@ == self.label(),
    {
        match self {
            DeviceType::Input => String::from_str("Input"),
            DeviceType::Output => String::from_str("Output"),
            DeviceType::InputOutput => String::from_str("Input/Output"),
        }
    }
}

/// An endpoint as one enumeration reported it. A record is never changed
/// after the fact; the next enumeration yields new records.
#[derive(Debug)]
pub struct AudioDevice {
    pub id: String,
    pub name: String,
    pub device_type: DeviceType,
    pub is_default: bool,
    pub is_available: bool,
    pub uid: Option<String>,
}

/// The mathematical value of an [`AudioDevice`].
pub struct DeviceView {
    pub id: Seq<char>,
    pub name: Seq<char>,
    pub device_type: DeviceType,
    pub is_default: bool,
    pub is_available: bool,
    pub uid: Option<Seq<char>>,
}

impl View for AudioDevice {
    type V = DeviceView;

    open spec fn view(&self) -> DeviceView {
        DeviceView {
            id: self.id@,
            name: self.name@,
            device_type: self.device_type,
            is_default: self.is_default,
            is_available: self.is_available,
            uid: match self.uid {
                Some(uid) => Some(uid@),
                None => None,
            },
        }
    }
}

impl DeepView for AudioDevice {
    type V = DeviceView;

    open spec fn deep_view(&self) -> DeviceView {
        self@
    }
}

impl DeviceView {
    /// The line that describes the endpoint to a reader.
    pub open spec fn description(self) -> Seq<char> {
        self.name + " ("@ + self.device_type.label() + "): "@ + (if self.is_default {
            "Default"@
        } else {
            "Available"@
        }) + " ["@ + (if self.is_available {
            "Online"@
        } else {
            "Offline"@
        }) + "]"@
    }

    /// What identifies the endpoint to the user: its unique identifier
    /// where it has one, else its id.
    pub open spec fn identity(self) -> Seq<char> {
        match self.uid {
            Some(uid) => uid,
            None => self.id,
        }
    }
}

impl Clone for AudioDevice {
    fn clone(&self) -> (copy: Self)
        ensures
            copy == *self,
    {
        AudioDevice {
            id: self.id.clone(),
            name: self.name.clone(),
            device_type: self.device_type.clone(),
            is_default: self.is_default,
            is_available: self.is_available,
            uid: match &self.uid {
                Some(uid) => Some(uid.clone()),
                None => None,
            },
        }
    }
}

impl PartialEq for AudioDevice {
    /// Two records stand for the same endpoint when their ids are equal.
    fn eq(&self, other: &Self) -> (same: bool) {
        self.id == other.id
    }
}

impl vstd::std_specs::cmp::PartialEqSpecImpl for AudioDevice {
    open spec fn obeys_eq_spec() -> bool {
        true
    }

    open spec fn eq_spec(&self, other: &Self) -> bool {
        self.id@ == other.id@
    }
}

impl AudioDevice {
    /// A record of an endpoint that is present and not the default.
    pub fn new(id: String, name: String, device_type: DeviceType) -> (device: Self)
        ensures
            device.id == id,
            device.name == name,
            device.device_type == device_type,
            !device.is_default,
            device.is_available,
            device.uid is None,
    {
        Self { id, name, device_type, is_default: false, is_available: true, uid: None }
    }

    /// The same record with a unique identifier.
    pub fn with_uid(self, uid: String) -> (device: Self)
        ensures
            device == (AudioDevice { uid: Some(uid), ..self }),
    {
        let mut device = self;
        device.uid = Some(uid);
        device
    }

    /// The same record with its default flag set to `is_default`.
    pub fn set_default(self, is_default: bool) -> (device: Self)
        ensures
            device == (AudioDevice { is_default, ..self }),
    {
        let mut device = self;
        device.is_default = is_default;
        device
    }

    /// The same record with its availability set to `is_available`.
    pub fn set_available(self, is_available: bool) -> (device: Self)
        ensures
            device == (AudioDevice { is_available, ..self }),
    {
        let mut device = self;
        device.is_available = is_available;
        device
    }

    /// The record in one line: name, type, whether it is the default and
    /// whether it is present.
    pub fn to_string(&self) -> (line: String)
        ensures
            line@ == self@.description(),
    {
        let mut line = self.name.clone();
        line.append(" (");
        line.append(self.device_type.to_string().as_str());
        line.append("): ");
        line.append(if self.is_default { "Default" } else { "Available" });
        line.append(" [");
        line.append(if self.is_available { "Online" } else { "Offline" });
        line.append("]");
        line
    }

    /// What is known of the endpoint beyond its name. Sample rate and
    /// channel count are not read from the system and stay empty.
    pub fn info(&self) -> (info: DeviceInfo)
        ensures
            info.name@ == self.name@,
            info.uid@ == self@.identity(),
            info.device_type == self.device_type,
            info.sample_rate is None,
            info.channels is None,
            info.is_default == self.is_default,
    {
        DeviceInfo {
            name: self.name.clone(),
            uid: match &self.uid {
                Some(uid) => uid.clone(),
                None => self.id.clone(),
            },
            device_type: self.device_type.clone(),
            sample_rate: None,
            channels: None,
            is_default: self.is_default,
        }
    }
}

/// Details of an endpoint for display.
#[derive(Debug)]
pub struct DeviceInfo {
    pub name: String,
    pub uid: String,
    pub device_type: DeviceType,
    pub sample_rate: Option<u32>,
    pub channels: Option<u32>,
    pub is_default: bool,
}

impl Clone for DeviceInfo {
    fn clone(&self) -> (copy: Self)
        ensures
            copy == *self,
    {
        DeviceInfo {
            name: self.name.clone(),
            uid: self.uid.clone(),
            device_type: self.device_type.clone(),
            sample_rate: self.sample_rate,
            channels: self.channels,
            is_default: self.is_default,
        }
    }
}

/// The views of a list of records, in order.
pub open spec fn device_views(devices: Seq<AudioDevice>) -> Seq<DeviceView> {
    devices.map_values(|device: AudioDevice| device@)
}

/// Copies a list of records.
pub fn clone_devices(devices: &[AudioDevice]) -> (copy: Vec<AudioDevice>)
    ensures
        copy@ == devices@,
{
    let mut copy: Vec<AudioDevice> = Vec::new();
    let mut index: usize = 0;
    while index < devices.len()
        invariant
            index <= devices@.len(),
            copy@ == devices@.take(index as int),
        decreases devices@.len() - index,
    {
        copy.push(devices[index].clone());
        assert(devices@.take(index + 1) == devices@.take(index as int).push(devices@[index as int]));
        index += 1;
    }
    assert(devices@.take(devices@.len() as int) == devices@);
    copy
}

} // verus!
