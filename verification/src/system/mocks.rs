//! In-memory stand-ins for the capabilities of the host. Each keeps what
//! it is asked and answers from what it has been given.

use crate::audio::device::{clone_devices, AudioDevice, DeviceView};
use crate::config::types::equal_text;
use crate::error::{ErrorKind, MonitorError};
use crate::system::traits::{AudioSystemInterface, FileSystemInterface, SystemServiceInterface};
use crate::text::text_views;
use vstd::prelude::*;

verus! {

/// Copies a list of pairs of texts.
pub fn clone_pairs(pairs: &Vec<(String, String)>) -> (copy: Vec<(String, String)>)
    ensures
        copy@ == pairs@,
{
    let mut copy: Vec<(String, String)> = Vec::new();
    let mut index: usize = 0;
    while index < pairs.len()
        invariant
            index <= pairs@.len(),
            copy@ == pairs@.take(index as int),
        decreases pairs@.len() - index,
    {
        let pair = &pairs[index];
        copy.push((pair.0.clone(), pair.1.clone()));
        assert(pairs@.take(index + 1) == pairs@.take(index as int).push(pairs@[index as int]));
        index += 1;
    }
    assert(pairs@.take(pairs@.len() as int) == pairs@);
    copy
}

/// Copies a list of texts.
pub fn clone_texts(texts: &Vec<String>) -> (copy: Vec<String>)
    ensures
        copy@ == texts@,
{
    let mut copy: Vec<String> = Vec::new();
    let mut index: usize = 0;
    while index < texts.len()
        invariant
            index <= texts@.len(),
            copy@ == texts@.take(index as int),
        decreases texts@.len() - index,
    {
        copy.push(texts[index].clone());
        assert(texts@.take(index + 1) == texts@.take(index as int).push(texts@[index as int]));
        index += 1;
    }
    assert(texts@.take(texts@.len() as int) == texts@);
    copy
}

/// Whether a device goes by `name_or_id`: whether that is its id or its
/// name.
pub open spec fn goes_by(device: DeviceView, name_or_id: Seq<char>) -> bool {
    device.id == name_or_id || device.name == name_or_id
}

/// The names or ids of the accepted switches of the slot `slot`, in the
/// order of the calls.
pub open spec fn calls_of(calls: Seq<(String, String)>, slot: Seq<char>) -> Seq<Seq<char>>
    decreases calls.len(),
{
    if calls.len() == 0 {
        Seq::empty()
    } else if calls.last().1@ == slot {
        calls_of(calls.drop_last(), slot).push(calls.last().0@)
    } else {
        calls_of(calls.drop_last(), slot)
    }
}

/// Whether the first device in `devices` that goes by `name_or_id`
/// stands at `at`.
pub open spec fn first_going_by(devices: Seq<AudioDevice>, name_or_id: Seq<char>, at: int) -> bool {
    &&& 0 <= at < devices.len()
    &&& goes_by(devices[at]@, name_or_id)
    &&& forall|k: int| 0 <= k < at ==> !goes_by((#[trigger] devices[k])@, name_or_id)
}

/// The test that picks the devices that do not go by `name_or_id`.
pub open spec fn not_going_by(name_or_id: Seq<char>) -> spec_fn(AudioDevice) -> bool {
    |device: AudioDevice| !goes_by(device@, name_or_id)
}

/// Whether some device in `devices` goes by `name_or_id`.
pub open spec fn some_goes_by(devices: Seq<AudioDevice>, name_or_id: Seq<char>) -> bool {
    exists|k: int| 0 <= k < devices.len() && goes_by((#[trigger] devices[k])@, name_or_id)
}

/// The word under which a switch of a slot is recorded.
pub open spec fn slot_word(output: bool) -> Seq<char> {
    if output {
        "output"@
    } else {
        "input"@
    }
}

/// Whether `after` is `before` once a switch of the output or the input
/// to the device that goes by `device_id` has been accepted: the switch
/// is recorded, and the first device that goes by `device_id`, if there
/// is one, is the default of the slot. Everything else stays.
pub open spec fn switch_accepted(
    before: MockAudioSystem,
    after: MockAudioSystem,
    device_id: Seq<char>,
    output: bool,
) -> bool {
    &&& after.devices == before.devices
    &&& after.listener_count == before.listener_count
    &&& after.should_fail_enumeration == before.should_fail_enumeration
    &&& after.should_fail_set_device == before.should_fail_set_device
    &&& after.set_device_calls@.len() == before.set_device_calls@.len() + 1
    &&& after.set_device_calls@.drop_last() == before.set_device_calls@
    &&& after.set_device_calls@.last().0@ == device_id
    &&& after.set_device_calls@.last().1@ == slot_word(output)
    &&& output ==> after.default_input == before.default_input
    &&& !output ==> after.default_output == before.default_output
    &&& !some_goes_by(before.devices@, device_id) ==> after.default_output == before.default_output
        && after.default_input == before.default_input
    &&& forall|at: int| #[trigger]
        first_going_by(before.devices@, device_id, at) ==> if output {
            after.default_output == Some(before.devices@[at])
        } else {
            after.default_input == Some(before.devices@[at])
        }
}

/// Whether `after` holds the files of `before` with `content` at `path`:
/// in place of the first file at `path`, or at the end where there was
/// none.
pub open spec fn files_with(
    before: Seq<(String, String)>,
    after: Seq<(String, String)>,
    path: Seq<char>,
    content: Seq<char>,
) -> bool {
    &&& !holds_file(before, path) ==> after.len() == before.len() + 1 && after.drop_last()
        == before && after.last().0@ == path && after.last().1@ == content
    &&& forall|at: int| #[trigger]
        first_file_at(before, path, at) ==> after.len() == before.len() && after[at].0@ == path
            && after[at].1@ == content && forall|k: int|
            0 <= k < before.len() && k != at ==> #[trigger] after[k] == before[k]
}

/// Whether the first file at `path` in a list of files stands at `at`.
pub open spec fn first_file_at(files: Seq<(String, String)>, path: Seq<char>, at: int) -> bool {
    &&& 0 <= at < files.len()
    &&& files[at].0@ == path
    &&& forall|k: int| 0 <= k < at ==> (#[trigger] files[k]).0@ != path
}

/// Whether a list of files holds one at `path`.
pub open spec fn holds_file(files: Seq<(String, String)>, path: Seq<char>) -> bool {
    exists|k: int| 0 <= k < files.len() && (#[trigger] files[k]).0@ == path
}

/// The position of the first device in `devices` that goes by
/// `name_or_id`.
pub fn find_device(devices: &Vec<AudioDevice>, name_or_id: &str) -> (found: Option<usize>)
    ensures
        match found {
            Some(at) => first_going_by(devices@, name_or_id@, at as int),
            None => !some_goes_by(devices@, name_or_id@),
        },
{
    let mut index: usize = 0;
    while index < devices.len()
        invariant
            index <= devices@.len(),
            forall|k: int| 0 <= k < index ==> !goes_by((#[trigger] devices@[k])@, name_or_id@),
        decreases devices@.len() - index,
    {
        let device = &devices[index];
        if equal_text(device.id.as_str(), name_or_id) || equal_text(
            device.name.as_str(),
            name_or_id,
        ) {
            return Some(index);
        }
        index += 1;
    }
    None
}

/// An audio system whose devices and defaults are set by hand.
#[derive(Debug)]
pub struct MockAudioSystem {
    /// The devices that are present.
    pub devices: Vec<AudioDevice>,
    /// The default output.
    pub default_output: Option<AudioDevice>,
    /// The default input.
    pub default_input: Option<AudioDevice>,
    /// How often reports of change have been asked for.
    pub listener_count: usize,
    /// The switches that were accepted: the name or id asked for and
    /// `output` or `input`.
    pub set_device_calls: Vec<(String, String)>,
    /// Whether enumerations fail.
    pub should_fail_enumeration: bool,
    /// Whether switches fail.
    pub should_fail_set_device: bool,
}

impl MockAudioSystem {
    /// A system without devices in which nothing fails.
    pub fn new() -> (system: Self)
        ensures
            system.devices@.len() == 0,
            system.default_output is None,
            system.default_input is None,
            system.listener_count == 0,
            system.set_device_calls@.len() == 0,
            !system.should_fail_enumeration,
            !system.should_fail_set_device,
    {
        Self {
            devices: Vec::new(),
            default_output: None,
            default_input: None,
            listener_count: 0,
            set_device_calls: Vec::new(),
            should_fail_enumeration: false,
            should_fail_set_device: false,
        }
    }

    /// Adds a device at the end of the list.
    pub fn add_device(&mut self, device: AudioDevice)
        ensures
            final(self).devices@ == old(self).devices@.push(device),
            final(self).default_output == old(self).default_output,
            final(self).default_input == old(self).default_input,
            final(self).listener_count == old(self).listener_count,
            final(self).set_device_calls == old(self).set_device_calls,
            final(self).should_fail_enumeration == old(self).should_fail_enumeration,
            final(self).should_fail_set_device == old(self).should_fail_set_device,
    {
        self.devices.push(device);
    }

    /// Removes every device that goes by `device_id`.
    pub fn remove_device(&mut self, device_id: &str)
        ensures
            final(self).devices@ == old(self).devices@.filter(not_going_by(device_id@)),
            final(self).default_output == old(self).default_output,
            final(self).default_input == old(self).default_input,
            final(self).listener_count == old(self).listener_count,
            final(self).set_device_calls == old(self).set_device_calls,
            final(self).should_fail_enumeration == old(self).should_fail_enumeration,
            final(self).should_fail_set_device == old(self).should_fail_set_device,
    {
        let ghost all = self.devices@;
        let ghost test = not_going_by(device_id@);
        let mut kept: Vec<AudioDevice> = Vec::new();
        let mut index: usize = 0;
        proof {
            assert(all.take(0) == Seq::<AudioDevice>::empty());
            reveal(Seq::filter);
            assert(kept@ == all.take(0).filter(test));
        }
        while index < self.devices.len()
            invariant
                index <= self.devices@.len(),
                all == self.devices@,
                test == not_going_by(device_id@),
                *self == *old(self),
                kept@ == all.take(index as int).filter(test),
            decreases self.devices@.len() - index,
        {
            let device = &self.devices[index];
            let keep = !(equal_text(device.id.as_str(), device_id) || equal_text(
                device.name.as_str(),
                device_id,
            ));
            proof {
                assert(all.take(index + 1) == all.take(index as int).push(all[index as int]));
                all.take(index as int).lemma_filter_push(all[index as int], test);
                assert(keep == test(all[index as int]));
            }
            if keep {
                kept.push(device.clone());
            }
            index += 1;
        }
        proof {
            assert(all.take(all.len() as int) == all);
        }
        self.devices = kept;
    }

    /// Sets the default output.
    pub fn set_mock_default_output(&mut self, device: Option<AudioDevice>)
        ensures
            final(self).default_output == device,
            final(self).devices == old(self).devices,
            final(self).default_input == old(self).default_input,
            final(self).listener_count == old(self).listener_count,
            final(self).set_device_calls == old(self).set_device_calls,
            final(self).should_fail_enumeration == old(self).should_fail_enumeration,
            final(self).should_fail_set_device == old(self).should_fail_set_device,
    {
        self.default_output = device;
    }

    /// Sets the default input.
    pub fn set_mock_default_input(&mut self, device: Option<AudioDevice>)
        ensures
            final(self).default_input == device,
            final(self).devices == old(self).devices,
            final(self).default_output == old(self).default_output,
            final(self).listener_count == old(self).listener_count,
            final(self).set_device_calls == old(self).set_device_calls,
            final(self).should_fail_enumeration == old(self).should_fail_enumeration,
            final(self).should_fail_set_device == old(self).should_fail_set_device,
    {
        self.default_input = device;
    }

    /// The switches that were accepted so far.
    pub fn get_set_device_calls(&self) -> (calls: Vec<(String, String)>)
        ensures
            calls@ == self.set_device_calls@,
    {
        clone_pairs(&self.set_device_calls)
    }

    /// The names or ids of the switches of the output that were accepted
    /// so far.
    pub fn get_set_default_output_calls(&self) -> (calls: Vec<String>)
        ensures
            text_views(calls@) == calls_of(self.set_device_calls@, "output"@),
    {
        self.calls_for("output")
    }

    /// The names or ids of the switches of the input that were accepted
    /// so far.
    pub fn get_set_default_input_calls(&self) -> (calls: Vec<String>)
        ensures
            text_views(calls@) == calls_of(self.set_device_calls@, "input"@),
    {
        self.calls_for("input")
    }

    /// The names or ids of the accepted switches of one slot.
    fn calls_for(&self, slot: &str) -> (calls: Vec<String>)
        ensures
            text_views(calls@) == calls_of(self.set_device_calls@, slot@),
    {
        let ghost all = self.set_device_calls@;
        let mut calls: Vec<String> = Vec::new();
        let mut index: usize = 0;
        assert(text_views(calls@) =~= calls_of(all.take(0), slot@));
        while index < self.set_device_calls.len()
            invariant
                index <= self.set_device_calls@.len(),
                all == self.set_device_calls@,
                text_views(calls@) == calls_of(all.take(index as int), slot@),
            decreases self.set_device_calls@.len() - index,
        {
            let call = &self.set_device_calls[index];
            proof {
                assert(all.take(index + 1).drop_last() == all.take(index as int));
                assert(all.take(index + 1).last() == all[index as int]);
            }
            if equal_text(call.1.as_str(), slot) {
                let ghost before = calls@;
                calls.push(call.0.clone());
                assert(text_views(calls@) =~= text_views(before).push(call.0@));
            }
            index += 1;
        }
        assert(all.take(all.len() as int) == all);
        calls
    }

    /// Forgets the switches that were accepted so far.
    pub fn clear_set_device_calls(&mut self)
        ensures
            final(self).set_device_calls@.len() == 0,
            final(self).devices == old(self).devices,
            final(self).default_output == old(self).default_output,
            final(self).default_input == old(self).default_input,
            final(self).listener_count == old(self).listener_count,
            final(self).should_fail_enumeration == old(self).should_fail_enumeration,
            final(self).should_fail_set_device == old(self).should_fail_set_device,
    {
        self.set_device_calls = Vec::new();
    }

    /// Makes enumerations fail, or succeed again.
    pub fn set_enumeration_failure(&mut self, should_fail: bool)
        ensures
            final(self).should_fail_enumeration == should_fail,
            final(self).devices == old(self).devices,
            final(self).default_output == old(self).default_output,
            final(self).default_input == old(self).default_input,
            final(self).listener_count == old(self).listener_count,
            final(self).set_device_calls == old(self).set_device_calls,
            final(self).should_fail_set_device == old(self).should_fail_set_device,
    {
        self.should_fail_enumeration = should_fail;
    }

    /// Makes switches fail, or succeed again.
    pub fn set_device_setting_failure(&mut self, should_fail: bool)
        ensures
            final(self).should_fail_set_device == should_fail,
            final(self).devices == old(self).devices,
            final(self).default_output == old(self).default_output,
            final(self).default_input == old(self).default_input,
            final(self).listener_count == old(self).listener_count,
            final(self).set_device_calls == old(self).set_device_calls,
            final(self).should_fail_enumeration == old(self).should_fail_enumeration,
    {
        self.should_fail_set_device = should_fail;
    }

    /// How often reports of change have been asked for.
    pub fn callback_count(&self) -> (count: usize)
        ensures
            count == self.listener_count,
    {
        self.listener_count
    }

    /// Records an accepted switch and moves the default.
    fn accept_switch(&mut self, device_id: &str, output: bool)
        ensures
            switch_accepted(*old(self), *final(self), device_id@, output),
    {
        let slot = if output {
            "output"
        } else {
            "input"
        };
        let ghost before = self.set_device_calls@;
        self.set_device_calls.push((device_id.to_owned(), slot.to_owned()));
        assert(self.set_device_calls@.drop_last() == before);
        if let Some(at) = find_device(&self.devices, device_id) {
            let device = self.devices[at].clone();
            if output {
                self.default_output = Some(device);
            } else {
                self.default_input = Some(device);
            }
        }
    }
}

impl Clone for MockAudioSystem {
    fn clone(&self) -> (copy: Self)
        ensures
            copy.devices@ == self.devices@,
            copy.default_output == self.default_output,
            copy.default_input == self.default_input,
            copy.listener_count == self.listener_count,
            copy.set_device_calls@ == self.set_device_calls@,
            copy.should_fail_enumeration == self.should_fail_enumeration,
            copy.should_fail_set_device == self.should_fail_set_device,
    {
        MockAudioSystem {
            devices: clone_devices(self.devices.as_slice()),
            default_output: match &self.default_output {
                Some(device) => Some(device.clone()),
                None => None,
            },
            default_input: match &self.default_input {
                Some(device) => Some(device.clone()),
                None => None,
            },
            listener_count: self.listener_count,
            set_device_calls: clone_pairs(&self.set_device_calls),
            should_fail_enumeration: self.should_fail_enumeration,
            should_fail_set_device: self.should_fail_set_device,
        }
    }
}

impl Default for MockAudioSystem {
    fn default() -> (system: Self)
        ensures
            system.devices@.len() == 0,
    {
        Self::new()
    }
}

impl AudioSystemInterface for MockAudioSystem {
    /// The devices that were added, unless enumerations fail.
    fn enumerate_devices(&self) -> (devices: Result<Vec<AudioDevice>, MonitorError>)
        ensures
            self.should_fail_enumeration ==> devices is Err,
            !self.should_fail_enumeration ==> (devices matches Ok(devices) && devices@
                == self.devices@),
    {
        if self.should_fail_enumeration {
            return Err(MonitorError::new(ErrorKind::Enumeration, "Mock enumeration failure"));
        }
        Ok(clone_devices(self.devices.as_slice()))
    }

    /// The default output that was set.
    fn get_default_output_device(&self) -> (device: Result<Option<AudioDevice>, MonitorError>)
        ensures
            device matches Ok(device) && device == self.default_output,
    {
        Ok(
            match &self.default_output {
                Some(device) => Some(device.clone()),
                None => None,
            },
        )
    }

    /// The default input that was set.
    fn get_default_input_device(&self) -> (device: Result<Option<AudioDevice>, MonitorError>)
        ensures
            device matches Ok(device) && device == self.default_input,
    {
        Ok(
            match &self.default_input {
                Some(device) => Some(device.clone()),
                None => None,
            },
        )
    }

    /// Records the switch and, where a device goes by `device_id`, makes
    /// the first such device the default output; fails where switches
    /// fail.
    fn set_default_output_device(&mut self, device_id: &str) -> (set: Result<(), MonitorError>)
        ensures
            old(self).should_fail_set_device ==> set is Err && *final(self) == *old(self),
            !old(self).should_fail_set_device ==> set is Ok && switch_accepted(
                *old(self),
                *final(self),
                device_id@,
                true,
            ),
    {
        if self.should_fail_set_device {
            return Err(MonitorError::new(ErrorKind::SetDefault, "Mock set device failure"));
        }
        self.accept_switch(device_id, true);
        Ok(())
    }

    /// Records the switch and, where a device goes by `device_id`, makes
    /// the first such device the default input; fails where switches
    /// fail.
    fn set_default_input_device(&mut self, device_id: &str) -> (set: Result<(), MonitorError>)
        ensures
            old(self).should_fail_set_device ==> set is Err && *final(self) == *old(self),
            !old(self).should_fail_set_device ==> set is Ok && switch_accepted(
                *old(self),
                *final(self),
                device_id@,
                false,
            ),
    {
        if self.should_fail_set_device {
            return Err(MonitorError::new(ErrorKind::SetDefault, "Mock set device failure"));
        }
        self.accept_switch(device_id, false);
        Ok(())
    }

    /// Counts the request.
    fn add_device_change_listener(&mut self) -> (added: Result<(), MonitorError>)
        ensures
            added is Ok,
            old(self).listener_count < usize::MAX
                ==> final(self).listener_count == old(self).listener_count + 1,
            old(self).listener_count == usize::MAX ==> final(self).listener_count == usize::MAX,
            final(self).devices == old(self).devices,
            final(self).default_output == old(self).default_output,
            final(self).default_input == old(self).default_input,
            final(self).set_device_calls == old(self).set_device_calls,
            final(self).should_fail_enumeration == old(self).should_fail_enumeration,
            final(self).should_fail_set_device == old(self).should_fail_set_device,
    {
        if self.listener_count < usize::MAX {
            self.listener_count += 1;
        }
        Ok(())
    }

    /// Whether a device that was added goes by `device_id`.
    fn is_device_available(&self, device_id: &str) -> (available: Result<bool, MonitorError>)
        ensures
            available matches Ok(available) && available == some_goes_by(
                self.devices@,
                device_id@,
            ),
    {
        Ok(find_device(&self.devices, device_id).is_some())
    }
}

/// The content that a list of files holds for `path`: that of the first
/// file of that path.
pub open spec fn file_content(files: Seq<(String, String)>, path: Seq<char>) -> Option<Seq<char>>
    decreases files.len(),
{
    if files.len() == 0 {
        None
    } else if files[0].0@ == path {
        Some(files[0].1@)
    } else {
        file_content(files.drop_first(), path)
    }
}

/// A file system that keeps its files in memory.
#[derive(Debug)]
pub struct MockFileSystem {
    /// The files: path and content. No path occurs twice.
    pub files: Vec<(String, String)>,
    /// The paths that were read, in order.
    pub read_calls: Vec<String>,
    /// The paths and contents that were written, in order.
    pub write_calls: Vec<(String, String)>,
    /// The directories that were to be created, in order.
    pub directory_creation_calls: Vec<String>,
    /// Whether reading fails.
    pub should_fail_read: bool,
    /// Whether writing fails.
    pub should_fail_write: bool,
    /// Whether creating directories fails.
    pub should_fail_create_dir: bool,
    /// The time of the last change that is reported for every file.
    pub modified_time_ms: u64,
}

/// The time of the last change that a new [`MockFileSystem`] reports, in
/// milliseconds.
pub const MOCK_MODIFIED_TIME_MS: u64 = 1_000_000;

impl MockFileSystem {
    /// A file system without files in which nothing fails.
    pub fn new() -> (file_system: Self)
        ensures
            file_system.files@.len() == 0,
            file_system.read_calls@.len() == 0,
            file_system.write_calls@.len() == 0,
            file_system.directory_creation_calls@.len() == 0,
            !file_system.should_fail_read,
            !file_system.should_fail_write,
            !file_system.should_fail_create_dir,
            file_system.modified_time_ms == MOCK_MODIFIED_TIME_MS,
    {
        Self {
            files: Vec::new(),
            read_calls: Vec::new(),
            write_calls: Vec::new(),
            directory_creation_calls: Vec::new(),
            should_fail_read: false,
            should_fail_write: false,
            should_fail_create_dir: false,
            modified_time_ms: MOCK_MODIFIED_TIME_MS,
        }
    }

    /// The position of the file at `path`.
    fn position(&self, path: &str) -> (found: Option<usize>)
        ensures
            match found {
                Some(at) => first_file_at(self.files@, path@, at as int),
                None => !holds_file(self.files@, path@),
            },
    {
        let mut index: usize = 0;
        while index < self.files.len()
            invariant
                index <= self.files@.len(),
                forall|k: int| 0 <= k < index ==> (#[trigger] self.files@[k]).0@ != path@,
            decreases self.files@.len() - index,
        {
            if equal_text(self.files[index].0.as_str(), path) {
                return Some(index);
            }
            index += 1;
        }
        None
    }

    /// Puts a file with this content at `path`, in place of the one that
    /// may be there, and moves the time of the last change forward.
    pub fn add_file(&mut self, path: &str, content: String)
        ensures
            files_with(old(self).files@, final(self).files@, path@, content@),
            final(self).should_fail_read == old(self).should_fail_read,
            final(self).should_fail_write == old(self).should_fail_write,
            final(self).should_fail_create_dir == old(self).should_fail_create_dir,
            holds_file(final(self).files@, path@),
            final(self).read_calls == old(self).read_calls,
            final(self).write_calls == old(self).write_calls,
            final(self).directory_creation_calls == old(self).directory_creation_calls,
            final(self).modified_time_ms >= old(self).modified_time_ms,
            old(self).modified_time_ms < u64::MAX
                ==> final(self).modified_time_ms == old(self).modified_time_ms + 1,
    {
        self.modified_time_ms = self.modified_time_ms.saturating_add(1);
        let ghost before = self.files@;
        match self.position(path) {
            Some(at) => {
                self.files.set(at, (path.to_owned(), content));
                assert(self.files@[at as int].0@ == path@);
                assert forall|first: int| #[trigger]
                    first_file_at(before, path@, first) implies first == at by {
                    if first < at {
                        assert(before[first].0@ != path@);
                    }
                    if at < first {
                        assert(before[at as int].0@ != path@);
                    }
                }
            },
            None => {
                self.files.push((path.to_owned(), content));
                assert(self.files@[self.files@.len() - 1].0@ == path@);
                assert(self.files@.drop_last() == before);
            },
        }
    }

    /// Removes the file at `path`, if there is one. Everything else
    /// stays as it is.
    pub fn remove_file(&mut self, path: &str)
        ensures
            !holds_file(old(self).files@, path@) ==> final(self).files@ == old(self).files@,
            forall|at: int|
                first_file_at(old(self).files@, path@, at)
                    ==> final(self).files@ == old(self).files@.remove(at),
            final(self).read_calls == old(self).read_calls,
            final(self).write_calls == old(self).write_calls,
            final(self).directory_creation_calls == old(self).directory_creation_calls,
            final(self).should_fail_read == old(self).should_fail_read,
            final(self).should_fail_write == old(self).should_fail_write,
            final(self).should_fail_create_dir == old(self).should_fail_create_dir,
            final(self).modified_time_ms == old(self).modified_time_ms,
    {
        if let Some(at) = self.position(path) {
            self.files.remove(at);
        }
    }

    /// The paths that were read so far.
    pub fn get_read_calls(&self) -> (calls: Vec<String>)
        ensures
            calls@ == self.read_calls@,
    {
        clone_texts(&self.read_calls)
    }

    /// The paths and contents that were written so far.
    pub fn get_write_calls(&self) -> (calls: Vec<(String, String)>)
        ensures
            calls@ == self.write_calls@,
    {
        clone_pairs(&self.write_calls)
    }

    /// The directories that were to be created so far.
    pub fn get_directory_creation_calls(&self) -> (calls: Vec<String>)
        ensures
            calls@ == self.directory_creation_calls@,
    {
        clone_texts(&self.directory_creation_calls)
    }

    /// Forgets what was read, written and created so far.
    pub fn clear_call_history(&mut self)
        ensures
            final(self).should_fail_read == old(self).should_fail_read,
            final(self).should_fail_write == old(self).should_fail_write,
            final(self).should_fail_create_dir == old(self).should_fail_create_dir,
            final(self).modified_time_ms == old(self).modified_time_ms,
            final(self).read_calls@.len() == 0,
            final(self).write_calls@.len() == 0,
            final(self).directory_creation_calls@.len() == 0,
            final(self).files == old(self).files,
    {
        self.read_calls = Vec::new();
        self.write_calls = Vec::new();
        self.directory_creation_calls = Vec::new();
    }

    /// Makes reading fail, or succeed again.
    pub fn set_read_failure(&mut self, should_fail: bool)
        ensures
            final(self).read_calls == old(self).read_calls,
            final(self).write_calls == old(self).write_calls,
            final(self).directory_creation_calls == old(self).directory_creation_calls,
            final(self).should_fail_write == old(self).should_fail_write,
            final(self).should_fail_create_dir == old(self).should_fail_create_dir,
            final(self).modified_time_ms == old(self).modified_time_ms,
            final(self).should_fail_read == should_fail,
            final(self).files == old(self).files,
    {
        self.should_fail_read = should_fail;
    }

    /// Makes writing fail, or succeed again.
    pub fn set_write_failure(&mut self, should_fail: bool)
        ensures
            final(self).read_calls == old(self).read_calls,
            final(self).write_calls == old(self).write_calls,
            final(self).directory_creation_calls == old(self).directory_creation_calls,
            final(self).should_fail_read == old(self).should_fail_read,
            final(self).should_fail_create_dir == old(self).should_fail_create_dir,
            final(self).modified_time_ms == old(self).modified_time_ms,
            final(self).should_fail_write == should_fail,
            final(self).files == old(self).files,
    {
        self.should_fail_write = should_fail;
    }

    /// Makes creating directories fail, or succeed again.
    pub fn set_create_dir_failure(&mut self, should_fail: bool)
        ensures
            final(self).read_calls == old(self).read_calls,
            final(self).write_calls == old(self).write_calls,
            final(self).directory_creation_calls == old(self).directory_creation_calls,
            final(self).should_fail_read == old(self).should_fail_read,
            final(self).should_fail_write == old(self).should_fail_write,
            final(self).modified_time_ms == old(self).modified_time_ms,
            final(self).should_fail_create_dir == should_fail,
            final(self).files == old(self).files,
    {
        self.should_fail_create_dir = should_fail;
    }

    /// Sets the time of the last change that is reported for every file.
    pub fn set_modified_time(&mut self, modified_time_ms: u64)
        ensures
            final(self).read_calls == old(self).read_calls,
            final(self).write_calls == old(self).write_calls,
            final(self).directory_creation_calls == old(self).directory_creation_calls,
            final(self).should_fail_read == old(self).should_fail_read,
            final(self).should_fail_write == old(self).should_fail_write,
            final(self).should_fail_create_dir == old(self).should_fail_create_dir,
            final(self).modified_time_ms == modified_time_ms,
            final(self).files == old(self).files,
    {
        self.modified_time_ms = modified_time_ms;
    }

    /// Whether there is a file at `path`.
    pub fn file_exists(&self, path: &str) -> (exists: bool)
        ensures
            exists == holds_file(self.files@, path@),
    {
        self.position(path).is_some()
    }
}

impl Clone for MockFileSystem {
    fn clone(&self) -> (copy: Self)
        ensures
            copy.files@ == self.files@,
            copy.read_calls@ == self.read_calls@,
            copy.write_calls@ == self.write_calls@,
            copy.directory_creation_calls@ == self.directory_creation_calls@,
            copy.should_fail_read == self.should_fail_read,
            copy.should_fail_write == self.should_fail_write,
            copy.should_fail_create_dir == self.should_fail_create_dir,
            copy.modified_time_ms == self.modified_time_ms,
    {
        MockFileSystem {
            files: clone_pairs(&self.files),
            read_calls: clone_texts(&self.read_calls),
            write_calls: clone_pairs(&self.write_calls),
            directory_creation_calls: clone_texts(&self.directory_creation_calls),
            should_fail_read: self.should_fail_read,
            should_fail_write: self.should_fail_write,
            should_fail_create_dir: self.should_fail_create_dir,
            modified_time_ms: self.modified_time_ms,
        }
    }
}

impl Default for MockFileSystem {
    fn default() -> (file_system: Self)
        ensures
            file_system.files@.len() == 0,
    {
        Self::new()
    }
}

impl FileSystemInterface for MockFileSystem {
    /// Records the path; then the content of the file, unless reading
    /// fails or there is no such file.
    fn read_config_file(&mut self, path: &str) -> (content: Result<String, MonitorError>)
        ensures
            final(self).files == old(self).files,
            final(self).read_calls@ == old(self).read_calls@.push(
                final(self).read_calls@.last(),
            ),
            final(self).read_calls@.last()@ == path@,
            final(self).write_calls == old(self).write_calls,
            final(self).directory_creation_calls == old(self).directory_creation_calls,
            final(self).should_fail_read == old(self).should_fail_read,
            final(self).should_fail_write == old(self).should_fail_write,
            final(self).should_fail_create_dir == old(self).should_fail_create_dir,
            final(self).modified_time_ms == old(self).modified_time_ms,
            old(self).should_fail_read ==> content is Err,
            !old(self).should_fail_read && !holds_file(old(self).files@, path@) ==> content is Err,
            !old(self).should_fail_read ==> forall|at: int| #[trigger]
                first_file_at(old(self).files@, path@, at) ==> (content matches Ok(text) && text@
                    == old(self).files@[at].1@),
    {
        self.read_calls.push(path.to_owned());
        if self.should_fail_read {
            return Err(MonitorError::new(ErrorKind::Config, "Mock read failure"));
        }
        match self.position(path) {
            Some(at) => Ok(self.files[at].1.clone()),
            None => Err(MonitorError::with_detail(ErrorKind::Config, "File not found: ", path)),
        }
    }

    /// Records the path and the content; then puts the file, unless
    /// writing fails.
    fn write_config_file(&mut self, path: &str, content: &str) -> (written: Result<
        (),
        MonitorError,
    >)
        ensures
            final(self).write_calls@.len() == old(self).write_calls@.len() + 1,
            final(self).write_calls@.drop_last() == old(self).write_calls@,
            final(self).write_calls@.last().0@ == path@,
            final(self).write_calls@.last().1@ == content@,
            final(self).read_calls == old(self).read_calls,
            final(self).directory_creation_calls == old(self).directory_creation_calls,
            final(self).should_fail_read == old(self).should_fail_read,
            final(self).should_fail_write == old(self).should_fail_write,
            final(self).should_fail_create_dir == old(self).should_fail_create_dir,
            old(self).should_fail_write ==> written is Err && final(self).files == old(self).files
                && final(self).modified_time_ms == old(self).modified_time_ms,
            !old(self).should_fail_write ==> written is Ok && files_with(
                old(self).files@,
                final(self).files@,
                path@,
                content@,
            ),
    {
        let ghost calls = self.write_calls@;
        self.write_calls.push((path.to_owned(), content.to_owned()));
        assert(self.write_calls@.drop_last() == calls);
        if self.should_fail_write {
            return Err(MonitorError::new(ErrorKind::Config, "Mock write failure"));
        }
        self.add_file(path, content.to_owned());
        Ok(())
    }

    /// Whether there is a file at `path`.
    fn config_file_exists(&self, path: &str) -> (exists: bool)
        ensures
            exists == holds_file(self.files@, path@),
    {
        self.file_exists(path)
    }

    /// Records the directory; fails where creating directories fails.
    fn create_config_dir(&mut self, path: &str) -> (created: Result<(), MonitorError>)
        ensures
            final(self).read_calls == old(self).read_calls,
            final(self).write_calls == old(self).write_calls,
            final(self).should_fail_read == old(self).should_fail_read,
            final(self).should_fail_write == old(self).should_fail_write,
            final(self).should_fail_create_dir == old(self).should_fail_create_dir,
            final(self).modified_time_ms == old(self).modified_time_ms,
            final(self).files == old(self).files,
            final(self).directory_creation_calls@.len() == old(self).directory_creation_calls@.len()
                + 1,
            final(self).directory_creation_calls@.drop_last() == old(self).directory_creation_calls@,
            final(self).directory_creation_calls@.last()@ == path@,
            created is Err <==> old(self).should_fail_create_dir,
    {
        let ghost calls = self.directory_creation_calls@;
        self.directory_creation_calls.push(path.to_owned());
        assert(self.directory_creation_calls@.drop_last() == calls);
        if self.should_fail_create_dir {
            return Err(MonitorError::new(ErrorKind::Config, "Mock create directory failure"));
        }
        Ok(())
    }

    /// The time that was set, for a file that is there.
    fn get_config_modified_time(&self, path: &str) -> (modified: Result<u64, MonitorError>)
        ensures
            holds_file(self.files@, path@) ==> modified == Ok::<u64, MonitorError>(
                self.modified_time_ms,
            ),
            !holds_file(self.files@, path@) ==> (modified matches Err(error) && error.kind
                == ErrorKind::Config),
    {
        if !self.file_exists(path) {
            return Err(MonitorError::with_detail(ErrorKind::Config, "File not found: ", path));
        }
        Ok(self.modified_time_ms)
    }
}

/// A host whose clock, signals and event loop are driven by hand.
#[derive(Debug)]
pub struct MockSystemService {
    /// Whether the service has not been asked to stop.
    pub should_run: bool,
    /// Whether the signal handlers were registered.
    pub signal_handler_registered: bool,
    /// How many quanta of the event loop were run.
    pub event_loop_calls: usize,
    /// The waits that were asked for, in order.
    pub sleep_calls: Vec<u64>,
    /// Whether registering the signal handlers fails.
    pub should_fail_signal_registration: bool,
    /// Whether the event loop fails.
    pub should_fail_event_loop: bool,
    /// Whether a reload has been asked for.
    pub reload_requested: bool,
    /// The reading of the clock.
    pub clock_ms: u64,
    /// The number of quanta after which the service is asked to stop, if
    /// there is one.
    pub event_loop_limit: Option<usize>,
}

/// The process id that a [`MockSystemService`] reports.
pub const MOCK_PROCESS_ID: u32 = 12345;

impl MockSystemService {
    /// A host that runs, at whose clock no time has passed.
    pub fn new() -> (service: Self)
        ensures
            service.should_run,
            !service.signal_handler_registered,
            service.event_loop_calls == 0,
            service.sleep_calls@.len() == 0,
            !service.should_fail_signal_registration,
            !service.should_fail_event_loop,
            !service.reload_requested,
            service.clock_ms == 0,
            service.event_loop_limit is None,
    {
        Self {
            should_run: true,
            signal_handler_registered: false,
            event_loop_calls: 0,
            sleep_calls: Vec::new(),
            should_fail_signal_registration: false,
            should_fail_event_loop: false,
            reload_requested: false,
            clock_ms: 0,
            event_loop_limit: None,
        }
    }

    /// Asks the service to stop, as a termination signal does.
    pub fn stop_service(&mut self)
        ensures
            final(self).signal_handler_registered == old(self).signal_handler_registered,
            final(self).event_loop_calls == old(self).event_loop_calls,
            final(self).sleep_calls == old(self).sleep_calls,
            final(self).should_fail_signal_registration == old(self).should_fail_signal_registration,
            final(self).should_fail_event_loop == old(self).should_fail_event_loop,
            final(self).reload_requested == old(self).reload_requested,
            final(self).clock_ms == old(self).clock_ms,
            final(self).event_loop_limit == old(self).event_loop_limit,
            !final(self).should_run,
    {
        self.should_run = false;
    }

    /// Lets the service run again.
    pub fn start_service(&mut self)
        ensures
            final(self).signal_handler_registered == old(self).signal_handler_registered,
            final(self).event_loop_calls == old(self).event_loop_calls,
            final(self).sleep_calls == old(self).sleep_calls,
            final(self).should_fail_signal_registration == old(self).should_fail_signal_registration,
            final(self).should_fail_event_loop == old(self).should_fail_event_loop,
            final(self).reload_requested == old(self).reload_requested,
            final(self).clock_ms == old(self).clock_ms,
            final(self).event_loop_limit == old(self).event_loop_limit,
            final(self).should_run,
    {
        self.should_run = true;
    }

    /// Asks the service to stop once `limit` quanta of the event loop
    /// have been run.
    pub fn stop_after(&mut self, limit: usize)
        ensures
            final(self).signal_handler_registered == old(self).signal_handler_registered,
            final(self).event_loop_calls == old(self).event_loop_calls,
            final(self).sleep_calls == old(self).sleep_calls,
            final(self).should_fail_signal_registration == old(self).should_fail_signal_registration,
            final(self).should_fail_event_loop == old(self).should_fail_event_loop,
            final(self).reload_requested == old(self).reload_requested,
            final(self).clock_ms == old(self).clock_ms,
            final(self).event_loop_limit == Some(limit),
            final(self).should_run == old(self).should_run,
    {
        self.event_loop_limit = Some(limit);
    }

    /// Asks for a reload, as a hang-up signal does.
    pub fn request_reload(&mut self)
        ensures
            final(self).should_run == old(self).should_run,
            final(self).signal_handler_registered == old(self).signal_handler_registered,
            final(self).event_loop_calls == old(self).event_loop_calls,
            final(self).sleep_calls == old(self).sleep_calls,
            final(self).should_fail_signal_registration == old(self).should_fail_signal_registration,
            final(self).should_fail_event_loop == old(self).should_fail_event_loop,
            final(self).clock_ms == old(self).clock_ms,
            final(self).event_loop_limit == old(self).event_loop_limit,
            final(self).reload_requested,
    {
        self.reload_requested = true;
    }

    /// Moves the clock forward. The clock stops at its highest reading.
    pub fn advance_clock(&mut self, milliseconds: u64)
        ensures
            final(self).should_run == old(self).should_run,
            final(self).signal_handler_registered == old(self).signal_handler_registered,
            final(self).event_loop_calls == old(self).event_loop_calls,
            final(self).sleep_calls == old(self).sleep_calls,
            final(self).should_fail_signal_registration == old(self).should_fail_signal_registration,
            final(self).should_fail_event_loop == old(self).should_fail_event_loop,
            final(self).reload_requested == old(self).reload_requested,
            final(self).event_loop_limit == old(self).event_loop_limit,
            final(self).clock_ms >= old(self).clock_ms,
            old(self).clock_ms + milliseconds <= u64::MAX
                ==> final(self).clock_ms == old(self).clock_ms + milliseconds,
    {
        self.clock_ms = self.clock_ms.saturating_add(milliseconds);
    }

    /// Whether the signal handlers were registered.
    pub fn are_signal_handlers_registered(&self) -> (registered: bool)
        ensures
            registered == self.signal_handler_registered,
    {
        self.signal_handler_registered
    }

    /// How many quanta of the event loop were run.
    pub fn get_event_loop_call_count(&self) -> (count: usize)
        ensures
            count == self.event_loop_calls,
    {
        self.event_loop_calls
    }

    /// The waits that were asked for so far.
    pub fn get_sleep_calls(&self) -> (calls: Vec<u64>)
        ensures
            calls@ == self.sleep_calls@,
    {
        self.sleep_calls.clone()
    }

    /// Forgets the waits that were asked for so far.
    pub fn clear_sleep_calls(&mut self)
        ensures
            final(self).should_run == old(self).should_run,
            final(self).signal_handler_registered == old(self).signal_handler_registered,
            final(self).event_loop_calls == old(self).event_loop_calls,
            final(self).should_fail_signal_registration == old(self).should_fail_signal_registration,
            final(self).should_fail_event_loop == old(self).should_fail_event_loop,
            final(self).reload_requested == old(self).reload_requested,
            final(self).clock_ms == old(self).clock_ms,
            final(self).event_loop_limit == old(self).event_loop_limit,
            final(self).sleep_calls@.len() == 0,
    {
        self.sleep_calls = Vec::new();
    }

    /// Makes the registration of signal handlers fail, or succeed again.
    pub fn set_signal_registration_failure(&mut self, should_fail: bool)
        ensures
            final(self).should_run == old(self).should_run,
            final(self).signal_handler_registered == old(self).signal_handler_registered,
            final(self).event_loop_calls == old(self).event_loop_calls,
            final(self).sleep_calls == old(self).sleep_calls,
            final(self).should_fail_event_loop == old(self).should_fail_event_loop,
            final(self).reload_requested == old(self).reload_requested,
            final(self).clock_ms == old(self).clock_ms,
            final(self).event_loop_limit == old(self).event_loop_limit,
            final(self).should_fail_signal_registration == should_fail,
    {
        self.should_fail_signal_registration = should_fail;
    }

    /// Makes the event loop fail, or succeed again.
    pub fn set_event_loop_failure(&mut self, should_fail: bool)
        ensures
            final(self).should_run == old(self).should_run,
            final(self).signal_handler_registered == old(self).signal_handler_registered,
            final(self).event_loop_calls == old(self).event_loop_calls,
            final(self).sleep_calls == old(self).sleep_calls,
            final(self).should_fail_signal_registration == old(self).should_fail_signal_registration,
            final(self).reload_requested == old(self).reload_requested,
            final(self).clock_ms == old(self).clock_ms,
            final(self).event_loop_limit == old(self).event_loop_limit,
            final(self).should_fail_event_loop == should_fail,
    {
        self.should_fail_event_loop = should_fail;
    }

    /// Brings the host back to where it started. The clock keeps its
    /// reading.
    pub fn reset(&mut self)
        ensures
            !final(self).reload_requested,
            final(self).event_loop_limit is None,
            final(self).should_run,
            !final(self).signal_handler_registered,
            final(self).event_loop_calls == 0,
            final(self).sleep_calls@.len() == 0,
            !final(self).should_fail_signal_registration,
            !final(self).should_fail_event_loop,
            final(self).clock_ms == old(self).clock_ms,
    {
        self.should_run = true;
        self.signal_handler_registered = false;
        self.event_loop_calls = 0;
        self.sleep_calls = Vec::new();
        self.should_fail_signal_registration = false;
        self.should_fail_event_loop = false;
        self.reload_requested = false;
        self.event_loop_limit = None;
    }
}

impl Clone for MockSystemService {
    fn clone(&self) -> (copy: Self)
        ensures
            copy.should_run == self.should_run,
            copy.signal_handler_registered == self.signal_handler_registered,
            copy.event_loop_calls == self.event_loop_calls,
            copy.sleep_calls@ == self.sleep_calls@,
            copy.should_fail_signal_registration == self.should_fail_signal_registration,
            copy.should_fail_event_loop == self.should_fail_event_loop,
            copy.reload_requested == self.reload_requested,
            copy.clock_ms == self.clock_ms,
            copy.event_loop_limit == self.event_loop_limit,
    {
        MockSystemService {
            should_run: self.should_run,
            signal_handler_registered: self.signal_handler_registered,
            event_loop_calls: self.event_loop_calls,
            sleep_calls: self.sleep_calls.clone(),
            should_fail_signal_registration: self.should_fail_signal_registration,
            should_fail_event_loop: self.should_fail_event_loop,
            reload_requested: self.reload_requested,
            clock_ms: self.clock_ms,
            event_loop_limit: self.event_loop_limit,
        }
    }
}

impl Default for MockSystemService {
    fn default() -> (service: Self)
        ensures
            service.should_run,
    {
        Self::new()
    }
}

impl SystemServiceInterface for MockSystemService {
    /// Records the registration, unless it fails.
    fn register_signal_handlers(&mut self) -> (registered: Result<(), MonitorError>)
        ensures
            final(self).should_run == old(self).should_run,
            final(self).event_loop_calls == old(self).event_loop_calls,
            final(self).sleep_calls == old(self).sleep_calls,
            final(self).should_fail_signal_registration == old(self).should_fail_signal_registration,
            final(self).should_fail_event_loop == old(self).should_fail_event_loop,
            final(self).reload_requested == old(self).reload_requested,
            final(self).clock_ms == old(self).clock_ms,
            final(self).event_loop_limit == old(self).event_loop_limit,
            registered is Err <==> old(self).should_fail_signal_registration,
            registered is Ok ==> final(self).signal_handler_registered,
            registered is Err
                ==> final(self).signal_handler_registered == old(self).signal_handler_registered,
    {
        if self.should_fail_signal_registration {
            return Err(MonitorError::new(ErrorKind::System, "Mock signal registration failure"));
        }
        self.signal_handler_registered = true;
        Ok(())
    }

    /// Counts the quantum, unless the event loop fails.
    fn run_event_loop(&mut self) -> (ran: Result<(), MonitorError>)
        ensures
            final(self).should_run == old(self).should_run,
            final(self).signal_handler_registered == old(self).signal_handler_registered,
            ran is Err ==> final(self).event_loop_calls == old(self).event_loop_calls,
            ran is Ok && old(self).event_loop_calls < usize::MAX ==> final(self).event_loop_calls
                == old(self).event_loop_calls + 1,
            ran is Ok && old(self).event_loop_calls == usize::MAX ==> final(self).event_loop_calls
                == usize::MAX,
            final(self).sleep_calls == old(self).sleep_calls,
            final(self).should_fail_signal_registration == old(self).should_fail_signal_registration,
            final(self).should_fail_event_loop == old(self).should_fail_event_loop,
            final(self).reload_requested == old(self).reload_requested,
            final(self).clock_ms == old(self).clock_ms,
            final(self).event_loop_limit == old(self).event_loop_limit,
            ran is Err <==> old(self).should_fail_event_loop,
    {
        if self.should_fail_event_loop {
            return Err(MonitorError::new(ErrorKind::System, "Mock event loop failure"));
        }
        if self.event_loop_calls < usize::MAX {
            self.event_loop_calls += 1;
        }
        Ok(())
    }

    /// Whether the service has not been asked to stop and has not run
    /// its limit of quanta.
    fn should_continue_running(&self) -> (running: bool)
        ensures
            running == (self.should_run && match self.event_loop_limit {
                Some(limit) => self.event_loop_calls < limit,
                None => true,
            }),
    {
        self.should_run && match self.event_loop_limit {
            Some(limit) => self.event_loop_calls < limit,
            None => true,
        }
    }

    /// Records the wait and moves the clock forward by it.
    fn sleep_ms(&mut self, milliseconds: u64) -> (slept: Result<(), MonitorError>)
        ensures
            final(self).should_run == old(self).should_run,
            final(self).signal_handler_registered == old(self).signal_handler_registered,
            final(self).event_loop_calls == old(self).event_loop_calls,
            final(self).should_fail_signal_registration == old(self).should_fail_signal_registration,
            final(self).should_fail_event_loop == old(self).should_fail_event_loop,
            final(self).reload_requested == old(self).reload_requested,
            final(self).event_loop_limit == old(self).event_loop_limit,
            slept is Ok,
            final(self).sleep_calls@ == old(self).sleep_calls@.push(milliseconds),
            old(self).clock_ms + milliseconds <= u64::MAX
                ==> final(self).clock_ms == old(self).clock_ms + milliseconds,
            old(self).clock_ms + milliseconds > u64::MAX ==> final(self).clock_ms == u64::MAX,
    {
        self.sleep_calls.push(milliseconds);
        self.clock_ms = self.clock_ms.saturating_add(milliseconds);
        Ok(())
    }

    /// A fixed process id.
    fn get_process_id(&self) -> (id: u32)
        ensures
            id == MOCK_PROCESS_ID,
    {
        MOCK_PROCESS_ID
    }

    /// Whether a reload has been asked for; the request is cleared.
    fn is_config_reload_requested(&mut self) -> (requested: bool)
        ensures
            final(self).should_run == old(self).should_run,
            final(self).signal_handler_registered == old(self).signal_handler_registered,
            final(self).event_loop_calls == old(self).event_loop_calls,
            final(self).sleep_calls == old(self).sleep_calls,
            final(self).should_fail_signal_registration == old(self).should_fail_signal_registration,
            final(self).should_fail_event_loop == old(self).should_fail_event_loop,
            final(self).clock_ms == old(self).clock_ms,
            final(self).event_loop_limit == old(self).event_loop_limit,
            requested == old(self).reload_requested,
            !final(self).reload_requested,
    {
        let requested = self.reload_requested;
        self.reload_requested = false;
        requested
    }

    /// The reading of the clock.
    fn now_ms(&self) -> (now: u64)
        ensures
            now == self.clock_ms,
    {
        self.clock_ms
    }
}

} // verus!
