//! The stability filter.
//!
//! A wireless peripheral often announces its output endpoint and its
//! input endpoint at different moments. A device that has just appeared is
//! therefore not a candidate for switching until it has been visible for
//! a while, and a wireless one not before both of its endpoints are
//! there.

use crate::audio::device::{device_views, AudioDevice, DeviceType, DeviceView, Direction};
use crate::text::{
    before_first, contains, contains_text, lowercase, lowercase_of, prefix_before, trim,
    trimmed_text,
};
use vstd::prelude::*;

verus! {

/// How long a device must have been visible before it counts as stable,
/// in milliseconds.
pub const DEVICE_STABILITY_THRESHOLD_MS: u64 = 750;

/// How long a wireless device must have been visible before it counts as
/// stable, in milliseconds.
pub const BLUETOOTH_DEVICE_STABILITY_THRESHOLD_MS: u64 = 1500;

/// Whether a text in lower case holds one of the words by which
/// wireless peripherals are known.
pub open spec fn holds_wireless_word(lowered: Seq<char>) -> bool {
    ||| contains_text(lowered, "airpod"@)
    ||| contains_text(lowered, "bluetooth"@)
    ||| contains_text(lowered, "beats"@)
    ||| contains_text(lowered, "bose"@)
    ||| contains_text(lowered, "sony"@)
    ||| contains_text(lowered, "jabra"@)
    ||| contains_text(lowered, "jbl"@)
}

/// Whether a device name is that of a wireless peripheral: whether its
/// lower-case form holds one of the known words.
pub open spec fn is_wireless_name(device_name: Seq<char>) -> bool {
    holds_wireless_word(lowercase_of(device_name))
}

/// The time a device named `device_name` must have been visible.
pub open spec fn stability_threshold(device_name: Seq<char>) -> u64 {
    if is_wireless_name(device_name) {
        BLUETOOTH_DEVICE_STABILITY_THRESHOLD_MS
    } else {
        DEVICE_STABILITY_THRESHOLD_MS
    }
}

/// The name that the endpoints of one peripheral share: what stands
/// before the first `-` of a device name, without the white space around
/// it.
pub open spec fn base_name(device_name: Seq<char>) -> Seq<char> {
    trimmed_text(prefix_before(device_name, '-'))
}

/// Whether some device in the list fits the slot `direction` and has
/// `name_part` in its name.
pub open spec fn has_endpoint(
    devices: Seq<DeviceView>,
    name_part: Seq<char>,
    direction: Direction,
) -> bool {
    exists|k: int|
        0 <= k < devices.len() && endpoint_matches(#[trigger] devices[k], name_part, direction)
}

/// The type of the endpoint of a peripheral for the slot `direction`. A
/// device that both plays and records is no endpoint of a pair.
pub open spec fn endpoint_type(direction: Direction) -> DeviceType {
    match direction {
        Direction::Output => DeviceType::Output,
        Direction::Input => DeviceType::Input,
    }
}

/// Whether a device is the endpoint of a peripheral for the slot
/// `direction` and has `name_part` in its name.
pub open spec fn endpoint_matches(
    device: DeviceView,
    name_part: Seq<char>,
    direction: Direction,
) -> bool {
    device.device_type == endpoint_type(direction) && contains_text(device.name, name_part)
}

/// Whether the list holds both an output endpoint and an input endpoint
/// with `name_part` in their names.
pub open spec fn is_paired(devices: Seq<DeviceView>, name_part: Seq<char>) -> bool {
    has_endpoint(devices, name_part, Direction::Output) && has_endpoint(
        devices,
        name_part,
        Direction::Input,
    )
}

/// How long after `first_seen_ms` the moment `now_ms` is; zero where it is
/// not after it.
pub open spec fn elapsed_ms(first_seen_ms: u64, now_ms: u64) -> int {
    if now_ms >= first_seen_ms {
        now_ms - first_seen_ms
    } else {
        0
    }
}

/// The stability predicate. A device of which no first appearance is
/// known is unstable. Otherwise it is stable once it has been visible for
/// its threshold and, where it is wireless, its peripheral shows both
/// endpoints in `devices`.
pub open spec fn is_stable(
    device: DeviceView,
    first_seen_ms: Option<u64>,
    now_ms: u64,
    devices: Seq<DeviceView>,
) -> bool {
    match first_seen_ms {
        None => false,
        Some(first_seen_ms) => {
            &&& elapsed_ms(first_seen_ms, now_ms) >= stability_threshold(device.name)
            &&& is_wireless_name(device.name) ==> is_paired(devices, base_name(device.name))
        },
    }
}

/// Stability is monotonic in time: a device that is stable stays stable
/// at every later moment, as long as its first appearance stands and,
/// where it is wireless, its peripheral still shows both endpoints.
pub proof fn lemma_stability_monotonic(
    device: DeviceView,
    first_seen_ms: u64,
    now_ms: u64,
    later_ms: u64,
    devices: Seq<DeviceView>,
    later_devices: Seq<DeviceView>,
)
    requires
        is_stable(device, Some(first_seen_ms), now_ms, devices),
        now_ms <= later_ms,
        is_wireless_name(device.name) ==> is_paired(later_devices, base_name(device.name)),
    ensures
        is_stable(device, Some(first_seen_ms), later_ms, later_devices),
{
}

/// Before its threshold has passed no device is stable.
pub proof fn lemma_unstable_before_threshold(
    device: DeviceView,
    first_seen_ms: u64,
    now_ms: u64,
    devices: Seq<DeviceView>,
)
    requires
        elapsed_ms(first_seen_ms, now_ms) < DEVICE_STABILITY_THRESHOLD_MS,
    ensures
        !is_stable(device, Some(first_seen_ms), now_ms, devices),
{
}

/// Whether the text `lowered`, a name in lower case, holds one of the
/// words by which wireless peripherals are known.
pub fn has_wireless_word(lowered: &str) -> (found: bool)
    ensures
        found == holds_wireless_word(lowered@),
{
    contains(lowered, "airpod") || contains(lowered, "bluetooth") || contains(lowered, "beats")
        || contains(lowered, "bose") || contains(lowered, "sony") || contains(lowered, "jabra")
        || contains(lowered, "jbl")
}

/// Whether `device_name` is the name of a wireless peripheral.
pub fn is_likely_bluetooth_device(device_name: &str) -> (wireless: bool)
    ensures
        wireless == is_wireless_name(device_name@),
{
    let lowered = lowercase(device_name);
    has_wireless_word(lowered.as_str())
}

/// Whether some device in `devices` fits the slot `direction` and has
/// `name_part` in its name.
pub fn has_endpoint_for(devices: &[AudioDevice], name_part: &str, direction: Direction) -> (found:
    bool)
    ensures
        found == has_endpoint(device_views(devices@), name_part@, direction),
{
    let ghost views = device_views(devices@);
    let mut index: usize = 0;
    while index < devices.len()
        invariant
            index <= devices@.len(),
            views == device_views(devices@),
            forall|k: int|
                0 <= k < index ==> !endpoint_matches(#[trigger] views[k], name_part@, direction),
        decreases devices@.len() - index,
    {
        let device = &devices[index];
        let endpoint = match (direction, &device.device_type) {
            (Direction::Output, DeviceType::Output) => true,
            (Direction::Input, DeviceType::Input) => true,
            _ => false,
        };
        if endpoint && contains(device.name.as_str(), name_part) {
            assert(endpoint_matches(views[index as int], name_part@, direction));
            return true;
        }
        index += 1;
    }
    false
}

/// Whether `devices` holds both an output endpoint and an input endpoint
/// with `device_name` in their names.
pub fn has_paired_input_output(devices: &[AudioDevice], device_name: &str) -> (paired: bool)
    ensures
        paired == is_paired(device_views(devices@), device_name@),
{
    has_endpoint_for(devices, device_name, Direction::Output) && has_endpoint_for(
        devices,
        device_name,
        Direction::Input,
    )
}

/// The time that a device named `device_name` must have been visible, in
/// milliseconds.
pub fn threshold_for(device_name: &str) -> (threshold: u64)
    ensures
        threshold == stability_threshold(device_name@),
{
    if is_likely_bluetooth_device(device_name) {
        BLUETOOTH_DEVICE_STABILITY_THRESHOLD_MS
    } else {
        DEVICE_STABILITY_THRESHOLD_MS
    }
}

/// Whether `device`, first seen at `first_seen_ms`, is stable at `now_ms`
/// among `devices`. Both moments are readings of one monotonic clock.
pub fn is_device_stable(
    device: &AudioDevice,
    first_seen_ms: Option<u64>,
    now_ms: u64,
    devices: &[AudioDevice],
) -> (stable: bool)
    ensures
        stable == is_stable(device@, first_seen_ms, now_ms, device_views(devices@)),
{
    match first_seen_ms {
        None => false,
        Some(first_seen_ms) => {
            let elapsed = if now_ms >= first_seen_ms {
                now_ms - first_seen_ms
            } else {
                0
            };
            let wireless = is_likely_bluetooth_device(device.name.as_str());
            if elapsed < threshold_for(device.name.as_str()) {
                false
            } else if wireless {
                let base = trim(before_first(device.name.as_str(), '-'));
                has_paired_input_output(devices, base)
            } else {
                true
            }
        },
    }
}

} // verus!
