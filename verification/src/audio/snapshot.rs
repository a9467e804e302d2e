//! What the listener remembers between two events: the devices of the
//! last enumeration and the moment each id was first seen.

use crate::audio::device::{device_views, AudioDevice, DeviceView};
use crate::audio::stability::{is_device_stable, is_stable};
use crate::config::types::equal_text;
use vstd::prelude::*;

verus! {

/// Whether a device with the id `id` is in the list.
pub open spec fn has_id(devices: Seq<DeviceView>, id: Seq<char>) -> bool {
    exists|k: int| 0 <= k < devices.len() && (#[trigger] devices[k]).id == id
}

/// The test that picks the devices whose id does not occur in `devices`.
pub open spec fn not_among(devices: Seq<DeviceView>) -> spec_fn(DeviceView) -> bool {
    |device: DeviceView| !has_id(devices, device.id)
}

/// The devices of `current` whose id was not in `previous`, in the order
/// of `current`.
pub open spec fn added_devices(previous: Seq<DeviceView>, current: Seq<DeviceView>) -> Seq<
    DeviceView,
> {
    current.filter(not_among(previous))
}

/// The devices of `previous` whose id is not in `current`, in the order
/// of `previous`.
pub open spec fn removed_devices(previous: Seq<DeviceView>, current: Seq<DeviceView>) -> Seq<
    DeviceView,
> {
    previous.filter(not_among(current))
}

/// The mathematical value of a [`ListenerState`].
pub struct ListenerView {
    /// The devices of the last enumeration, in its order.
    pub previous_devices: Seq<DeviceView>,
    /// For each id, the reading of the clock when it was first seen.
    pub appearance_times: Map<Seq<char>, u64>,
}

impl ListenerView {
    /// Every id with a first appearance belongs to a device of the last
    /// enumeration.
    pub open spec fn well_formed(self) -> bool {
        forall|id: Seq<char>| #[trigger]
            self.appearance_times.dom().contains(id) ==> has_id(self.previous_devices, id)
    }

    /// The value at start-up: `devices` is the last enumeration and every
    /// device in it was first seen at `now_ms`.
    pub open spec fn at_start(devices: Seq<DeviceView>, now_ms: u64) -> ListenerView {
        ListenerView {
            previous_devices: devices,
            appearance_times: Map::new(|id: Seq<char>| has_id(devices, id), |id: Seq<char>| now_ms),
        }
    }

    /// When `id` was first seen, if it is known.
    pub open spec fn first_seen(self, id: Seq<char>) -> Option<u64> {
        if self.appearance_times.dom().contains(id) {
            Some(self.appearance_times[id])
        } else {
            None
        }
    }

    /// The value after the enumeration `current` at the moment `now_ms`:
    /// `current` is the last enumeration; an id that was known keeps its
    /// first appearance, a new one gets `now_ms`, and one that is gone
    /// loses its entry.
    pub open spec fn observed(self, current: Seq<DeviceView>, now_ms: u64) -> ListenerView {
        ListenerView {
            previous_devices: current,
            appearance_times: Map::new(
                |id: Seq<char>| has_id(current, id),
                |id: Seq<char>|
                    if self.appearance_times.dom().contains(id) {
                        self.appearance_times[id]
                    } else {
                        now_ms
                    },
            ),
        }
    }

    /// The test that picks the devices that are stable at `now_ms` among
    /// `current`.
    pub open spec fn stable_at(self, current: Seq<DeviceView>, now_ms: u64) -> spec_fn(
        DeviceView,
    ) -> bool {
        |device: DeviceView| is_stable(device, self.first_seen(device.id), now_ms, current)
    }

    /// The devices of `current` that are stable at `now_ms`, in the order
    /// of `current`.
    pub open spec fn stable_devices(self, current: Seq<DeviceView>, now_ms: u64) -> Seq<
        DeviceView,
    > {
        current.filter(self.stable_at(current, now_ms))
    }
}

/// After an enumeration every id with a first appearance belongs to a
/// device of that enumeration, and every device of it has one.
pub proof fn lemma_observed_well_formed(state: ListenerView, current: Seq<DeviceView>, now_ms: u64)
    ensures
        state.observed(current, now_ms).well_formed(),
        forall|k: int|
            0 <= k < current.len() ==> state.observed(current, now_ms).first_seen(
                (#[trigger] current[k]).id,
            ) is Some,
{
}

/// A device that is gone loses its first appearance at once. Where it
/// comes back, it is new: it counts from the moment of its return.
pub proof fn lemma_reappearance_restarts(
    state: ListenerView,
    without: Seq<DeviceView>,
    gone_ms: u64,
    with: Seq<DeviceView>,
    back_ms: u64,
    id: Seq<char>,
)
    requires
        !has_id(without, id),
        has_id(with, id),
    ensures
        state.observed(without, gone_ms).first_seen(id) is None,
        state.observed(without, gone_ms).observed(with, back_ms).first_seen(id) == Some(back_ms),
{
}

/// A device of the last enumeration with the moment its id was first
/// seen.
struct TrackedDevice {
    device: AudioDevice,
    first_seen_ms: u64,
}

/// The first appearance that a list of tracked devices gives for `id`:
/// that of the first device with this id.
spec fn first_seen_in(entries: Seq<TrackedDevice>, id: Seq<char>) -> Option<u64>
    decreases entries.len(),
{
    if entries.len() == 0 {
        None
    } else if entries[0].device.id@ == id {
        Some(entries[0].first_seen_ms)
    } else {
        first_seen_in(entries.drop_first(), id)
    }
}

/// The devices of a list of tracked devices.
spec fn tracked_views(entries: Seq<TrackedDevice>) -> Seq<DeviceView> {
    Seq::new(entries.len(), |k: int| entries[k].device@)
}

proof fn lemma_first_seen_in(entries: Seq<TrackedDevice>, id: Seq<char>)
    ensures
        first_seen_in(entries, id) is Some <==> has_id(tracked_views(entries), id),
        first_seen_in(entries, id) matches Some(first_seen_ms) ==> exists|k: int|
            0 <= k < entries.len() && (#[trigger] entries[k]).device.id@ == id
                && entries[k].first_seen_ms == first_seen_ms && forall|j: int|
                0 <= j < k ==> (#[trigger] entries[j]).device.id@ != id,
    decreases entries.len(),
{
    let views = tracked_views(entries);
    if entries.len() == 0 {
    } else if entries[0].device.id@ == id {
        assert(views[0].id == id);
        assert(entries[0].device.id@ == id && entries[0].first_seen_ms == first_seen_in(
            entries,
            id,
        )->0);
    } else {
        let rest = entries.drop_first();
        lemma_first_seen_in(rest, id);
        let rest_views = tracked_views(rest);
        if has_id(rest_views, id) {
            let k = choose|k: int| 0 <= k < rest_views.len() && (#[trigger] rest_views[k]).id == id;
            assert(views[k + 1].id == id);
        }
        if has_id(views, id) {
            let k = choose|k: int| 0 <= k < views.len() && (#[trigger] views[k]).id == id;
            assert(k > 0);
            assert(rest_views[k - 1].id == id);
        }
        if first_seen_in(entries, id) is Some {
            let first_seen_ms = first_seen_in(entries, id)->0;
            let k = choose|k: int|
                0 <= k < rest.len() && (#[trigger] rest[k]).device.id@ == id
                    && rest[k].first_seen_ms == first_seen_ms && forall|j: int|
                    0 <= j < k ==> (#[trigger] rest[j]).device.id@ != id;
            assert(entries[k + 1] == rest[k]);
            assert forall|j: int| 0 <= j < k + 1 implies (#[trigger] entries[j]).device.id@
                != id by {
                if j > 0 {
                    assert(entries[j] == rest[j - 1]);
                }
            }
        }
    }
}

/// Where no device before position `at` has the id and the one at `at`
/// has it, the first appearance of the id is that of the device at `at`.
proof fn lemma_first_seen_at(entries: Seq<TrackedDevice>, id: Seq<char>, at: int)
    requires
        0 <= at < entries.len(),
        entries[at].device.id@ == id,
        forall|j: int| 0 <= j < at ==> (#[trigger] entries[j]).device.id@ != id,
    ensures
        first_seen_in(entries, id) == Some(entries[at].first_seen_ms),
    decreases at,
{
    if at > 0 {
        let rest = entries.drop_first();
        assert(entries[0].device.id@ != id);
        assert forall|j: int| 0 <= j < at - 1 implies (#[trigger] rest[j]).device.id@ != id by {
            assert(rest[j] == entries[j + 1]);
        }
        lemma_first_seen_at(rest, id, at - 1);
    }
}

/// The devices that an enumeration added and those it removed.
#[derive(Debug)]
pub struct DeviceChanges {
    /// The devices whose id was not there before.
    pub added: Vec<AudioDevice>,
    /// The devices whose id is no longer there.
    pub removed: Vec<AudioDevice>,
}

/// What the listener remembers between two events.
pub struct ListenerState {
    entries: Vec<TrackedDevice>,
}

impl View for ListenerState {
    type V = ListenerView;

    closed spec fn view(&self) -> ListenerView {
        ListenerView {
            previous_devices: tracked_views(self.entries@),
            appearance_times: Map::new(
                |id: Seq<char>| first_seen_in(self.entries@, id) is Some,
                |id: Seq<char>| first_seen_in(self.entries@, id)->0,
            ),
        }
    }
}

/// Whether a device with the id `id` is in `devices`.
pub fn contains_id(devices: &[AudioDevice], id: &str) -> (found: bool)
    ensures
        found == has_id(device_views(devices@), id@),
{
    let ghost views = device_views(devices@);
    let mut index: usize = 0;
    while index < devices.len()
        invariant
            index <= devices@.len(),
            views == device_views(devices@),
            forall|k: int| 0 <= k < index ==> (#[trigger] views[k]).id != id@,
        decreases devices@.len() - index,
    {
        if equal_text(devices[index].id.as_str(), id) {
            assert(views[index as int].id == id@);
            return true;
        }
        index += 1;
    }
    false
}

/// The devices of `devices` whose id does not occur in `others`.
pub fn devices_not_among(
    devices: &[AudioDevice],
    others: &[AudioDevice],
) -> (kept: Vec<AudioDevice>)
    ensures
        device_views(kept@) == device_views(devices@).filter(not_among(device_views(others@))),
{
    let ghost views = device_views(devices@);
    let ghost test = not_among(device_views(others@));
    let mut kept: Vec<AudioDevice> = Vec::new();
    let mut index: usize = 0;
    proof {
        assert(views.take(0) == Seq::<DeviceView>::empty());
        reveal(Seq::filter);
        assert(device_views(kept@) == views.take(0).filter(test));
    }
    while index < devices.len()
        invariant
            index <= devices@.len(),
            views == device_views(devices@),
            test == not_among(device_views(others@)),
            device_views(kept@) == views.take(index as int).filter(test),
        decreases devices@.len() - index,
    {
        let device = &devices[index];
        let absent = !contains_id(others, device.id.as_str());
        proof {
            assert(views.take(index + 1) == views.take(index as int).push(device@));
            views.take(index as int).lemma_filter_push(device@, test);
            assert(absent == test(device@));
        }
        if absent {
            let ghost before = kept@;
            kept.push(device.clone());
            assert(device_views(kept@) == device_views(before).push(device@));
        }
        index += 1;
    }
    proof {
        assert(views.take(devices@.len() as int) == views);
    }
    kept
}

impl ListenerState {
    /// The state at start-up: `initial_devices` is the last enumeration
    /// and every device in it was first seen at `now_ms`.
    pub fn new(initial_devices: &[AudioDevice], now_ms: u64) -> (state: Self)
        ensures
            state@ == ListenerView::at_start(device_views(initial_devices@), now_ms),
            state@.well_formed(),
    {
        let mut state = ListenerState { entries: Vec::new() };
        proof {
            assert forall|id: Seq<char>| state@.first_seen(id) is None by {
                lemma_first_seen_in(state.entries@, id);
            }
        }
        state.observe(initial_devices, now_ms);
        proof {
            let start = ListenerView::at_start(device_views(initial_devices@), now_ms);
            assert(state@.appearance_times =~= start.appearance_times);
        }
        state
    }

    /// Every id with a first appearance belongs to a device of the last
    /// enumeration, whatever the listener has seen.
    pub proof fn lemma_well_formed(&self)
        ensures
            self@.well_formed(),
    {
        assert forall|id: Seq<char>| #[trigger]
            self@.appearance_times.dom().contains(id) implies has_id(self@.previous_devices, id) by {
            lemma_first_seen_in(self.entries@, id);
        }
    }

    /// The devices of the last enumeration.
    pub fn previous_devices(&self) -> (devices: Vec<AudioDevice>)
        ensures
            device_views(devices@) == self@.previous_devices,
    {
        let mut devices: Vec<AudioDevice> = Vec::new();
        let mut index: usize = 0;
        while index < self.entries.len()
            invariant
                index <= self.entries@.len(),
                devices@.len() == index,
                forall|k: int| 0 <= k < index ==> (#[trigger] devices@[k])@ == self.entries@[k].device@,
            decreases self.entries@.len() - index,
        {
            devices.push(self.entries[index].device.clone());
            index += 1;
        }
        assert(device_views(devices@) =~= self@.previous_devices);
        devices
    }

    /// When the id `id` was first seen, if it is known.
    pub fn first_seen(&self, id: &str) -> (first_seen_ms: Option<u64>)
        ensures
            first_seen_ms == self@.first_seen(id@),
    {
        let mut index: usize = 0;
        while index < self.entries.len()
            invariant
                index <= self.entries@.len(),
                forall|j: int| 0 <= j < index ==> (#[trigger] self.entries@[j]).device.id@ != id@,
            decreases self.entries@.len() - index,
        {
            if equal_text(self.entries[index].device.id.as_str(), id) {
                proof {
                    lemma_first_seen_at(self.entries@, id@, index as int);
                }
                return Some(self.entries[index].first_seen_ms);
            }
            index += 1;
        }
        proof {
            lemma_first_seen_in(self.entries@, id@);
        }
        None
    }

    /// Takes in the enumeration `current`, made at `now_ms`, and says what
    /// it added and removed. Each new id is first seen at `now_ms`; each
    /// id that is gone loses its first appearance.
    pub fn observe(&mut self, current: &[AudioDevice], now_ms: u64) -> (changes: DeviceChanges)
        ensures
            final(self)@ == old(self)@.observed(device_views(current@), now_ms),
            final(self)@.well_formed(),
            device_views(changes.added@) == added_devices(
                old(self)@.previous_devices,
                device_views(current@),
            ),
            device_views(changes.removed@) == removed_devices(
                old(self)@.previous_devices,
                device_views(current@),
            ),
    {
        let previous = self.previous_devices();
        let added = devices_not_among(current, previous.as_slice());
        let removed = devices_not_among(previous.as_slice(), current);
        let ghost views = device_views(current@);
        let mut entries: Vec<TrackedDevice> = Vec::new();
        let mut index: usize = 0;
        while index < current.len()
            invariant
                index <= current@.len(),
                entries@.len() == index,
                forall|k: int|
                    0 <= k < index ==> (#[trigger] entries@[k]).device@ == current@[k]@
                        && entries@[k].first_seen_ms == match self@.first_seen(current@[k].id@) {
                        Some(first_seen_ms) => first_seen_ms,
                        None => now_ms,
                    },
            decreases current@.len() - index,
        {
            let device = &current[index];
            let first_seen_ms = match self.first_seen(device.id.as_str()) {
                Some(first_seen_ms) => first_seen_ms,
                None => now_ms,
            };
            entries.push(TrackedDevice { device: device.clone(), first_seen_ms });
            index += 1;
        }
        proof {
            let before = self@;
            let after = before.observed(views, now_ms);
            assert(tracked_views(entries@) =~= views);
            assert forall|id: Seq<char>|
                (first_seen_in(entries@, id) is Some <==> has_id(views, id)) && (first_seen_in(
                    entries@,
                    id,
                ) is Some ==> first_seen_in(entries@, id)->0 == after.appearance_times[id]) by {
                lemma_first_seen_in(entries@, id);
            }
            let times = Map::new(
                |id: Seq<char>| first_seen_in(entries@, id) is Some,
                |id: Seq<char>| first_seen_in(entries@, id)->0,
            );
            assert(times =~= after.appearance_times);
            lemma_observed_well_formed(before, views, now_ms);
        }
        self.entries = entries;
        DeviceChanges { added, removed }
    }

    /// The devices of `current` that are stable at `now_ms`.
    pub fn stable_devices(&self, current: &[AudioDevice], now_ms: u64) -> (stable: Vec<AudioDevice>)
        ensures
            device_views(stable@) == self@.stable_devices(device_views(current@), now_ms),
    {
        let ghost views = device_views(current@);
        let ghost test = self@.stable_at(views, now_ms);
        let mut stable: Vec<AudioDevice> = Vec::new();
        let mut index: usize = 0;
        proof {
            assert(views.take(0) == Seq::<DeviceView>::empty());
            reveal(Seq::filter);
            assert(device_views(stable@) == views.take(0).filter(test));
        }
        while index < current.len()
            invariant
                index <= current@.len(),
                views == device_views(current@),
                test == self@.stable_at(views, now_ms),
                device_views(stable@) == views.take(index as int).filter(test),
            decreases current@.len() - index,
        {
            let device = &current[index];
            let first_seen_ms = self.first_seen(device.id.as_str());
            let keep = is_device_stable(device, first_seen_ms, now_ms, current);
            proof {
                assert(views.take(index + 1) == views.take(index as int).push(device@));
                views.take(index as int).lemma_filter_push(device@, test);
                assert(keep == test(device@));
            }
            if keep {
                let ghost before = stable@;
                stable.push(device.clone());
                assert(device_views(stable@) == device_views(before).push(device@));
            }
            index += 1;
        }
        proof {
            assert(views.take(current@.len() as int) == views);
        }
        stable
    }
}

} // verus!
