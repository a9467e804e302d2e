//! The priority resolver: which of the devices at hand a policy prefers.
//!
//! The resolver decides and nothing else. It never touches the system; it
//! is told which devices there are and which one the system reports as
//! its default.

use crate::audio::device::{device_views, AudioDevice, DeviceView, Direction};
use crate::config::types::{clone_rules, rule_views, Config, DeviceRule, RuleView};
use vstd::prelude::*;

verus! {

/// The score of a device name under a list of rules: the highest weight
/// among the rules that match it, or `None` where no rule matches.
pub open spec fn score(rules: Seq<RuleView>, device_name: Seq<char>) -> Option<u32>
    decreases rules.len(),
{
    if rules.len() == 0 {
        None
    } else {
        let earlier = score(rules.drop_last(), device_name);
        let rule = rules.last();
        if rule.matches(device_name) {
            match earlier {
                Some(weight) if weight >= rule.weight => earlier,
                _ => Some(rule.weight),
            }
        } else {
            earlier
        }
    }
}

/// The score of a device as a candidate for the slot `direction`: its
/// name's score where its type fits the slot, else `None`.
pub open spec fn candidate_score(
    device: DeviceView,
    rules: Seq<RuleView>,
    direction: Direction,
) -> Option<u32> {
    if device.device_type.supports_spec(direction) {
        score(rules, device.name)
    } else {
        None
    }
}

/// The position of the device that the policy prefers for the slot
/// `direction`: among the candidates, the first of those with the highest
/// score. `None` where there is no candidate.
pub open spec fn best_index(
    devices: Seq<DeviceView>,
    rules: Seq<RuleView>,
    direction: Direction,
) -> Option<int>
    decreases devices.len(),
{
    if devices.len() == 0 {
        None
    } else {
        let earlier = best_index(devices.drop_last(), rules, direction);
        match candidate_score(devices.last(), rules, direction) {
            None => earlier,
            Some(weight) => match earlier {
                Some(index) if candidate_score(devices[index], rules, direction)->0 >= weight => earlier,
                _ => Some(devices.len() - 1),
            },
        }
    }
}

/// The device that the policy prefers for the slot `direction`.
pub open spec fn best_device(
    devices: Seq<DeviceView>,
    rules: Seq<RuleView>,
    direction: Direction,
) -> Option<DeviceView> {
    match best_index(devices, rules, direction) {
        Some(index) => Some(devices[index]),
        None => None,
    }
}

/// A name has a score exactly where a rule matches it; the score is the
/// weight of a matching rule, and no matching rule weighs more.
pub proof fn lemma_score(rules: Seq<RuleView>, device_name: Seq<char>)
    ensures
        score(rules, device_name) is None <==> forall|k: int|
            0 <= k < rules.len() ==> !(#[trigger] rules[k]).matches(device_name),
        score(rules, device_name) matches Some(weight) ==> {
            &&& exists|k: int|
                0 <= k < rules.len() && (#[trigger] rules[k]).matches(device_name) && rules[k].weight
                    == weight
            &&& forall|k: int|
                0 <= k < rules.len() && (#[trigger] rules[k]).matches(device_name)
                    ==> rules[k].weight <= weight
        },
    decreases rules.len(),
{
    if rules.len() > 0 {
        let front = rules.drop_last();
        let last = rules.len() - 1;
        lemma_score(front, device_name);
        assert forall|k: int| 0 <= k < front.len() implies front[k] == rules[k] by {}
        match score(rules, device_name) {
            None => {
                assert forall|k: int| 0 <= k < rules.len() implies !(#[trigger] rules[k]).matches(
                    device_name,
                ) by {
                    if k < last {
                        assert(front[k] == rules[k]);
                    }
                }
            },
            Some(weight) => {
                if rules[last].matches(device_name) && weight == rules[last].weight {
                    assert(rules[last].matches(device_name) && rules[last].weight == weight);
                } else {
                    let k = choose|k: int|
                        0 <= k < front.len() && (#[trigger] front[k]).matches(device_name)
                            && front[k].weight == weight;
                    assert(rules[k].matches(device_name) && rules[k].weight == weight);
                }
                assert forall|k: int|
                    0 <= k < rules.len() && (#[trigger] rules[k]).matches(
                        device_name,
                    ) implies rules[k].weight <= weight by {
                    if k < last {
                        assert(front[k] == rules[k]);
                    }
                }
                if score(front, device_name) is None {
                    assert(forall|k: int|
                        0 <= k < front.len() ==> !(#[trigger] front[k]).matches(device_name));
                }
            },
        }
        if score(rules, device_name) is None {
        } else {
            assert(exists|k: int|
                0 <= k < rules.len() && (#[trigger] rules[k]).matches(device_name));
        }
    }
}

/// What the preferred position is: a candidate that no candidate
/// outscores and that no earlier candidate equals in score. There is none
/// exactly where no device is a candidate.
pub proof fn lemma_best_index(
    devices: Seq<DeviceView>,
    rules: Seq<RuleView>,
    direction: Direction,
)
    ensures
        best_index(devices, rules, direction) is None <==> forall|k: int|
            0 <= k < devices.len() ==> candidate_score(#[trigger] devices[k], rules, direction)
                is None,
        best_index(devices, rules, direction) matches Some(index) ==> {
            &&& 0 <= index < devices.len()
            &&& candidate_score(devices[index], rules, direction) is Some
            &&& forall|k: int|
                0 <= k < devices.len() && candidate_score(#[trigger] devices[k], rules, direction)
                    is Some ==> candidate_score(devices[k], rules, direction)->0
                    <= candidate_score(devices[index], rules, direction)->0
            &&& forall|k: int|
                0 <= k < index && candidate_score(#[trigger] devices[k], rules, direction)
                    is Some ==> candidate_score(devices[k], rules, direction)->0
                    < candidate_score(devices[index], rules, direction)->0
        },
    decreases devices.len(),
{
    if devices.len() > 0 {
        let front = devices.drop_last();
        lemma_best_index(front, rules, direction);
        assert forall|k: int| 0 <= k < front.len() implies front[k] == devices[k] by {}
        match best_index(devices, rules, direction) {
            None => {
                assert forall|k: int| 0 <= k < devices.len() implies candidate_score(
                    #[trigger] devices[k],
                    rules,
                    direction,
                ) is None by {
                    if k < front.len() {
                        assert(front[k] == devices[k]);
                    }
                }
            },
            Some(index) => {
                let best = candidate_score(devices[index], rules, direction)->0;
                assert forall|k: int|
                    0 <= k < devices.len() && candidate_score(
                        #[trigger] devices[k],
                        rules,
                        direction,
                    ) is Some implies candidate_score(devices[k], rules, direction)->0
                    <= best by {
                    if k < front.len() {
                        assert(front[k] == devices[k]);
                    }
                }
                assert forall|k: int|
                    0 <= k < index && candidate_score(
                        #[trigger] devices[k],
                        rules,
                        direction,
                    ) is Some implies candidate_score(devices[k], rules, direction)->0
                    < best by {
                    assert(front[k] == devices[k]);
                }
            },
        }
        if best_index(devices, rules, direction) is Some {
            let index = best_index(devices, rules, direction)->0;
            assert(candidate_score(devices[index], rules, direction) is Some);
        }
    }
}

/// The resolver finds nothing exactly where no enabled rule of the policy
/// matches the name of any device whose type fits the slot.
pub proof fn lemma_none_iff_no_match(
    devices: Seq<DeviceView>,
    rules: Seq<RuleView>,
    direction: Direction,
)
    ensures
        best_device(devices, rules, direction) is None <==> forall|d: int, r: int|
            0 <= d < devices.len() && 0 <= r < rules.len() && (#[trigger] devices[d]).device_type.supports_spec(
                direction,
            ) ==> !(#[trigger] rules[r]).matches(devices[d].name),
{
    lemma_best_index(devices, rules, direction);
    if best_device(devices, rules, direction) is None {
        assert forall|d: int, r: int|
            0 <= d < devices.len() && 0 <= r < rules.len() && (#[trigger] devices[d]).device_type.supports_spec(
                direction,
            ) implies !(#[trigger] rules[r]).matches(devices[d].name) by {
            assert(candidate_score(devices[d], rules, direction) is None);
            lemma_score(rules, devices[d].name);
        }
    } else {
        let index = best_index(devices, rules, direction)->0;
        lemma_score(rules, devices[index].name);
        let r = choose|r: int|
            0 <= r < rules.len() && (#[trigger] rules[r]).matches(devices[index].name);
        assert(devices[index].device_type.supports_spec(direction) && rules[r].matches(
            devices[index].name,
        ));
    }
}

/// The device that the resolver finds has the highest score among the
/// candidates.
pub proof fn lemma_best_has_highest_score(
    devices: Seq<DeviceView>,
    rules: Seq<RuleView>,
    direction: Direction,
    other: int,
)
    requires
        best_device(devices, rules, direction) is Some,
        0 <= other < devices.len(),
        candidate_score(devices[other], rules, direction) is Some,
    ensures
        candidate_score(best_device(devices, rules, direction)->0, rules, direction) is Some,
        candidate_score(devices[other], rules, direction)->0 <= candidate_score(
            best_device(devices, rules, direction)->0,
            rules,
            direction,
        )->0,
{
    lemma_best_index(devices, rules, direction);
}

/// Among candidates with the same score the first in the list wins: every
/// candidate before the resolver's choice scores strictly less.
pub proof fn lemma_ties_first_wins(
    devices: Seq<DeviceView>,
    rules: Seq<RuleView>,
    direction: Direction,
    earlier: int,
)
    requires
        best_index(devices, rules, direction) is Some,
        0 <= earlier < best_index(devices, rules, direction)->0,
        candidate_score(devices[earlier], rules, direction) is Some,
    ensures
        candidate_score(devices[earlier], rules, direction)->0 < candidate_score(
            devices[best_index(devices, rules, direction)->0],
            rules,
            direction,
        )->0,
{
    lemma_best_index(devices, rules, direction);
}

/// With no device at hand the resolver finds nothing.
pub proof fn lemma_no_devices(rules: Seq<RuleView>, direction: Direction)
    ensures
        best_device(Seq::<DeviceView>::empty(), rules, direction) is None,
{
}

/// With no rule in the policy the resolver finds nothing.
pub proof fn lemma_no_rules(devices: Seq<DeviceView>, direction: Direction)
    ensures
        best_device(devices, Seq::<RuleView>::empty(), direction) is None,
{
    lemma_best_index(devices, Seq::<RuleView>::empty(), direction);
}

/// A policy whose rules are all disabled decides as the empty policy
/// does: the resolver finds nothing.
pub proof fn lemma_all_rules_disabled(
    devices: Seq<DeviceView>,
    rules: Seq<RuleView>,
    direction: Direction,
)
    requires
        forall|k: int| 0 <= k < rules.len() ==> !(#[trigger] rules[k]).enabled,
    ensures
        best_device(devices, rules, direction) == best_device(
            devices,
            Seq::<RuleView>::empty(),
            direction,
        ),
        best_device(devices, rules, direction) is None,
{
    lemma_no_rules(devices, direction);
    lemma_none_iff_no_match(devices, rules, direction);
}

/// The score of `device_name` under `rules`.
pub fn rule_score(rules: &[DeviceRule], device_name: &str) -> (found: Option<u32>)
    ensures
        found == score(rule_views(rules@), device_name@),
{
    let ghost views = rule_views(rules@);
    let mut found: Option<u32> = None;
    let mut index: usize = 0;
    while index < rules.len()
        invariant
            index <= rules@.len(),
            views == rule_views(rules@),
            found == score(views.take(index as int), device_name@),
        decreases rules@.len() - index,
    {
        proof {
            assert(views.take(index + 1).drop_last() == views.take(index as int));
            assert(views.take(index + 1).last() == rules@[index as int]@);
        }
        let rule = &rules[index];
        if rule.matches(device_name) {
            found = match found {
                Some(weight) if weight >= rule.weight => found,
                _ => Some(rule.weight),
            };
        }
        index += 1;
    }
    proof {
        assert(views.take(rules@.len() as int) == views);
    }
    found
}

/// The position in `devices` of the device that `rules` prefer for the
/// slot `direction`.
pub fn find_best_index(
    devices: &[AudioDevice],
    rules: &[DeviceRule],
    direction: Direction,
) -> (found: Option<usize>)
    ensures
        match found {
            Some(index) => best_index(device_views(devices@), rule_views(rules@), direction)
                == Some(index as int) && index < devices@.len(),
            None => best_index(device_views(devices@), rule_views(rules@), direction) is None,
        },
{
    let ghost views = device_views(devices@);
    let ghost policy = rule_views(rules@);
    let mut found: Option<usize> = None;
    let mut best_weight: u32 = 0;
    let mut index: usize = 0;
    while index < devices.len()
        invariant
            index <= devices@.len(),
            views == device_views(devices@),
            policy == rule_views(rules@),
            match found {
                Some(position) => {
                    &&& best_index(views.take(index as int), policy, direction) == Some(
                        position as int,
                    )
                    &&& position < index
                    &&& candidate_score(views[position as int], policy, direction) == Some(
                        best_weight,
                    )
                },
                None => best_index(views.take(index as int), policy, direction) is None,
            },
        decreases devices@.len() - index,
    {
        proof {
            assert(views.take(index + 1).drop_last() == views.take(index as int));
            assert(views.take(index + 1).last() == devices@[index as int]@);
            if found is Some {
                assert(views.take(index + 1)[found->0 as int] == views[found->0 as int]);
            }
        }
        let device = &devices[index];
        if device.device_type.supports(direction) {
            match rule_score(rules, device.name.as_str()) {
                Some(weight) => {
                    let replace = match found {
                        Some(_) => best_weight < weight,
                        None => true,
                    };
                    if replace {
                        found = Some(index);
                        best_weight = weight;
                    }
                },
                None => {},
            }
        }
        index += 1;
    }
    proof {
        assert(views.take(devices@.len() as int) == views);
    }
    found
}

/// The view of a device that may be absent.
pub open spec fn device_of(device: Option<AudioDevice>) -> Option<DeviceView> {
    match device {
        Some(device) => Some(device@),
        None => None,
    }
}

/// The view of a name that may be absent.
pub open spec fn text_of(name: Option<String>) -> Option<Seq<char>> {
    match name {
        Some(name) => Some(name@),
        None => None,
    }
}

/// The resolver's policy and what it has been told of the system.
pub struct DevicePriorityManager {
    output_priorities: Vec<DeviceRule>,
    input_priorities: Vec<DeviceRule>,
    current_output: Option<String>,
    current_input: Option<String>,
}

/// The mathematical value of a [`DevicePriorityManager`].
pub struct PriorityView {
    /// The rules for the output slot, in the order of the configuration.
    pub output_rules: Seq<RuleView>,
    /// The rules for the input slot, in the order of the configuration.
    pub input_rules: Seq<RuleView>,
    /// The name of the device last reported as the default output.
    pub current_output: Option<Seq<char>>,
    /// The name of the device last reported as the default input.
    pub current_input: Option<Seq<char>>,
}

impl PriorityView {
    /// The rules for one slot.
    pub open spec fn rules(self, direction: Direction) -> Seq<RuleView> {
        match direction {
            Direction::Input => self.input_rules,
            Direction::Output => self.output_rules,
        }
    }

    /// The name last reported as the default of one slot.
    pub open spec fn current(self, direction: Direction) -> Option<Seq<char>> {
        match direction {
            Direction::Input => self.current_input,
            Direction::Output => self.current_output,
        }
    }

    /// Whether a switch to a device named `device_name` is called for:
    /// where no default has been reported for the slot, or one with
    /// another name.
    pub open spec fn should_switch(self, direction: Direction, device_name: Seq<char>) -> bool {
        self.current(direction) != Some(device_name)
    }

    /// Whether the policy has a rule that matches `device_name` for the
    /// slot `direction`.
    pub open spec fn considers(self, direction: Direction, device_name: Seq<char>) -> bool {
        score(self.rules(direction), device_name) is Some
    }
}

impl View for DevicePriorityManager {
    type V = PriorityView;

    closed spec fn view(&self) -> PriorityView {
        PriorityView {
            output_rules: rule_views(self.output_priorities@),
            input_rules: rule_views(self.input_priorities@),
            current_output: text_of(self.current_output),
            current_input: text_of(self.current_input),
        }
    }
}

impl DevicePriorityManager {
    /// A resolver with the rules of `config` that has been told of no
    /// default yet.
    pub fn new(config: &Config) -> (manager: Self)
        ensures
            manager@ == (PriorityView {
                output_rules: config@.output_devices,
                input_rules: config@.input_devices,
                current_output: None,
                current_input: None,
            }),
    {
        Self {
            output_priorities: clone_rules(config.output_devices.as_slice()),
            input_priorities: clone_rules(config.input_devices.as_slice()),
            current_output: None,
            current_input: None,
        }
    }

    /// The device among `available_devices` that the output rules prefer.
    pub fn find_best_output_device(&self, available_devices: &[AudioDevice]) -> (best: Option<
        AudioDevice,
    >)
        ensures
            best is Some <==> best_index(
                device_views(available_devices@),
                self@.output_rules,
                Direction::Output,
            ) is Some,
            best matches Some(device) ==> device == available_devices@[best_index(
                device_views(available_devices@),
                self@.output_rules,
                Direction::Output,
            )->0],
            device_of(best) == best_device(device_views(available_devices@), self@.output_rules, Direction::Output),
    {
        self.find_best_device(available_devices, Direction::Output)
    }

    /// The device among `available_devices` that the input rules prefer.
    pub fn find_best_input_device(&self, available_devices: &[AudioDevice]) -> (best: Option<
        AudioDevice,
    >)
        ensures
            best is Some <==> best_index(
                device_views(available_devices@),
                self@.input_rules,
                Direction::Input,
            ) is Some,
            best matches Some(device) ==> device == available_devices@[best_index(
                device_views(available_devices@),
                self@.input_rules,
                Direction::Input,
            )->0],
            device_of(best) == best_device(device_views(available_devices@), self@.input_rules, Direction::Input),
    {
        self.find_best_device(available_devices, Direction::Input)
    }

    /// The device among `available_devices` that the rules for
    /// `direction` prefer: of the devices whose type fits the slot and
    /// whose name some enabled rule matches, the first of those with the
    /// highest score.
    pub fn find_best_device(
        &self,
        available_devices: &[AudioDevice],
        direction: Direction,
    ) -> (best: Option<AudioDevice>)
        ensures
            best is Some <==> best_index(
                device_views(available_devices@),
                self@.rules(direction),
                direction,
            ) is Some,
            best matches Some(device) ==> device == available_devices@[best_index(
                device_views(available_devices@),
                self@.rules(direction),
                direction,
            )->0],
            device_of(best) == best_device(device_views(available_devices@), self@.rules(direction), direction),
    {
        let rules = match direction {
            Direction::Input => self.input_priorities.as_slice(),
            Direction::Output => self.output_priorities.as_slice(),
        };
        match find_best_index(available_devices, rules, direction) {
            Some(index) => Some(available_devices[index].clone()),
            None => None,
        }
    }

    /// Whether the output should be switched to `new_device`.
    pub fn should_switch_output(&self, new_device: &AudioDevice) -> (switch: bool)
        ensures
            switch == self@.should_switch(Direction::Output, new_device.name@),
    {
        match &self.current_output {
            Some(current) => !(*current == new_device.name),
            None => true,
        }
    }

    /// Whether the input should be switched to `new_device`.
    pub fn should_switch_input(&self, new_device: &AudioDevice) -> (switch: bool)
        ensures
            switch == self@.should_switch(Direction::Input, new_device.name@),
    {
        match &self.current_input {
            Some(current) => !(*current == new_device.name),
            None => true,
        }
    }

    /// Records that the system reports `device_name` as its default
    /// output.
    pub fn update_current_output(&mut self, device_name: String)
        ensures
            final(self)@ == (PriorityView { current_output: Some(device_name@), ..old(self)@ }),
    {
        self.current_output = Some(device_name);
    }

    /// Records that the system reports `device_name` as its default
    /// input.
    pub fn update_current_input(&mut self, device_name: String)
        ensures
            final(self)@ == (PriorityView { current_input: Some(device_name@), ..old(self)@ }),
    {
        self.current_input = Some(device_name);
    }

    /// Replaces the rules by those of `config` and keeps what has been
    /// reported of the system.
    pub fn replace_rules(&mut self, config: &Config)
        ensures
            final(self)@ == (PriorityView {
                output_rules: config@.output_devices,
                input_rules: config@.input_devices,
                ..old(self)@
            }),
    {
        self.output_priorities = clone_rules(config.output_devices.as_slice());
        self.input_priorities = clone_rules(config.input_devices.as_slice());
    }

    /// Whether some enabled rule for `direction` matches `device_name`.
    pub fn considers(&self, direction: Direction, device_name: &str) -> (considered: bool)
        ensures
            considered == self@.considers(direction, device_name@),
    {
        let rules = match direction {
            Direction::Input => self.input_priorities.as_slice(),
            Direction::Output => self.output_priorities.as_slice(),
        };
        rule_score(rules, device_name).is_some()
    }
}

} // verus!
