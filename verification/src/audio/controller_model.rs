//! The controller as a mathematical value: what it records, how events
//! change the record, and what it asks of the outside.

use crate::audio::device::{DeviceView, Direction};
use crate::config::types::ConfigView;
use crate::error::MonitorError;
use crate::notifications::{
    switch_failed_notification, switched_notification, NotificationSettings, SwitchReason,
};
use crate::preference_debugging::{
    changes_of, status_of, PreferenceChanges, PreferenceChangesView, PreferenceStatusView,
};
use crate::priority::manager::{best_device, lemma_best_index, lemma_no_rules, PriorityView};
use vstd::prelude::*;

verus! {

/// The name of a device that may be absent.
pub open spec fn name_of(device: Option<DeviceView>) -> Option<Seq<char>> {
    match device {
        Some(device) => Some(device.name),
        None => None,
    }
}

/// Whether `slot` holds a device with the id `id`.
pub open spec fn holds_id(slot: Option<DeviceView>, id: Seq<char>) -> bool {
    slot matches Some(device) && device.id == id
}

/// The slot without its device, where that has the id `id`.
pub open spec fn without_id(slot: Option<DeviceView>, id: Seq<char>) -> Option<DeviceView> {
    if holds_id(slot, id) {
        None
    } else {
        slot
    }
}

/// The mathematical value of a device controller.
pub struct ControllerView {
    /// The policy and the defaults that the resolver was told of.
    pub policy: PriorityView,
    /// Which notifications pass.
    pub settings: NotificationSettings,
    /// The device that the controller believes to be the default output.
    pub current_output: Option<DeviceView>,
    /// The device that the controller believes to be the default input.
    pub current_input: Option<DeviceView>,
    /// The device that the controller last made the default output.
    pub intended_output: Option<DeviceView>,
    /// The device that the controller last made the default input.
    pub intended_input: Option<DeviceView>,
}

impl ControllerView {
    /// The device believed to be the default of a slot.
    pub open spec fn current(self, direction: Direction) -> Option<DeviceView> {
        match direction {
            Direction::Input => self.current_input,
            Direction::Output => self.current_output,
        }
    }

    /// The device last made the default of a slot.
    pub open spec fn intended(self, direction: Direction) -> Option<DeviceView> {
        match direction {
            Direction::Input => self.intended_input,
            Direction::Output => self.intended_output,
        }
    }

    /// An intended device fits its slot.
    pub open spec fn well_formed(self) -> bool {
        &&& self.intended_output matches Some(device) ==> device.device_type.supports_spec(
            Direction::Output,
        )
        &&& self.intended_input matches Some(device) ==> device.device_type.supports_spec(
            Direction::Input,
        )
    }

    /// The value after `device` has been made the default of the slot
    /// `direction`: it is the intended and the current device of that
    /// slot, and the other slot is as before.
    pub open spec fn after_switch(
        self,
        device: DeviceView,
        direction: Direction,
    ) -> ControllerView {
        match direction {
            Direction::Input => ControllerView {
                current_input: Some(device),
                intended_input: Some(device),
                ..self
            },
            Direction::Output => ControllerView {
                current_output: Some(device),
                intended_output: Some(device),
                ..self
            },
        }
    }

    /// Whether some slot holds a device with the id `id`.
    pub open spec fn holds(self, id: Seq<char>) -> bool {
        ||| holds_id(self.current_output, id)
        ||| holds_id(self.current_input, id)
        ||| holds_id(self.intended_output, id)
        ||| holds_id(self.intended_input, id)
    }

    /// The value after the device with the id `id` has been seen to
    /// leave: every slot that held it is empty.
    pub open spec fn after_disconnect(self, id: Seq<char>) -> ControllerView {
        ControllerView {
            current_output: without_id(self.current_output, id),
            current_input: without_id(self.current_input, id),
            intended_output: without_id(self.intended_output, id),
            intended_input: without_id(self.intended_input, id),
            ..self
        }
    }

    /// The intended device of a slot after the rules have been replaced:
    /// the same device where a rule of the new policy for the slot matches
    /// its name, none where no rule does.
    pub open spec fn kept_intent(self, direction: Direction, policy: PriorityView) -> Option<
        DeviceView,
    > {
        match self.intended(direction) {
            Some(device) if policy.considers(direction, device.name) => Some(device),
            _ => None,
        }
    }

    /// The value after a reload with the rules and notification settings
    /// of a new configuration.
    pub open spec fn after_reload(self, config: ConfigView) -> ControllerView {
        let policy = PriorityView {
            output_rules: config.output_devices,
            input_rules: config.input_devices,
            ..self.policy
        };
        ControllerView {
            policy,
            settings: NotificationSettings {
                enabled: self.settings.enabled,
                show_device_availability: config.notifications.show_device_availability,
                show_switching_actions: config.notifications.show_switching_actions,
            },
            intended_output: self.kept_intent(Direction::Output, policy),
            intended_input: self.kept_intent(Direction::Input, policy),
            ..self
        }
    }

    /// The device of a slot after the system has reported `reported` as
    /// its default: the reported device where there is one with another
    /// id than the believed one, else the believed one.
    pub open spec fn synced_slot(
        believed: Option<DeviceView>,
        reported: Option<DeviceView>,
    ) -> Option<DeviceView> {
        match reported {
            Some(device) if !holds_id(believed, device.id) => Some(device),
            _ => believed,
        }
    }

    /// The device that a reconciliation of the slot `direction` switches
    /// to: the policy's choice among `available`, unless the controller
    /// believes that very device to be the default already.
    pub open spec fn switch_target(
        self,
        available: Seq<DeviceView>,
        direction: Direction,
    ) -> Option<DeviceView> {
        match best_device(available, self.policy.rules(direction), direction) {
            Some(best) if !holds_id(self.current(direction), best.id) => Some(best),
            _ => None,
        }
    }

    /// The value after a reconciliation of the slot `direction` whose
    /// switch, if it called for one, succeeded.
    pub open spec fn reconciled(
        self,
        available: Seq<DeviceView>,
        direction: Direction,
    ) -> ControllerView {
        match self.switch_target(available, direction) {
            Some(device) => self.after_switch(device, direction),
            None => self,
        }
    }

    /// The device that the connection of `device` switches the slot
    /// `direction` to: `device` itself, where it can fill the slot, is
    /// the policy's choice among `available` and is not believed to be the
    /// default already. The connection of a device that the policy does
    /// not prefer switches nothing.
    pub open spec fn connect_target(
        self,
        device: DeviceView,
        available: Seq<DeviceView>,
        direction: Direction,
    ) -> Option<DeviceView> {
        match self.switch_target(available, direction) {
            Some(best) if device.device_type.supports_spec(direction) && best.id == device.id => Some(
                best,
            ),
            _ => None,
        }
    }

    /// The value after the connection of `device` has been handled for
    /// the slot `direction` and the switch, if it called for one,
    /// succeeded.
    pub open spec fn connected(
        self,
        device: DeviceView,
        available: Seq<DeviceView>,
        direction: Direction,
    ) -> ControllerView {
        match self.connect_target(device, available, direction) {
            Some(best) => self.after_switch(best, direction),
            None => self,
        }
    }

    /// The value after the connection of `device` has been handled for
    /// both slots, output first, and every switch succeeded.
    pub open spec fn reconciled_for(
        self,
        device: DeviceView,
        available: Seq<DeviceView>,
    ) -> ControllerView {
        self.connected(device, available, Direction::Output).connected(
            device,
            available,
            Direction::Input,
        )
    }

    /// The device that takes over the slot `direction` after `gone` has
    /// left it empty: the policy's choice among `remaining`, where `gone`
    /// could fill the slot and the slot is empty.
    pub open spec fn fallback_target(
        self,
        gone: DeviceView,
        remaining: Seq<DeviceView>,
        direction: Direction,
    ) -> Option<DeviceView> {
        if self.current(direction) is None && gone.device_type.supports_spec(direction) {
            best_device(remaining, self.policy.rules(direction), direction)
        } else {
            None
        }
    }

    /// The value after the fallback for the slot `direction` succeeded.
    pub open spec fn fallen_back(
        self,
        gone: DeviceView,
        remaining: Seq<DeviceView>,
        direction: Direction,
    ) -> ControllerView {
        match self.fallback_target(gone, remaining, direction) {
            Some(device) => self.after_switch(device, direction),
            None => self,
        }
    }
}

/// Two reconciliations in a row: where the first one's switch succeeded
/// and the devices at hand are the same, the second calls for no switch.
pub proof fn lemma_reconciliation_settles(
    controller: ControllerView,
    available: Seq<DeviceView>,
    direction: Direction,
)
    ensures
        controller.reconciled(available, direction).switch_target(available, direction) is None,
        controller.reconciled(available, direction).reconciled(available, direction)
            == controller.reconciled(available, direction),
{
}

/// With no device at hand, or with no rule in the policy, a
/// reconciliation calls for no switch.
pub proof fn lemma_nothing_to_switch(
    controller: ControllerView,
    available: Seq<DeviceView>,
    direction: Direction,
)
    requires
        available.len() == 0 || controller.policy.rules(direction).len() == 0,
    ensures
        controller.switch_target(available, direction) is None,
        controller.reconciled(available, direction) == controller,
{
    lemma_best_index(available, controller.policy.rules(direction), direction);
    if controller.policy.rules(direction).len() == 0 {
        lemma_no_rules(available, direction);
        assert(controller.policy.rules(direction) =~= Seq::empty());
    }
}

/// Every device that a reconciliation switches to fits its slot.
pub proof fn lemma_switch_target_fits(
    controller: ControllerView,
    available: Seq<DeviceView>,
    direction: Direction,
)
    ensures
        controller.switch_target(available, direction) matches Some(device)
            ==> device.device_type.supports_spec(direction),
        best_device(available, controller.policy.rules(direction), direction) matches Some(device)
            ==> device.device_type.supports_spec(direction),
{
    lemma_best_index(available, controller.policy.rules(direction), direction);
}

/// A reload keeps the intended device of a slot exactly where the new
/// policy still has a rule for the slot that matches its name.
pub proof fn lemma_reload_preserves_intent(
    controller: ControllerView,
    config: ConfigView,
    direction: Direction,
)
    ensures
        controller.after_reload(config).intended(direction) == controller.intended(direction)
            <==> (controller.intended(direction) matches Some(device) ==> controller.after_reload(
            config,
        ).policy.considers(direction, device.name)),
        controller.after_reload(config).intended(direction) is None
            || controller.after_reload(config).intended(direction) == controller.intended(
            direction,
        ),
        controller.after_reload(config).current_output == controller.current_output,
        controller.after_reload(config).current_input == controller.current_input,
{
}

/// What can happen to a controller.
pub enum ControllerEvent {
    /// The system accepted `device` as the default of the slot
    /// `direction`.
    Applied { device: DeviceView, direction: Direction },
    /// The system refused a switch.
    Refused,
    /// The device with the id `id` was seen to leave.
    Disconnected { id: Seq<char> },
    /// The configuration was replaced.
    Reloaded { config: ConfigView },
    /// The system reported its defaults.
    Reported { output: Option<DeviceView>, input: Option<DeviceView> },
}

impl ControllerView {
    /// The value after one event.
    pub open spec fn after_event(self, event: ControllerEvent) -> ControllerView {
        match event {
            ControllerEvent::Applied { device, direction } => self.after_switch(device, direction),
            ControllerEvent::Refused => self,
            ControllerEvent::Disconnected { id } => self.after_disconnect(id),
            ControllerEvent::Reloaded { config } => self.after_reload(config),
            ControllerEvent::Reported { output, input } => ControllerView {
                current_output: Self::synced_slot(self.current_output, output),
                current_input: Self::synced_slot(self.current_input, input),
                ..self
            },
        }
    }

    /// The value after a sequence of events.
    pub open spec fn after_events(self, events: Seq<ControllerEvent>) -> ControllerView
        decreases events.len(),
    {
        if events.len() == 0 {
            self
        } else {
            self.after_events(events.drop_last()).after_event(events.last())
        }
    }
}

/// Whether the event at position `at` made `device` the default of the
/// slot `direction` and no later event saw a device of its id leave.
pub open spec fn applied_and_not_removed(
    events: Seq<ControllerEvent>,
    at: int,
    device: DeviceView,
    direction: Direction,
) -> bool {
    &&& 0 <= at < events.len()
    &&& events[at] == (ControllerEvent::Applied { device, direction })
    &&& forall|later: int|
        at < later < events.len() ==> (#[trigger] events[later]) != (ControllerEvent::Disconnected {
            id: device.id,
        })
}

/// After any sequence of events the intended device of a slot, if there
/// is one, is a device that an earlier successful switch of that slot
/// installed and that has not been seen to leave since. This holds of a
/// controller that starts without intent.
pub proof fn lemma_intent_comes_from_switch(
    start: ControllerView,
    events: Seq<ControllerEvent>,
    direction: Direction,
)
    requires
        start.intended(direction) is None,
    ensures
        start.after_events(events).intended(direction) matches Some(device) ==> exists|at: int|
            applied_and_not_removed(events, at, device, direction),
    decreases events.len(),
{
    if events.len() > 0 {
        let earlier = events.drop_last();
        let last = events.len() - 1;
        lemma_intent_comes_from_switch(start, earlier, direction);
        let before = start.after_events(earlier);
        let after = start.after_events(events);
        if after.intended(direction) is Some {
            let device = after.intended(direction)->0;
            if events.last() == (ControllerEvent::Applied { device, direction }) {
                assert(applied_and_not_removed(events, last, device, direction));
            } else {
                assert(before.intended(direction) == Some(device));
                let at = choose|at: int| applied_and_not_removed(earlier, at, device, direction);
                assert(events[at] == earlier[at]);
                assert forall|later: int| at < later < events.len() implies (
                #[trigger] events[later]) != (ControllerEvent::Disconnected { id: device.id }) by {
                    if later < last {
                        assert(events[later] == earlier[later]);
                    }
                }
                assert(applied_and_not_removed(events, at, device, direction));
            }
        }
    }
}

/// The four slots of a controller's record.
pub struct SlotsView {
    /// The device believed to be the default output.
    pub current_output: Option<DeviceView>,
    /// The device believed to be the default input.
    pub current_input: Option<DeviceView>,
    /// The device last made the default output.
    pub intended_output: Option<DeviceView>,
    /// The device last made the default input.
    pub intended_input: Option<DeviceView>,
}

impl SlotsView {
    /// An intended device fits its slot.
    pub open spec fn well_formed(self) -> bool {
        &&& self.intended_output matches Some(device) ==> device.device_type.supports_spec(
            Direction::Output,
        )
        &&& self.intended_input matches Some(device) ==> device.device_type.supports_spec(
            Direction::Input,
        )
    }

    /// The device believed to be the default of a slot.
    pub open spec fn current(self, direction: Direction) -> Option<DeviceView> {
        match direction {
            Direction::Input => self.current_input,
            Direction::Output => self.current_output,
        }
    }

    /// The device last made the default of a slot.
    pub open spec fn intended(self, direction: Direction) -> Option<DeviceView> {
        match direction {
            Direction::Input => self.intended_input,
            Direction::Output => self.intended_output,
        }
    }
}

/// The devices of `devices` that have neither the id nor the name of
/// `gone`.
pub open spec fn other_than(gone: DeviceView) -> spec_fn(DeviceView) -> bool {
    |device: DeviceView| device.id != gone.id && device.name != gone.name
}

/// The position of the first device in `devices` with the name `name`
/// whose type fits the slot `direction`.
pub open spec fn named_index(
    devices: Seq<DeviceView>,
    name: Seq<char>,
    direction: Direction,
    at: int,
) -> bool {
    &&& 0 <= at < devices.len()
    &&& devices[at].name == name
    &&& devices[at].device_type.supports_spec(direction)
    &&& forall|k: int|
        0 <= k < at ==> !((#[trigger] devices[k]).name == name && devices[k].device_type.supports_spec(
            direction,
        ))
}

/// The status of the defaults `current_output` and `current_input` under
/// `policy` with the devices `available` at hand.
pub open spec fn preference_status(
    policy: PriorityView,
    available: Seq<DeviceView>,
    current_output: Option<DeviceView>,
    current_input: Option<DeviceView>,
) -> PreferenceStatusView {
    status_of(
        name_of(current_output),
        name_of(current_input),
        name_of(best_device(available, policy.output_rules, Direction::Output)),
        name_of(best_device(available, policy.input_rules, Direction::Input)),
    )
}

/// The device that the preferences call for in the slot `direction`: the
/// policy's choice among `available`, unless the system's default
/// already has its name.
pub open spec fn preference_target(
    policy: PriorityView,
    available: Seq<DeviceView>,
    current: Option<DeviceView>,
    direction: Direction,
) -> Option<DeviceView> {
    match best_device(available, policy.rules(direction), direction) {
        Some(preferred) if name_of(current) != Some(preferred.name) => Some(preferred),
        _ => None,
    }
}

/// Whether the audio system `after` is what is left of `before` by what
/// it was asked between the effects `before_effects` and `after_effects`:
/// requests are only added, and where none was added the audio system is
/// as it was.
pub open spec fn audio_system_kept<A>(
    before: A,
    before_effects: Effects,
    after: A,
    after_effects: Effects,
) -> bool {
    &&& after_effects.requests.len() >= before_effects.requests.len()
    &&& after_effects.subscriptions >= before_effects.subscriptions
    &&& after_effects.requests.len() == before_effects.requests.len() && after_effects.subscriptions
        == before_effects.subscriptions ==> after == before
}

/// What holds after two switches in a row, of the output to
/// `output_target` and then of the input to `input_target`, each with the
/// reason `reason` and each only where there is a target. The first
/// switch that the system refuses ends the work and gives `outcome` its
/// error: the record then holds what the switches before it made of it,
/// and the user has been told of the refusal.
pub open spec fn switched_in_turn(
    before: ControllerView,
    before_effects: Effects,
    after: ControllerView,
    after_effects: Effects,
    output_target: Option<DeviceView>,
    input_target: Option<DeviceView>,
    reason: SwitchReason,
    outcome: Result<(), MonitorError>,
) -> bool {
    let after_output = match output_target {
        Some(device) => before.after_switch(device, Direction::Output),
        None => before,
    };
    let output_effects = before_effects.after_target(
        before.settings,
        output_target,
        Direction::Output,
        reason,
        None,
    );
    match outcome {
        Ok(_) => {
            &&& after == match input_target {
                Some(device) => after_output.after_switch(device, Direction::Input),
                None => after_output,
            }
            &&& after_effects == output_effects.after_target(
                before.settings,
                input_target,
                Direction::Input,
                reason,
                None,
            )
        },
        Err(error) => {
            ||| output_target is Some && after == before && after_effects
                == before_effects.after_target(
                before.settings,
                output_target,
                Direction::Output,
                reason,
                Some(error.message@),
            )
            ||| input_target is Some && after == after_output && after_effects
                == output_effects.after_target(
                before.settings,
                input_target,
                Direction::Input,
                reason,
                Some(error.message@),
            )
        },
    }
}

/// How applying the preferences ended, without what it changed.
pub open spec fn unit_outcome(
    changes: Result<PreferenceChanges, MonitorError>,
) -> Result<(), MonitorError> {
    match changes {
        Ok(_) => Ok(()),
        Err(error) => Err(error),
    }
}

/// What is known of the changes that applying the preferences made:
/// nothing where it failed.
pub open spec fn changes_made(
    changes: Result<PreferenceChanges, MonitorError>,
) -> Option<PreferenceChangesView> {
    match changes {
        Ok(changes) => Some(changes@),
        Err(_) => None,
    }
}

/// What holds after the preferences were applied among the devices
/// `available`, with `output` and `input` as the system's defaults: the
/// preferred device of each slot whose default has another name was to
/// become its default, output first, and the first switch that the system
/// refused ended the work. `changes` says what was changed, where the work
/// succeeded.
pub open spec fn preferences_applied(
    before: ControllerView,
    before_effects: Effects,
    after: ControllerView,
    after_effects: Effects,
    available: Seq<DeviceView>,
    output: Option<DeviceView>,
    input: Option<DeviceView>,
    changes: Option<PreferenceChangesView>,
) -> bool {
    let output_target = preference_target(before.policy, available, output, Direction::Output);
    let input_target = preference_target(before.policy, available, input, Direction::Input);
    let after_output = match output_target {
        Some(device) => before.after_switch(device, Direction::Output),
        None => before,
    };
    &&& after.policy == before.policy
    &&& after.settings == before.settings
    &&& after.well_formed()
    &&& changes matches Some(changes) ==> {
        &&& changes == changes_of(name_of(output_target), name_of(input_target))
        &&& after_effects == before_effects.after_target(
            before.settings,
            output_target,
            Direction::Output,
            SwitchReason::HigherPriority,
            None,
        ).after_target(
            before.settings,
            input_target,
            Direction::Input,
            SwitchReason::HigherPriority,
            None,
        )
        &&& after == match input_target {
            Some(device) => after_output.after_switch(device, Direction::Input),
            None => after_output,
        }
    }
    &&& changes is None ==> (after == before || (output_target is Some && after == after_output))
    &&& output_target is None && input_target is None ==> changes is Some
}

/// A request to the audio system to make the device of a name the
/// default of a slot.
pub struct SwitchRequest {
    /// The slot.
    pub direction: Direction,
    /// The name that was handed to the audio system.
    pub device_name: Seq<char>,
}

/// What a controller has asked of its audio system and of its sender.
pub struct Effects {
    /// The switches that it has asked the audio system for, in order.
    pub requests: Seq<SwitchRequest>,
    /// The titles and bodies that it has handed to its sender, in order.
    pub notifications: Seq<(Seq<char>, Seq<char>)>,
    /// How often it has asked the audio system to report changes.
    pub subscriptions: nat,
}

/// How the audio system answered a request: `None` where it did what it
/// was asked, else the words of its error.
pub open spec fn failure_of(outcome: Result<(), MonitorError>) -> Option<Seq<char>> {
    match outcome {
        Ok(_) => None,
        Err(error) => Some(error.message@),
    }
}

impl Effects {
    /// The effects after the audio system has been asked once more to
    /// report changes.
    pub open spec fn after_subscription(self) -> Effects {
        Effects { subscriptions: self.subscriptions + 1, ..self }
    }

    /// Nothing asked and nothing handed over.
    pub open spec fn none() -> Effects {
        Effects { requests: Seq::empty(), notifications: Seq::empty(), subscriptions: 0 }
    }

    /// The effects after the audio system has been asked to make
    /// `device` the default of the slot `direction`: the request has been
    /// made, and the user has been told of the switch or, where the system
    /// answered with an error, of the failure, as far as the settings let
    /// that through.
    pub open spec fn after_attempt(
        self,
        settings: NotificationSettings,
        device: DeviceView,
        direction: Direction,
        reason: SwitchReason,
        failure: Option<Seq<char>>,
    ) -> Effects {
        Effects {
            requests: self.requests.push(SwitchRequest { direction, device_name: device.name }),
            notifications: settings.notified(
                self.notifications,
                match failure {
                    None => switched_notification(device, reason),
                    Some(words) => switch_failed_notification(device.name, words),
                },
            ),
            ..self
        }
    }

    /// The effects after a switch to `target`, where there is one; where
    /// there is none, nothing is asked and nothing is told.
    pub open spec fn after_target(
        self,
        settings: NotificationSettings,
        target: Option<DeviceView>,
        direction: Direction,
        reason: SwitchReason,
        failure: Option<Seq<char>>,
    ) -> Effects {
        match target {
            Some(device) => self.after_attempt(settings, device, direction, reason, failure),
            None => self,
        }
    }
}

} // verus!
