//! The reconciliation controller.
//!
//! The controller owns the engine's record of which device it made the
//! default for each slot. It is the only part of the engine that asks the
//! system to change a default, and it asks only where the policy's choice
//! differs from what it believes the default to be.

use crate::audio::controller_model::{
    audio_system_kept, changes_made, failure_of, holds_id, lemma_switch_target_fits, name_of,
    named_index, other_than, preference_status, preference_target, preferences_applied,
    switched_in_turn, unit_outcome, without_id, ControllerEvent, ControllerView, Effects,
    SlotsView, SwitchRequest,
};
use crate::audio::device::{device_views, AudioDevice, DeviceInfo, DeviceView, Direction};
use crate::config::types::{equal_text, Config};
use crate::error::{ErrorKind, MonitorError};
use crate::notifications::{
    connected_notification, disconnected_notification, NotificationManager, NotificationSender,
    NotificationSettings, SwitchReason, TestNotificationSender,
};
use crate::preference_debugging::{changes_of, PreferenceChanges, PreferenceStatus};
use crate::priority::manager::{
    best_device, best_index, device_of, lemma_best_index, DevicePriorityManager, PriorityView,
};
use crate::system::traits::{
    availability_of, default_of, enumeration_of, observation_fails, observation_of,
    reported_device, AudioSystemInterface,
};
use vstd::prelude::*;

verus! {

/// The devices of `devices` that have neither the id nor the name of
/// `gone`, in order.
pub fn devices_other_than(devices: &[AudioDevice], gone: &AudioDevice) -> (kept: Vec<AudioDevice>)
    ensures
        device_views(kept@) == device_views(devices@).filter(other_than(gone@)),
{
    let ghost views = device_views(devices@);
    let ghost test = other_than(gone@);
    let mut kept: Vec<AudioDevice> = Vec::new();
    let mut index: usize = 0;
    proof {
        assert(views.take(0) == Seq::<DeviceView>::empty());
        reveal(Seq::filter);
        assert(device_views(kept@) == views.take(0).filter(test));
    }
    while index < devices.len()
        invariant
            index <= devices@.len(),
            views == device_views(devices@),
            test == other_than(gone@),
            device_views(kept@) == views.take(index as int).filter(test),
        decreases devices@.len() - index,
    {
        let device = &devices[index];
        let keep = !equal_text(device.id.as_str(), gone.id.as_str()) && !equal_text(
            device.name.as_str(),
            gone.name.as_str(),
        );
        proof {
            assert(views.take(index + 1) == views.take(index as int).push(device@));
            views.take(index as int).lemma_filter_push(device@, test);
            assert(keep == test(device@));
        }
        if keep {
            let ghost before = kept@;
            kept.push(device.clone());
            assert(device_views(kept@) == device_views(before).push(device@));
        }
        index += 1;
    }
    proof {
        assert(views.take(devices@.len() as int) == views);
    }
    kept
}

/// The first device in `devices` with the name `name` whose type fits
/// the slot `direction`.
pub fn find_named(
    devices: &[AudioDevice],
    name: &str,
    direction: Direction,
) -> (found: Option<usize>)
    ensures
        match found {
            Some(at) => named_index(device_views(devices@), name@, direction, at as int),
            None => forall|k: int|
                0 <= k < devices@.len() ==> !((#[trigger] device_views(devices@)[k]).name == name@
                    && device_views(devices@)[k].device_type.supports_spec(direction)),
        },
{
    let ghost views = device_views(devices@);
    let mut index: usize = 0;
    while index < devices.len()
        invariant
            index <= devices@.len(),
            views == device_views(devices@),
            forall|k: int|
                0 <= k < index ==> !((#[trigger] views[k]).name == name@
                    && views[k].device_type.supports_spec(direction)),
        decreases devices@.len() - index,
    {
        let device = &devices[index];
        if device.device_type.supports(direction) && equal_text(device.name.as_str(), name) {
            return Some(index);
        }
        index += 1;
    }
    None
}

/// The controller's record: for each slot, the device it believes to be
/// the default and the device it last made the default.
pub(crate) struct ControllerState {
    current_output: Option<AudioDevice>,
    current_input: Option<AudioDevice>,
    intended_output: Option<AudioDevice>,
    intended_input: Option<AudioDevice>,
}

impl View for ControllerState {
    type V = SlotsView;

    closed spec fn view(&self) -> SlotsView {
        SlotsView {
            current_output: device_of(self.current_output),
            current_input: device_of(self.current_input),
            intended_output: device_of(self.intended_output),
            intended_input: device_of(self.intended_input),
        }
    }
}

impl ControllerState {
    #[verifier::type_invariant]
    spec fn intent_fits(self) -> bool {
        self@.well_formed()
    }

    /// A record with four empty slots.
    pub(crate) fn new() -> (state: Self)
        ensures
            state@ == (SlotsView {
                current_output: None,
                current_input: None,
                intended_output: None,
                intended_input: None,
            }),
    {
        Self { current_output: None, current_input: None, intended_output: None, intended_input: None }
    }

    /// The device believed to be the default of the slot `direction`.
    pub(crate) fn current(&self, direction: Direction) -> (device: Option<&AudioDevice>)
        ensures
            device is Some <==> self@.current(direction) is Some,
            device matches Some(device) ==> Some(device@) == self@.current(direction),
            self@.well_formed(),
    {
        proof {
            use_type_invariant(self);
        }
        match direction {
            Direction::Input => self.current_input.as_ref(),
            Direction::Output => self.current_output.as_ref(),
        }
    }

    /// The device last made the default of the slot `direction`.
    pub(crate) fn intended(&self, direction: Direction) -> (device: Option<&AudioDevice>)
        ensures
            device is Some <==> self@.intended(direction) is Some,
            device matches Some(device) ==> Some(device@) == self@.intended(direction)
                && device.device_type.supports_spec(direction),
            self@.well_formed(),
    {
        proof {
            use_type_invariant(self);
        }
        match direction {
            Direction::Input => self.intended_input.as_ref(),
            Direction::Output => self.intended_output.as_ref(),
        }
    }

    /// Records that `device` has been made the default of the slot
    /// `direction`.
    pub(crate) fn record_switch(&mut self, device: AudioDevice, direction: Direction)
        requires
            device.device_type.supports_spec(direction),
        ensures
            final(self)@ == match direction {
                Direction::Input => SlotsView {
                    current_input: Some(device@),
                    intended_input: Some(device@),
                    ..old(self)@
                },
                Direction::Output => SlotsView {
                    current_output: Some(device@),
                    intended_output: Some(device@),
                    ..old(self)@
                },
            },
            final(self)@.well_formed(),
    {
        proof {
            use_type_invariant(&*self);
        }
        match direction {
            Direction::Input => {
                self.current_input = Some(device.clone());
                self.intended_input = Some(device);
            },
            Direction::Output => {
                self.current_output = Some(device.clone());
                self.intended_output = Some(device);
            },
        }
    }

    /// Empties every slot that holds a device with the id `id` and says
    /// whether there was one.
    pub(crate) fn forget(&mut self, id: &str) -> (cleared: bool)
        ensures
            final(self)@ == (SlotsView {
                current_output: without_id(old(self)@.current_output, id@),
                current_input: without_id(old(self)@.current_input, id@),
                intended_output: without_id(old(self)@.intended_output, id@),
                intended_input: without_id(old(self)@.intended_input, id@),
            }),
            cleared == (holds_id(old(self)@.current_output, id@) || holds_id(
                old(self)@.current_input,
                id@,
            ) || holds_id(old(self)@.intended_output, id@) || holds_id(
                old(self)@.intended_input,
                id@,
            )),
            final(self)@.well_formed(),
    {
        proof {
            use_type_invariant(&*self);
        }
        let mut cleared = false;
        if slot_holds(&self.current_output, id) {
            self.current_output = None;
            cleared = true;
        }
        if slot_holds(&self.current_input, id) {
            self.current_input = None;
            cleared = true;
        }
        if slot_holds(&self.intended_output, id) {
            self.intended_output = None;
            cleared = true;
        }
        if slot_holds(&self.intended_input, id) {
            self.intended_input = None;
            cleared = true;
        }
        cleared
    }

    /// Takes over the defaults that the system reports: a reported device
    /// replaces the believed one of its slot where their ids differ.
    pub(crate) fn sync_defaults(
        &mut self,
        reported_output: Option<AudioDevice>,
        reported_input: Option<AudioDevice>,
    )
        ensures
            final(self)@ == (SlotsView {
                current_output: ControllerView::synced_slot(
                    old(self)@.current_output,
                    device_of(reported_output),
                ),
                current_input: ControllerView::synced_slot(
                    old(self)@.current_input,
                    device_of(reported_input),
                ),
                ..old(self)@
            }),
            final(self)@.well_formed(),
    {
        proof {
            use_type_invariant(&*self);
        }
        if let Some(reported) = reported_output {
            if !slot_holds(&self.current_output, reported.id.as_str()) {
                self.current_output = Some(reported);
            }
        }
        if let Some(reported) = reported_input {
            if !slot_holds(&self.current_input, reported.id.as_str()) {
                self.current_input = Some(reported);
            }
        }
    }

    /// Gives up the intent of the slot `direction`.
    pub(crate) fn drop_intent(&mut self, direction: Direction)
        ensures
            final(self)@ == match direction {
                Direction::Input => SlotsView { intended_input: None, ..old(self)@ },
                Direction::Output => SlotsView { intended_output: None, ..old(self)@ },
            },
            final(self)@.well_formed(),
    {
        proof {
            use_type_invariant(&*self);
        }
        match direction {
            Direction::Input => {
                self.intended_input = None;
            },
            Direction::Output => {
                self.intended_output = None;
            },
        }
    }
}

/// Whether `slot` holds a device with the id `id`.
pub fn slot_holds(slot: &Option<AudioDevice>, id: &str) -> (holds: bool)
    ensures
        holds == holds_id(device_of(*slot), id@),
{
    match slot {
        Some(device) => equal_text(device.id.as_str(), id),
        None => false,
    }
}

/// Owns the record of the engine's intent and applies the policy's
/// decisions through an [`AudioSystemInterface`].
pub struct DeviceController<
    A: AudioSystemInterface,
    T: NotificationSender = TestNotificationSender,
> {
    audio_system: A,
    priority_manager: DevicePriorityManager,
    notification_manager: NotificationManager<T>,
    state: ControllerState,
    /// The switches that the controller has asked its audio system for.
    requested: Ghost<Seq<SwitchRequest>>,
    /// How often the controller has asked its audio system to report
    /// changes.
    subscribed: Ghost<nat>,
}

impl<A: AudioSystemInterface> DeviceController<A, TestNotificationSender> {
    /// A controller with the policy of `config` that believes nothing of
    /// the system yet and keeps its notifications in memory.
    pub fn new(audio_system: A, config: &Config) -> (controller: Self)
        ensures
            controller@ == Self::initial_view(config),
            controller@.well_formed(),
            controller.effects() == Effects::none(),
            controller.audio_system_spec() == audio_system,
    {
        Self::with_sender(audio_system, config, TestNotificationSender::new())
    }
}

impl<A: AudioSystemInterface, T: NotificationSender> View for DeviceController<A, T> {
    type V = ControllerView;

    closed spec fn view(&self) -> ControllerView {
        ControllerView {
            policy: self.priority_manager@,
            settings: self.notification_manager.settings(),
            current_output: self.state@.current_output,
            current_input: self.state@.current_input,
            intended_output: self.state@.intended_output,
            intended_input: self.state@.intended_input,
        }
    }
}

impl<A: AudioSystemInterface, T: NotificationSender> DeviceController<A, T> {
    /// What the controller has asked of its audio system and of its
    /// sender so far.
    pub closed spec fn effects(&self) -> Effects {
        Effects {
            requests: self.requested@,
            notifications: self.notification_manager.handed(),
            subscriptions: self.subscribed@,
        }
    }

    /// The value of a controller that has just been made from `config`.
    pub open spec fn initial_view(config: &Config) -> ControllerView {
        ControllerView {
            policy: PriorityView {
                output_rules: config@.output_devices,
                input_rules: config@.input_devices,
                current_output: None,
                current_input: None,
            },
            settings: NotificationSettings {
                enabled: true,
                show_device_availability: config.notifications.show_device_availability,
                show_switching_actions: config.notifications.show_switching_actions,
            },
            current_output: None,
            current_input: None,
            intended_output: None,
            intended_input: None,
        }
    }

    /// A controller with the policy of `config` that believes nothing of
    /// the system yet and hands its notifications to `sender`.
    pub fn with_sender(audio_system: A, config: &Config, sender: T) -> (controller: Self)
        ensures
            controller@ == Self::initial_view(config),
            controller@.well_formed(),
            controller.effects() == Effects::none(),
            controller.audio_system_spec() == audio_system,
    {
        let controller = Self {
            audio_system,
            priority_manager: DevicePriorityManager::new(config),
            notification_manager: NotificationManager::with_sender(config, sender),
            state: ControllerState::new(),
            requested: Ghost(Seq::empty()),
            subscribed: Ghost(0),
        };
        assert(controller.effects().notifications =~= Seq::empty());
        controller
    }

    /// Starts the monitoring of device changes: asks the audio system
    /// once to report changes from now on. Whether it will is the audio
    /// system's answer.
    pub fn initialize(&mut self) -> (started: Result<(), MonitorError>)
        ensures
            exists|system: &mut A|
                mut_ref_current(system) == old(self).audio_system_spec() && mut_ref_future(system)
                    == final(self).audio_system_spec() && #[trigger] call_ensures(
                    A::add_device_change_listener,
                    (system,),
                    started,
                ),
            final(self)@ == old(self)@,
            final(self).effects() == old(self).effects().after_subscription(),
    {
        self.start_monitoring()
    }

    /// Asks the audio system once to report changes from now on. Whether
    /// it will is the audio system's answer.
    pub fn start_monitoring(&mut self) -> (started: Result<(), MonitorError>)
        ensures
            exists|system: &mut A|
                mut_ref_current(system) == old(self).audio_system_spec() && mut_ref_future(system)
                    == final(self).audio_system_spec() && #[trigger] call_ensures(
                    A::add_device_change_listener,
                    (system,),
                    started,
                ),
            final(self)@ == old(self)@,
            final(self).effects() == old(self).effects().after_subscription(),
    {
        proof {
            self.subscribed@ = self.subscribed@ + 1;
        }
        self.audio_system.add_device_change_listener()
    }

    /// The audio system of the controller.
    pub closed spec fn audio_system_spec(&self) -> A {
        self.audio_system
    }

    /// The audio system, to look at what it has been asked.
    pub fn get_audio_system(&self) -> (audio_system: &A)
        ensures
            *audio_system == self.audio_system_spec(),
    {
        &self.audio_system
    }

    /// The audio system, to change what it reports.
    pub fn audio_system_mut(&mut self) -> (audio_system: &mut A)
        ensures
            *audio_system == old(self).audio_system_spec(),
            final(self).audio_system_spec() == *final(audio_system),
            final(self)@ == old(self)@,
            final(self).effects() == old(self).effects(),
    {
        &mut self.audio_system
    }

    /// The notification manager, to look at what it has sent.
    pub fn notification_manager(&self) -> (manager: &NotificationManager<T>)
        ensures
            manager.settings() == self@.settings,
            manager.handed() == self.effects().notifications,
    {
        &self.notification_manager
    }

    /// Shows that every intended device fits its slot.
    pub fn intent_is_well_formed(&self)
        ensures
            self@.well_formed(),
    {
        proof {
            use_type_invariant(&self.state);
        }
    }

    /// Tells the user that `device` has been connected, where wanted. A
    /// notification that cannot be delivered is given up.
    pub fn announce_connected(&mut self, device: &AudioDevice)
        ensures
            final(self).audio_system_spec() == old(self).audio_system_spec(),
            final(self)@ == old(self)@,
            final(self).effects() == (Effects {
                notifications: old(self)@.settings.notified(
                    old(self).effects().notifications,
                    connected_notification(device@),
                ),
                ..old(self).effects()
            }),
    {
        let _ = self.notification_manager.device_connected(device);
    }

    /// Tells the user that `device` has been disconnected, where wanted.
    /// A notification that cannot be delivered is given up.
    pub fn announce_disconnected(&mut self, device: &AudioDevice)
        ensures
            final(self).audio_system_spec() == old(self).audio_system_spec(),
            final(self)@ == old(self)@,
            final(self).effects() == (Effects {
                notifications: old(self)@.settings.notified(
                    old(self).effects().notifications,
                    disconnected_notification(device@),
                ),
                ..old(self).effects()
            }),
    {
        let _ = self.notification_manager.device_disconnected(device);
    }

    /// The resolver with the controller's policy.
    pub fn priority_manager(&self) -> (manager: &DevicePriorityManager)
        ensures
            manager@ == self@.policy,
    {
        &self.priority_manager
    }

    /// Records that the system reports the device named `device_name` as
    /// the default of the slot `direction`.
    pub fn observe_default(&mut self, direction: Direction, device_name: String)
        ensures
            final(self)@ == (ControllerView {
                policy: match direction {
                    Direction::Input => PriorityView {
                        current_input: Some(device_name@),
                        ..old(self)@.policy
                    },
                    Direction::Output => PriorityView {
                        current_output: Some(device_name@),
                        ..old(self)@.policy
                    },
                },
                ..old(self)@
            }),
            final(self).effects() == old(self).effects(),
            final(self).audio_system_spec() == old(self).audio_system_spec(),
    {
        match direction {
            Direction::Input => self.priority_manager.update_current_input(device_name),
            Direction::Output => self.priority_manager.update_current_output(device_name),
        }
    }

    /// Whether the controller believes a device with the id of `device`
    /// to be the default of the slot `direction`.
    fn is_current(&self, direction: Direction, device: &AudioDevice) -> (current: bool)
        ensures
            current == holds_id(self@.current(direction), device.id@),
    {
        match self.state.current(direction) {
            Some(believed) => believed.id == device.id,
            None => false,
        }
    }

    /// Asks the audio system to make the device named `device_name` the
    /// default of the slot `direction`, and notes that it has asked.
    fn request_switch(&mut self, direction: Direction, device_name: &str) -> (outcome: Result<
        (),
        MonitorError,
    >)
        ensures
            final(self).effects().requests.len() == old(self).effects().requests.len() + 1
                && final(self).effects().subscriptions == old(self).effects().subscriptions
                ==> exists|system: &mut A, id: &str|
                #![trigger call_ensures(A::set_default_output_device, (system, id), outcome)]
                #![trigger call_ensures(A::set_default_input_device, (system, id), outcome)]
                mut_ref_current(system) == old(self).audio_system_spec() && mut_ref_future(system)
                    == final(self).audio_system_spec()
                    && id@ == final(self).effects().requests.last().device_name
                    && match final(self).effects().requests.last().direction {
                    Direction::Output => call_ensures(
                        A::set_default_output_device,
                        (system, id),
                        outcome,
                    ),
                    Direction::Input => call_ensures(
                        A::set_default_input_device,
                        (system, id),
                        outcome,
                    ),
                },
            final(self).effects().requests.len() == old(self).effects().requests.len() + 2
                && final(self).effects().subscriptions == old(self).effects().subscriptions
                ==> exists|first: &mut A, first_id: &str, second: &mut A, second_id: &str|
                #![trigger
                    call_ensures(
                        A::set_default_output_device,
                        (first, first_id),
                        Ok::<(), MonitorError>(()),
                    ),
                    call_ensures(A::set_default_input_device, (second, second_id), outcome),
                ]
                mut_ref_current(first) == old(self).audio_system_spec() && mut_ref_current(second)
                    == mut_ref_future(first) && mut_ref_future(second)
                    == final(self).audio_system_spec()
                        && first_id@ == final(self).effects().requests[final(self).effects().requests.len() - 2].device_name
                    && second_id@ == final(self).effects().requests.last().device_name
                    && final(self).effects().requests[final(self).effects().requests.len()
                    - 2].direction == Direction::Output
                    && final(self).effects().requests.last().direction == Direction::Input
                    && call_ensures(
                    A::set_default_output_device,
                    (first, first_id),
                    Ok::<(), MonitorError>(()),
                ) && call_ensures(A::set_default_input_device, (second, second_id), outcome),
            audio_system_kept(
                old(self).audio_system_spec(),
                old(self).effects(),
                final(self).audio_system_spec(),
                final(self).effects(),
            ),
            exists|system: &mut A, id: &str|
                #![trigger call_ensures(A::set_default_output_device, (system, id), outcome)]
                #![trigger call_ensures(A::set_default_input_device, (system, id), outcome)]
                mut_ref_current(system) == old(self).audio_system_spec() && mut_ref_future(system)
                    == final(self).audio_system_spec() && id@ == device_name@ && match direction {
                    Direction::Output => call_ensures(
                        A::set_default_output_device,
                        (system, id),
                        outcome,
                    ),
                    Direction::Input => call_ensures(
                        A::set_default_input_device,
                        (system, id),
                        outcome,
                    ),
                },
            final(self)@ == old(self)@,
            final(self).effects() == (Effects {
                requests: old(self).effects().requests.push(
                    SwitchRequest { direction, device_name: device_name@ },
                ),
                ..old(self).effects()
            }),
    {
        self.requested = Ghost(
            self.requested@.push(SwitchRequest { direction, device_name: device_name@ }),
        );
        match direction {
            Direction::Input => self.audio_system.set_default_input_device(device_name),
            Direction::Output => self.audio_system.set_default_output_device(device_name),
        }
    }

    /// Asks the system to make `device` the default of the slot
    /// `direction` and, where it does, records the device as intended and
    /// current. The user is told of the switch or of its failure, where
    /// the settings ask for that. A device whose type does not fit the
    /// slot is refused without asking the system.
    pub fn apply_default(
        &mut self,
        device: &AudioDevice,
        direction: Direction,
        reason: SwitchReason,
    ) -> (applied: Result<(), MonitorError>)
        ensures
            final(self).effects().requests.len() == old(self).effects().requests.len() + 1
                && final(self).effects().subscriptions == old(self).effects().subscriptions
                ==> exists|system: &mut A, id: &str|
                #![trigger call_ensures(A::set_default_output_device, (system, id), applied)]
                #![trigger call_ensures(A::set_default_input_device, (system, id), applied)]
                mut_ref_current(system) == old(self).audio_system_spec() && mut_ref_future(system)
                    == final(self).audio_system_spec()
                    && id@ == final(self).effects().requests.last().device_name
                    && match final(self).effects().requests.last().direction {
                    Direction::Output => call_ensures(
                        A::set_default_output_device,
                        (system, id),
                        applied,
                    ),
                    Direction::Input => call_ensures(
                        A::set_default_input_device,
                        (system, id),
                        applied,
                    ),
                },
            final(self).effects().requests.len() == old(self).effects().requests.len() + 2
                && final(self).effects().subscriptions == old(self).effects().subscriptions
                ==> exists|first: &mut A, first_id: &str, second: &mut A, second_id: &str|
                #![trigger
                    call_ensures(
                        A::set_default_output_device,
                        (first, first_id),
                        Ok::<(), MonitorError>(()),
                    ),
                    call_ensures(A::set_default_input_device, (second, second_id), applied),
                ]
                mut_ref_current(first) == old(self).audio_system_spec() && mut_ref_current(second)
                    == mut_ref_future(first) && mut_ref_future(second)
                    == final(self).audio_system_spec()
                        && first_id@ == final(self).effects().requests[final(self).effects().requests.len() - 2].device_name
                    && second_id@ == final(self).effects().requests.last().device_name
                    && final(self).effects().requests[final(self).effects().requests.len()
                    - 2].direction == Direction::Output
                    && final(self).effects().requests.last().direction == Direction::Input
                    && call_ensures(
                    A::set_default_output_device,
                    (first, first_id),
                    Ok::<(), MonitorError>(()),
                ) && call_ensures(A::set_default_input_device, (second, second_id), applied),
            device.device_type.supports_spec(direction) ==> exists|system: &mut A, id: &str|
                #![trigger call_ensures(A::set_default_output_device, (system, id), applied)]
                #![trigger call_ensures(A::set_default_input_device, (system, id), applied)]
                mut_ref_current(system) == old(self).audio_system_spec() && mut_ref_future(system)
                    == final(self).audio_system_spec() && id@ == device.name@ && match direction {
                    Direction::Output => call_ensures(
                        A::set_default_output_device,
                        (system, id),
                        applied,
                    ),
                    Direction::Input => call_ensures(
                        A::set_default_input_device,
                        (system, id),
                        applied,
                    ),
                },
            audio_system_kept(
                old(self).audio_system_spec(),
                old(self).effects(),
                final(self).audio_system_spec(),
                final(self).effects(),
            ),
            !device.device_type.supports_spec(direction) ==> applied is Err
                && final(self).effects() == old(self).effects(),
            device.device_type.supports_spec(direction)
                ==> final(self).effects() == old(self).effects().after_attempt(
                old(self)@.settings,
                device@,
                direction,
                reason,
                failure_of(applied),
            ),
            applied is Ok ==> final(self)@ == old(self)@.after_switch(device@, direction),
            applied is Err ==> final(self)@ == old(self)@,
            final(self)@.well_formed(),
    {
        proof {
            use_type_invariant(&self.state);
        }
        if !device.device_type.supports(direction) {
            return Err(
                MonitorError::with_detail(
                    ErrorKind::DeviceNotFound,
                    "Device does not fit the slot: ",
                    device.name.as_str(),
                ),
            );
        }
        let outcome = self.request_switch(direction, device.name.as_str());
        match &outcome {
            Ok(()) => {
                self.state.record_switch(device.clone(), direction);
                let _ = self.notification_manager.device_switched(device, reason);
            },
            Err(error) => {
                let _ = self.notification_manager.switch_failed(
                    device.name.as_str(),
                    error.message.as_str(),
                );
            },
        }
        outcome
    }

    /// Makes `device` the default output, on the user's wish.
    pub fn switch_to_output_device(&mut self, device: &AudioDevice) -> (switched: Result<
        (),
        MonitorError,
    >)
        ensures
            final(self).effects().requests.len() == old(self).effects().requests.len() + 1
                && final(self).effects().subscriptions == old(self).effects().subscriptions
                ==> exists|system: &mut A, id: &str|
                #![trigger call_ensures(A::set_default_output_device, (system, id), switched)]
                #![trigger call_ensures(A::set_default_input_device, (system, id), switched)]
                mut_ref_current(system) == old(self).audio_system_spec() && mut_ref_future(system)
                    == final(self).audio_system_spec()
                    && id@ == final(self).effects().requests.last().device_name
                    && match final(self).effects().requests.last().direction {
                    Direction::Output => call_ensures(
                        A::set_default_output_device,
                        (system, id),
                        switched,
                    ),
                    Direction::Input => call_ensures(
                        A::set_default_input_device,
                        (system, id),
                        switched,
                    ),
                },
            final(self).effects().requests.len() == old(self).effects().requests.len() + 2
                && final(self).effects().subscriptions == old(self).effects().subscriptions
                ==> exists|first: &mut A, first_id: &str, second: &mut A, second_id: &str|
                #![trigger
                    call_ensures(
                        A::set_default_output_device,
                        (first, first_id),
                        Ok::<(), MonitorError>(()),
                    ),
                    call_ensures(A::set_default_input_device, (second, second_id), switched),
                ]
                mut_ref_current(first) == old(self).audio_system_spec() && mut_ref_current(second)
                    == mut_ref_future(first) && mut_ref_future(second)
                    == final(self).audio_system_spec()
                        && first_id@ == final(self).effects().requests[final(self).effects().requests.len() - 2].device_name
                    && second_id@ == final(self).effects().requests.last().device_name
                    && final(self).effects().requests[final(self).effects().requests.len()
                    - 2].direction == Direction::Output
                    && final(self).effects().requests.last().direction == Direction::Input
                    && call_ensures(
                    A::set_default_output_device,
                    (first, first_id),
                    Ok::<(), MonitorError>(()),
                ) && call_ensures(A::set_default_input_device, (second, second_id), switched),
            audio_system_kept(
                old(self).audio_system_spec(),
                old(self).effects(),
                final(self).audio_system_spec(),
                final(self).effects(),
            ),
            !device.device_type.supports_spec(Direction::Output) ==> switched is Err
                && final(self).effects() == old(self).effects(),
            device.device_type.supports_spec(Direction::Output)
                ==> final(self).effects() == old(self).effects().after_attempt(
                old(self)@.settings,
                device@,
                Direction::Output,
                SwitchReason::Manual,
                failure_of(switched),
            ),
            switched is Ok ==> final(self)@ == old(self)@.after_switch(device@, Direction::Output),
            switched is Err ==> final(self)@ == old(self)@,
            final(self)@.well_formed(),
    {
        self.apply_default(device, Direction::Output, SwitchReason::Manual)
    }

    /// Makes `device` the default input, on the user's wish.
    pub fn switch_to_input_device(&mut self, device: &AudioDevice) -> (switched: Result<
        (),
        MonitorError,
    >)
        ensures
            final(self).effects().requests.len() == old(self).effects().requests.len() + 1
                && final(self).effects().subscriptions == old(self).effects().subscriptions
                ==> exists|system: &mut A, id: &str|
                #![trigger call_ensures(A::set_default_output_device, (system, id), switched)]
                #![trigger call_ensures(A::set_default_input_device, (system, id), switched)]
                mut_ref_current(system) == old(self).audio_system_spec() && mut_ref_future(system)
                    == final(self).audio_system_spec()
                    && id@ == final(self).effects().requests.last().device_name
                    && match final(self).effects().requests.last().direction {
                    Direction::Output => call_ensures(
                        A::set_default_output_device,
                        (system, id),
                        switched,
                    ),
                    Direction::Input => call_ensures(
                        A::set_default_input_device,
                        (system, id),
                        switched,
                    ),
                },
            final(self).effects().requests.len() == old(self).effects().requests.len() + 2
                && final(self).effects().subscriptions == old(self).effects().subscriptions
                ==> exists|first: &mut A, first_id: &str, second: &mut A, second_id: &str|
                #![trigger
                    call_ensures(
                        A::set_default_output_device,
                        (first, first_id),
                        Ok::<(), MonitorError>(()),
                    ),
                    call_ensures(A::set_default_input_device, (second, second_id), switched),
                ]
                mut_ref_current(first) == old(self).audio_system_spec() && mut_ref_current(second)
                    == mut_ref_future(first) && mut_ref_future(second)
                    == final(self).audio_system_spec()
                        && first_id@ == final(self).effects().requests[final(self).effects().requests.len() - 2].device_name
                    && second_id@ == final(self).effects().requests.last().device_name
                    && final(self).effects().requests[final(self).effects().requests.len()
                    - 2].direction == Direction::Output
                    && final(self).effects().requests.last().direction == Direction::Input
                    && call_ensures(
                    A::set_default_output_device,
                    (first, first_id),
                    Ok::<(), MonitorError>(()),
                ) && call_ensures(A::set_default_input_device, (second, second_id), switched),
            audio_system_kept(
                old(self).audio_system_spec(),
                old(self).effects(),
                final(self).audio_system_spec(),
                final(self).effects(),
            ),
            !device.device_type.supports_spec(Direction::Input) ==> switched is Err
                && final(self).effects() == old(self).effects(),
            device.device_type.supports_spec(Direction::Input)
                ==> final(self).effects() == old(self).effects().after_attempt(
                old(self)@.settings,
                device@,
                Direction::Input,
                SwitchReason::Manual,
                failure_of(switched),
            ),
            switched is Ok ==> final(self)@ == old(self)@.after_switch(device@, Direction::Input),
            switched is Err ==> final(self)@ == old(self)@,
            final(self)@.well_formed(),
    {
        self.apply_default(device, Direction::Input, SwitchReason::Manual)
    }

    /// Reconciles the slot `direction` with the policy's choice among
    /// `available`: switches to it, unless the controller believes it to
    /// be the default already.
    pub fn reconcile(
        &mut self,
        available: &[AudioDevice],
        direction: Direction,
        reason: SwitchReason,
    ) -> (reconciled: Result<(), MonitorError>)
        ensures
            final(self).effects().requests.len() == old(self).effects().requests.len() + 1
                && final(self).effects().subscriptions == old(self).effects().subscriptions
                ==> exists|system: &mut A, id: &str|
                #![trigger call_ensures(A::set_default_output_device, (system, id), reconciled)]
                #![trigger call_ensures(A::set_default_input_device, (system, id), reconciled)]
                mut_ref_current(system) == old(self).audio_system_spec() && mut_ref_future(system)
                    == final(self).audio_system_spec()
                    && id@ == final(self).effects().requests.last().device_name
                    && match final(self).effects().requests.last().direction {
                    Direction::Output => call_ensures(
                        A::set_default_output_device,
                        (system, id),
                        reconciled,
                    ),
                    Direction::Input => call_ensures(
                        A::set_default_input_device,
                        (system, id),
                        reconciled,
                    ),
                },
            final(self).effects().requests.len() == old(self).effects().requests.len() + 2
                && final(self).effects().subscriptions == old(self).effects().subscriptions
                ==> exists|first: &mut A, first_id: &str, second: &mut A, second_id: &str|
                #![trigger
                    call_ensures(
                        A::set_default_output_device,
                        (first, first_id),
                        Ok::<(), MonitorError>(()),
                    ),
                    call_ensures(A::set_default_input_device, (second, second_id), reconciled),
                ]
                mut_ref_current(first) == old(self).audio_system_spec() && mut_ref_current(second)
                    == mut_ref_future(first) && mut_ref_future(second)
                    == final(self).audio_system_spec()
                        && first_id@ == final(self).effects().requests[final(self).effects().requests.len() - 2].device_name
                    && second_id@ == final(self).effects().requests.last().device_name
                    && final(self).effects().requests[final(self).effects().requests.len()
                    - 2].direction == Direction::Output
                    && final(self).effects().requests.last().direction == Direction::Input
                    && call_ensures(
                    A::set_default_output_device,
                    (first, first_id),
                    Ok::<(), MonitorError>(()),
                ) && call_ensures(A::set_default_input_device, (second, second_id), reconciled),
            audio_system_kept(
                old(self).audio_system_spec(),
                old(self).effects(),
                final(self).audio_system_spec(),
                final(self).effects(),
            ),
            reconciled is Ok ==> final(self)@ == old(self)@.reconciled(
                device_views(available@),
                direction,
            ),
            reconciled is Err ==> final(self)@ == old(self)@,
            old(self)@.switch_target(device_views(available@), direction) is None
                ==> reconciled is Ok,
            final(self).effects() == old(self).effects().after_target(
                old(self)@.settings,
                old(self)@.switch_target(device_views(available@), direction),
                direction,
                reason,
                failure_of(reconciled),
            ),
            final(self)@.well_formed(),
    {
        proof {
            use_type_invariant(&self.state);
            lemma_switch_target_fits(self@, device_views(available@), direction);
        }
        match self.priority_manager.find_best_device(available, direction) {
            Some(best) => {
                if self.is_current(direction, &best) {
                    Ok(())
                } else {
                    self.apply_default(&best, direction, reason)
                }
            },
            None => Ok(()),
        }
    }

    /// All devices that the audio system reports.
    pub fn enumerate_devices(&self) -> (devices: Result<Vec<AudioDevice>, MonitorError>)
        ensures
            enumeration_of(self.audio_system_spec(), devices),
    {
        self.audio_system.enumerate_devices()
    }

    /// The device that the system reports as its default output.
    pub fn get_default_output_device(&self) -> (device: Result<Option<AudioDevice>, MonitorError>)
        ensures
            default_of(self.audio_system_spec(), Direction::Output, device),
    {
        self.audio_system.get_default_output_device()
    }

    /// The device that the system reports as its default input.
    pub fn get_default_input_device(&self) -> (device: Result<Option<AudioDevice>, MonitorError>)
        ensures
            default_of(self.audio_system_spec(), Direction::Input, device),
    {
        self.audio_system.get_default_input_device()
    }

    /// The device that the controller believes to be the default output.
    pub fn get_current_output_device(&self) -> (device: Option<&AudioDevice>)
        ensures
            device is Some <==> self@.current_output is Some,
            device matches Some(device) ==> Some(device@) == self@.current_output,
    {
        self.state.current(Direction::Output)
    }

    /// The device that the controller believes to be the default input.
    pub fn get_current_input_device(&self) -> (device: Option<&AudioDevice>)
        ensures
            device is Some <==> self@.current_input is Some,
            device matches Some(device) ==> Some(device@) == self@.current_input,
    {
        self.state.current(Direction::Input)
    }

    /// The device that the controller last made the default of the slot
    /// `direction` and that has not left since.
    pub fn intended_device(&self, direction: Direction) -> (device: Option<&AudioDevice>)
        ensures
            device is Some <==> self@.intended(direction) is Some,
            device matches Some(device) ==> Some(device@) == self@.intended(direction)
                && device.device_type.supports_spec(direction),
    {
        proof {
            use_type_invariant(&self.state);
        }
        self.state.intended(direction)
    }

    /// What is known of `device` beyond its name.
    pub fn get_device_info(&self, device: &AudioDevice) -> (info: Result<DeviceInfo, MonitorError>)
        ensures
            info matches Ok(info) && info.name@ == device.name@ && info.uid@ == device@.identity()
                && info.device_type == device.device_type && info.is_default == device.is_default,
    {
        Ok(device.info())
    }

    /// Whether the audio system reports a device of this name or id.
    pub fn is_device_available(&self, device_id: &str) -> (available: Result<bool, MonitorError>)
        ensures
            availability_of(self.audio_system_spec(), device_id@, available),
    {
        self.audio_system.is_device_available(device_id)
    }

    /// What holds after the connection of `device` has been handled with
    /// `system` as the audio system. The user is told of the connection,
    /// where wanted, whatever follows. Then the system is asked for its
    /// devices: where it cannot give them, nothing else is done and the
    /// handling fails; else the device becomes the default of each slot
    /// for which the policy prefers it to all of them, output first.
    pub open spec fn connection_handled(
        system: A,
        before: ControllerView,
        before_effects: Effects,
        after: ControllerView,
        after_effects: Effects,
        device: DeviceView,
        handled: Result<(), MonitorError>,
    ) -> bool {
        let told = Effects {
            notifications: before.settings.notified(
                before_effects.notifications,
                connected_notification(device),
            ),
            ..before_effects
        };
        exists|answer: Result<Vec<AudioDevice>, MonitorError>| #[trigger]
            enumeration_of(system, answer) && match answer {
                Ok(available) => switched_in_turn(
                    before,
                    told,
                    after,
                    after_effects,
                    before.connect_target(device, device_views(available@), Direction::Output),
                    before.connect_target(device, device_views(available@), Direction::Input),
                    SwitchReason::HigherPriority,
                    handled,
                ),
                Err(_) => handled is Err && after == before && after_effects == told,
            }
    }

    /// What holds after the disconnection of `device` has been handled
    /// with `system` as the audio system. Every slot that held a device of
    /// its id is emptied, and the user is told of the disconnection,
    /// where wanted. Where no slot held it, that is all. Else the system
    /// is asked for its devices: where it cannot give them, the handling
    /// fails; else the policy's choice among those that have neither the
    /// id nor the name of `device` takes over each slot that the device
    /// could fill and has left empty, output first, with the reason that
    /// the previous device is unavailable.
    pub open spec fn disconnection_handled(
        system: A,
        before: ControllerView,
        before_effects: Effects,
        after: ControllerView,
        after_effects: Effects,
        device: DeviceView,
        handled: Result<(), MonitorError>,
    ) -> bool {
        let cleared = before.after_disconnect(device.id);
        let told = Effects {
            notifications: before.settings.notified(
                before_effects.notifications,
                disconnected_notification(device),
            ),
            ..before_effects
        };
        if !before.holds(device.id) {
            handled is Ok && after == before && after_effects == told
        } else {
            exists|answer: Result<Vec<AudioDevice>, MonitorError>| #[trigger]
                enumeration_of(system, answer) && match answer {
                    Ok(available) => {
                        let remaining = device_views(available@).filter(other_than(device));
                        switched_in_turn(
                            cleared,
                            told,
                            after,
                            after_effects,
                            cleared.fallback_target(device, remaining, Direction::Output),
                            cleared.fallback_target(device, remaining, Direction::Input),
                            SwitchReason::PreviousUnavailable,
                            handled,
                        )
                    },
                    Err(_) => handled is Err && after == cleared && after_effects == told,
                }
        }
    }

    /// What holds after the controller's belief has been brought in line
    /// with `system`. The defaults that the system reports are taken
    /// over; a default that it cannot report counts as none. Where a slot
    /// is then still empty, the system is asked for its devices: where it
    /// cannot give them, the update fails; else each empty slot is filled
    /// with the policy's choice among them, output first.
    pub open spec fn defaults_updated(
        system: A,
        before: ControllerView,
        before_effects: Effects,
        after: ControllerView,
        after_effects: Effects,
        updated: Result<(), MonitorError>,
    ) -> bool {
        exists|
            output_answer: Result<Option<AudioDevice>, MonitorError>,
            input_answer: Result<Option<AudioDevice>, MonitorError>,
        |
            #[trigger] default_of(system, Direction::Output, output_answer)
                && #[trigger] default_of(
                system,
                Direction::Input,
                input_answer,
            ) && Self::updated_with(
                system,
                before.after_event(
                    ControllerEvent::Reported {
                        output: device_of(reported_device(output_answer)),
                        input: device_of(reported_device(input_answer)),
                    },
                ),
                before_effects,
                after,
                after_effects,
                updated,
            )
    }

    /// What holds after the empty slots of the record `synced` have been
    /// filled from what `system` enumerates, where there is one.
    pub open spec fn updated_with(
        system: A,
        synced: ControllerView,
        before_effects: Effects,
        after: ControllerView,
        after_effects: Effects,
        updated: Result<(), MonitorError>,
    ) -> bool {
        if synced.current_output is Some && synced.current_input is Some {
            updated is Ok && after == synced && after_effects == before_effects
        } else {
            exists|answer: Result<Vec<AudioDevice>, MonitorError>| #[trigger]
                enumeration_of(system, answer) && match answer {
                    Ok(available) => switched_in_turn(
                        synced,
                        before_effects,
                        after,
                        after_effects,
                        Self::fill_target(synced, device_views(available@), Direction::Output),
                        Self::fill_target(synced, device_views(available@), Direction::Input),
                        SwitchReason::HigherPriority,
                        updated,
                    ),
                    Err(_) => updated is Err && after == synced && after_effects == before_effects,
                }
        }
    }

    /// Takes in that `device` has been connected: tells the user, and
    /// makes the device the default of each slot for which the policy
    /// prefers it to all the devices that the system reports now.
    pub fn handle_device_connected(&mut self, device: &AudioDevice) -> (handled: Result<
        (),
        MonitorError,
    >)
        ensures
            final(self).effects().requests.len() == old(self).effects().requests.len() + 1
                && final(self).effects().subscriptions == old(self).effects().subscriptions
                ==> exists|system: &mut A, id: &str|
                #![trigger call_ensures(A::set_default_output_device, (system, id), handled)]
                #![trigger call_ensures(A::set_default_input_device, (system, id), handled)]
                mut_ref_current(system) == old(self).audio_system_spec() && mut_ref_future(system)
                    == final(self).audio_system_spec()
                    && id@ == final(self).effects().requests.last().device_name
                    && match final(self).effects().requests.last().direction {
                    Direction::Output => call_ensures(
                        A::set_default_output_device,
                        (system, id),
                        handled,
                    ),
                    Direction::Input => call_ensures(
                        A::set_default_input_device,
                        (system, id),
                        handled,
                    ),
                },
            final(self).effects().requests.len() == old(self).effects().requests.len() + 2
                && final(self).effects().subscriptions == old(self).effects().subscriptions
                ==> exists|first: &mut A, first_id: &str, second: &mut A, second_id: &str|
                #![trigger
                    call_ensures(
                        A::set_default_output_device,
                        (first, first_id),
                        Ok::<(), MonitorError>(()),
                    ),
                    call_ensures(A::set_default_input_device, (second, second_id), handled),
                ]
                mut_ref_current(first) == old(self).audio_system_spec() && mut_ref_current(second)
                    == mut_ref_future(first) && mut_ref_future(second)
                    == final(self).audio_system_spec()
                        && first_id@ == final(self).effects().requests[final(self).effects().requests.len() - 2].device_name
                    && second_id@ == final(self).effects().requests.last().device_name
                    && final(self).effects().requests[final(self).effects().requests.len()
                    - 2].direction == Direction::Output
                    && final(self).effects().requests.last().direction == Direction::Input
                    && call_ensures(
                    A::set_default_output_device,
                    (first, first_id),
                    Ok::<(), MonitorError>(()),
                ) && call_ensures(A::set_default_input_device, (second, second_id), handled),
            audio_system_kept(
                old(self).audio_system_spec(),
                old(self).effects(),
                final(self).audio_system_spec(),
                final(self).effects(),
            ),
            Self::connection_handled(
                old(self).audio_system_spec(),
                old(self)@,
                old(self).effects(),
                final(self)@,
                final(self).effects(),
                device@,
                handled,
            ),
            final(self)@.policy == old(self)@.policy,
            final(self)@.settings == old(self)@.settings,
            final(self)@.well_formed(),
            forall|direction: Direction|
                #![trigger final(self)@.intended(direction)]
                !device.device_type.supports_spec(direction) ==> final(self)@.intended(direction)
                    == old(self)@.intended(direction)
                        && final(self)@.current(direction) == old(self)@.current(direction),
    {
        proof {
            use_type_invariant(&self.state);
        }
        let _ = self.notification_manager.device_connected(device);
        let answer = self.audio_system.enumerate_devices();
        proof {
            assert(enumeration_of(old(self).audio_system_spec(), answer));
        }
        match answer {
            Ok(available) => self.reconcile_connected(device, available.as_slice()),
            Err(error) => Err(error),
        }
    }

    /// Makes `device` the default of the slot `direction` with the reason
    /// of higher priority, where it can fill the slot, is the policy's
    /// choice among `available` and is not believed to be the default
    /// already.
    pub fn switch_if_preferred(
        &mut self,
        device: &AudioDevice,
        available: &[AudioDevice],
        direction: Direction,
    ) -> (switched: Result<(), MonitorError>)
        ensures
            final(self).effects().requests.len() == old(self).effects().requests.len() + 1
                && final(self).effects().subscriptions == old(self).effects().subscriptions
                ==> exists|system: &mut A, id: &str|
                #![trigger call_ensures(A::set_default_output_device, (system, id), switched)]
                #![trigger call_ensures(A::set_default_input_device, (system, id), switched)]
                mut_ref_current(system) == old(self).audio_system_spec() && mut_ref_future(system)
                    == final(self).audio_system_spec()
                    && id@ == final(self).effects().requests.last().device_name
                    && match final(self).effects().requests.last().direction {
                    Direction::Output => call_ensures(
                        A::set_default_output_device,
                        (system, id),
                        switched,
                    ),
                    Direction::Input => call_ensures(
                        A::set_default_input_device,
                        (system, id),
                        switched,
                    ),
                },
            final(self).effects().requests.len() == old(self).effects().requests.len() + 2
                && final(self).effects().subscriptions == old(self).effects().subscriptions
                ==> exists|first: &mut A, first_id: &str, second: &mut A, second_id: &str|
                #![trigger
                    call_ensures(
                        A::set_default_output_device,
                        (first, first_id),
                        Ok::<(), MonitorError>(()),
                    ),
                    call_ensures(A::set_default_input_device, (second, second_id), switched),
                ]
                mut_ref_current(first) == old(self).audio_system_spec() && mut_ref_current(second)
                    == mut_ref_future(first) && mut_ref_future(second)
                    == final(self).audio_system_spec()
                        && first_id@ == final(self).effects().requests[final(self).effects().requests.len() - 2].device_name
                    && second_id@ == final(self).effects().requests.last().device_name
                    && final(self).effects().requests[final(self).effects().requests.len()
                    - 2].direction == Direction::Output
                    && final(self).effects().requests.last().direction == Direction::Input
                    && call_ensures(
                    A::set_default_output_device,
                    (first, first_id),
                    Ok::<(), MonitorError>(()),
                ) && call_ensures(A::set_default_input_device, (second, second_id), switched),
            audio_system_kept(
                old(self).audio_system_spec(),
                old(self).effects(),
                final(self).audio_system_spec(),
                final(self).effects(),
            ),
            switched is Ok ==> final(self)@ == old(self)@.connected(
                device@,
                device_views(available@),
                direction,
            ),
            switched is Err ==> final(self)@ == old(self)@,
            old(self)@.connect_target(device@, device_views(available@), direction) is None
                ==> switched is Ok,
            final(self).effects() == old(self).effects().after_target(
                old(self)@.settings,
                old(self)@.connect_target(device@, device_views(available@), direction),
                direction,
                SwitchReason::HigherPriority,
                failure_of(switched),
            ),
            final(self)@.well_formed(),
    {
        proof {
            use_type_invariant(&self.state);
            lemma_switch_target_fits(self@, device_views(available@), direction);
        }
        if !device.device_type.supports(direction) {
            return Ok(());
        }
        match self.priority_manager.find_best_device(available, direction) {
            Some(best) => {
                if best.id == device.id && !self.is_current(direction, &best) {
                    self.apply_default(&best, direction, SwitchReason::HigherPriority)
                } else {
                    Ok(())
                }
            },
            None => Ok(()),
        }
    }

    /// Handles the connection of `device` for both slots, output first:
    /// the device becomes the default of each slot for which the policy
    /// prefers it to all of `available`. The first switch that the system
    /// refuses ends the work.
    pub fn reconcile_connected(
        &mut self,
        device: &AudioDevice,
        available: &[AudioDevice],
    ) -> (reconciled: Result<(), MonitorError>)
        ensures
            final(self).effects().requests.len() == old(self).effects().requests.len() + 1
                && final(self).effects().subscriptions == old(self).effects().subscriptions
                ==> exists|system: &mut A, id: &str|
                #![trigger call_ensures(A::set_default_output_device, (system, id), reconciled)]
                #![trigger call_ensures(A::set_default_input_device, (system, id), reconciled)]
                mut_ref_current(system) == old(self).audio_system_spec() && mut_ref_future(system)
                    == final(self).audio_system_spec()
                    && id@ == final(self).effects().requests.last().device_name
                    && match final(self).effects().requests.last().direction {
                    Direction::Output => call_ensures(
                        A::set_default_output_device,
                        (system, id),
                        reconciled,
                    ),
                    Direction::Input => call_ensures(
                        A::set_default_input_device,
                        (system, id),
                        reconciled,
                    ),
                },
            final(self).effects().requests.len() == old(self).effects().requests.len() + 2
                && final(self).effects().subscriptions == old(self).effects().subscriptions
                ==> exists|first: &mut A, first_id: &str, second: &mut A, second_id: &str|
                #![trigger
                    call_ensures(
                        A::set_default_output_device,
                        (first, first_id),
                        Ok::<(), MonitorError>(()),
                    ),
                    call_ensures(A::set_default_input_device, (second, second_id), reconciled),
                ]
                mut_ref_current(first) == old(self).audio_system_spec() && mut_ref_current(second)
                    == mut_ref_future(first) && mut_ref_future(second)
                    == final(self).audio_system_spec()
                        && first_id@ == final(self).effects().requests[final(self).effects().requests.len() - 2].device_name
                    && second_id@ == final(self).effects().requests.last().device_name
                    && final(self).effects().requests[final(self).effects().requests.len()
                    - 2].direction == Direction::Output
                    && final(self).effects().requests.last().direction == Direction::Input
                    && call_ensures(
                    A::set_default_output_device,
                    (first, first_id),
                    Ok::<(), MonitorError>(()),
                ) && call_ensures(A::set_default_input_device, (second, second_id), reconciled),
            audio_system_kept(
                old(self).audio_system_spec(),
                old(self).effects(),
                final(self).audio_system_spec(),
                final(self).effects(),
            ),
            switched_in_turn(
                old(self)@,
                old(self).effects(),
                final(self)@,
                final(self).effects(),
                old(self)@.connect_target(device@, device_views(available@), Direction::Output),
                old(self)@.connect_target(device@, device_views(available@), Direction::Input),
                SwitchReason::HigherPriority,
                reconciled,
            ),
            reconciled is Ok ==> final(self)@ == old(self)@.reconciled_for(
                device@,
                device_views(available@),
            ),
            reconciled is Err ==> final(self)@ == old(self)@
                || final(self)@ == old(self)@.connected(
                device@,
                device_views(available@),
                Direction::Output,
            ),
            reconciled is Ok ==> final(self).effects() == old(self).effects().after_target(
                old(self)@.settings,
                old(self)@.connect_target(device@, device_views(available@), Direction::Output),
                Direction::Output,
                SwitchReason::HigherPriority,
                None,
            ).after_target(
                old(self)@.settings,
                old(self)@.connect_target(device@, device_views(available@), Direction::Input),
                Direction::Input,
                SwitchReason::HigherPriority,
                None,
            ),
            old(self)@.connect_target(device@, device_views(available@), Direction::Output) is None
                && old(self)@.connect_target(device@, device_views(available@), Direction::Input)
                is None ==> reconciled is Ok,
            final(self)@.well_formed(),
    {
        proof {
            use_type_invariant(&self.state);
        }
        self.switch_if_preferred(device, available, Direction::Output)?;
        self.switch_if_preferred(device, available, Direction::Input)?;
        Ok(())
    }

    /// Empties every slot that holds a device with the id of `device` and
    /// says whether there was one.
    pub fn forget(&mut self, device: &AudioDevice) -> (cleared: bool)
        ensures
            final(self).audio_system_spec() == old(self).audio_system_spec(),
            final(self)@ == old(self)@.after_disconnect(device.id@),
            cleared == old(self)@.holds(device.id@),
            final(self).effects() == old(self).effects(),
            final(self)@.well_formed(),
    {
        proof {
            use_type_invariant(&self.state);
        }
        self.state.forget(device.id.as_str())
    }

    /// Takes in that `device` has been disconnected: empties the slots
    /// that held it, tells the user, and, where a slot was emptied, looks
    /// among the other devices that the system reports for one to take
    /// over.
    pub fn handle_device_disconnected(&mut self, device: &AudioDevice) -> (handled: Result<
        (),
        MonitorError,
    >)
        ensures
            final(self).effects().requests.len() == old(self).effects().requests.len() + 1
                && final(self).effects().subscriptions == old(self).effects().subscriptions
                ==> exists|system: &mut A, id: &str|
                #![trigger call_ensures(A::set_default_output_device, (system, id), handled)]
                #![trigger call_ensures(A::set_default_input_device, (system, id), handled)]
                mut_ref_current(system) == old(self).audio_system_spec() && mut_ref_future(system)
                    == final(self).audio_system_spec()
                    && id@ == final(self).effects().requests.last().device_name
                    && match final(self).effects().requests.last().direction {
                    Direction::Output => call_ensures(
                        A::set_default_output_device,
                        (system, id),
                        handled,
                    ),
                    Direction::Input => call_ensures(
                        A::set_default_input_device,
                        (system, id),
                        handled,
                    ),
                },
            final(self).effects().requests.len() == old(self).effects().requests.len() + 2
                && final(self).effects().subscriptions == old(self).effects().subscriptions
                ==> exists|first: &mut A, first_id: &str, second: &mut A, second_id: &str|
                #![trigger
                    call_ensures(
                        A::set_default_output_device,
                        (first, first_id),
                        Ok::<(), MonitorError>(()),
                    ),
                    call_ensures(A::set_default_input_device, (second, second_id), handled),
                ]
                mut_ref_current(first) == old(self).audio_system_spec() && mut_ref_current(second)
                    == mut_ref_future(first) && mut_ref_future(second)
                    == final(self).audio_system_spec()
                        && first_id@ == final(self).effects().requests[final(self).effects().requests.len() - 2].device_name
                    && second_id@ == final(self).effects().requests.last().device_name
                    && final(self).effects().requests[final(self).effects().requests.len()
                    - 2].direction == Direction::Output
                    && final(self).effects().requests.last().direction == Direction::Input
                    && call_ensures(
                    A::set_default_output_device,
                    (first, first_id),
                    Ok::<(), MonitorError>(()),
                ) && call_ensures(A::set_default_input_device, (second, second_id), handled),
            audio_system_kept(
                old(self).audio_system_spec(),
                old(self).effects(),
                final(self).audio_system_spec(),
                final(self).effects(),
            ),
            Self::disconnection_handled(
                old(self).audio_system_spec(),
                old(self)@,
                old(self).effects(),
                final(self)@,
                final(self).effects(),
                device@,
                handled,
            ),
            final(self)@.policy == old(self)@.policy,
            final(self)@.settings == old(self)@.settings,
            final(self)@.well_formed(),
            !old(self)@.holds(device.id@) ==> handled is Ok && final(self)@ == old(self)@
                && final(self).effects() == (Effects {
                notifications: old(self)@.settings.notified(
                    old(self).effects().notifications,
                    disconnected_notification(device@),
                ),
                ..old(self).effects()
            }),
            forall|direction: Direction|
                #![trigger final(self)@.intended(direction)]
                final(self)@.intended(direction) matches Some(intended) ==> (intended.id
                    != device.id@ && intended.name != device.name@) || (old(self)@.intended(
                    direction,
                ) == Some(intended) && intended.id != device.id@),
    {
        proof {
            use_type_invariant(&self.state);
        }
        let cleared = self.forget(device);
        let _ = self.notification_manager.device_disconnected(device);
        if !cleared {
            return Ok(());
        }
        let answer = self.audio_system.enumerate_devices();
        proof {
            assert(enumeration_of(old(self).audio_system_spec(), answer));
        }
        let available = match answer {
            Ok(available) => available,
            Err(error) => {
                return Err(error);
            },
        };
        let remaining = devices_other_than(available.as_slice(), device);
        proof {
            let views = device_views(available@);
            let kept = device_views(remaining@);
            assert forall|direction: Direction| #[trigger]
                best_device(kept, self@.policy.rules(direction), direction) is Some implies {
                let best = best_device(kept, self@.policy.rules(direction), direction)->0;
                best.id != device.id@ && best.name != device.name@
            } by {
                lemma_best_index(kept, self@.policy.rules(direction), direction);
                let at = best_index(kept, self@.policy.rules(direction), direction)->0;
                broadcast use vstd::seq_lib::group_filter_ensures;
                assert(other_than(device@)(kept[at]));
            }
        }
        self.reconcile_disconnected(device, remaining.as_slice())
    }

    /// Lets a device among `remaining` take over each slot that `gone` has
    /// left empty, output first, with the reason that the previous device
    /// is unavailable. The first switch that the system refuses ends the
    /// work.
    pub fn reconcile_disconnected(
        &mut self,
        gone: &AudioDevice,
        remaining: &[AudioDevice],
    ) -> (reconciled: Result<(), MonitorError>)
        ensures
            final(self).effects().requests.len() == old(self).effects().requests.len() + 1
                && final(self).effects().subscriptions == old(self).effects().subscriptions
                ==> exists|system: &mut A, id: &str|
                #![trigger call_ensures(A::set_default_output_device, (system, id), reconciled)]
                #![trigger call_ensures(A::set_default_input_device, (system, id), reconciled)]
                mut_ref_current(system) == old(self).audio_system_spec() && mut_ref_future(system)
                    == final(self).audio_system_spec()
                    && id@ == final(self).effects().requests.last().device_name
                    && match final(self).effects().requests.last().direction {
                    Direction::Output => call_ensures(
                        A::set_default_output_device,
                        (system, id),
                        reconciled,
                    ),
                    Direction::Input => call_ensures(
                        A::set_default_input_device,
                        (system, id),
                        reconciled,
                    ),
                },
            final(self).effects().requests.len() == old(self).effects().requests.len() + 2
                && final(self).effects().subscriptions == old(self).effects().subscriptions
                ==> exists|first: &mut A, first_id: &str, second: &mut A, second_id: &str|
                #![trigger
                    call_ensures(
                        A::set_default_output_device,
                        (first, first_id),
                        Ok::<(), MonitorError>(()),
                    ),
                    call_ensures(A::set_default_input_device, (second, second_id), reconciled),
                ]
                mut_ref_current(first) == old(self).audio_system_spec() && mut_ref_current(second)
                    == mut_ref_future(first) && mut_ref_future(second)
                    == final(self).audio_system_spec()
                        && first_id@ == final(self).effects().requests[final(self).effects().requests.len() - 2].device_name
                    && second_id@ == final(self).effects().requests.last().device_name
                    && final(self).effects().requests[final(self).effects().requests.len()
                    - 2].direction == Direction::Output
                    && final(self).effects().requests.last().direction == Direction::Input
                    && call_ensures(
                    A::set_default_output_device,
                    (first, first_id),
                    Ok::<(), MonitorError>(()),
                ) && call_ensures(A::set_default_input_device, (second, second_id), reconciled),
            audio_system_kept(
                old(self).audio_system_spec(),
                old(self).effects(),
                final(self).audio_system_spec(),
                final(self).effects(),
            ),
            switched_in_turn(
                old(self)@,
                old(self).effects(),
                final(self)@,
                final(self).effects(),
                old(self)@.fallback_target(gone@, device_views(remaining@), Direction::Output),
                old(self)@.fallback_target(gone@, device_views(remaining@), Direction::Input),
                SwitchReason::PreviousUnavailable,
                reconciled,
            ),
            reconciled is Ok ==> final(self)@ == old(self)@.fallen_back(
                gone@,
                device_views(remaining@),
                Direction::Output,
            ).fallen_back(gone@, device_views(remaining@), Direction::Input),
            reconciled is Err ==> final(self)@ == old(self)@
                || final(self)@ == old(self)@.fallen_back(gone@, device_views(remaining@), Direction::Output),
            reconciled is Ok ==> final(self).effects() == old(self).effects().after_target(
                old(self)@.settings,
                old(self)@.fallback_target(gone@, device_views(remaining@), Direction::Output),
                Direction::Output,
                SwitchReason::PreviousUnavailable,
                None,
            ).after_target(
                old(self)@.settings,
                old(self)@.fallback_target(gone@, device_views(remaining@), Direction::Input),
                Direction::Input,
                SwitchReason::PreviousUnavailable,
                None,
            ),
            old(self)@.fallback_target(gone@, device_views(remaining@), Direction::Output) is None
                && old(self)@.fallback_target(gone@, device_views(remaining@), Direction::Input)
                is None ==> reconciled is Ok,
            final(self)@.well_formed(),
    {
        proof {
            use_type_invariant(&self.state);
        }
        self.fall_back(gone, remaining, Direction::Output)?;
        self.fall_back(gone, remaining, Direction::Input)?;
        Ok(())
    }

    /// Lets the policy's choice among `remaining` take over the slot
    /// `direction`, where `gone` could fill that slot and it is empty.
    pub fn fall_back(
        &mut self,
        gone: &AudioDevice,
        remaining: &[AudioDevice],
        direction: Direction,
    ) -> (switched: Result<(), MonitorError>)
        ensures
            final(self).effects().requests.len() == old(self).effects().requests.len() + 1
                && final(self).effects().subscriptions == old(self).effects().subscriptions
                ==> exists|system: &mut A, id: &str|
                #![trigger call_ensures(A::set_default_output_device, (system, id), switched)]
                #![trigger call_ensures(A::set_default_input_device, (system, id), switched)]
                mut_ref_current(system) == old(self).audio_system_spec() && mut_ref_future(system)
                    == final(self).audio_system_spec()
                    && id@ == final(self).effects().requests.last().device_name
                    && match final(self).effects().requests.last().direction {
                    Direction::Output => call_ensures(
                        A::set_default_output_device,
                        (system, id),
                        switched,
                    ),
                    Direction::Input => call_ensures(
                        A::set_default_input_device,
                        (system, id),
                        switched,
                    ),
                },
            final(self).effects().requests.len() == old(self).effects().requests.len() + 2
                && final(self).effects().subscriptions == old(self).effects().subscriptions
                ==> exists|first: &mut A, first_id: &str, second: &mut A, second_id: &str|
                #![trigger
                    call_ensures(
                        A::set_default_output_device,
                        (first, first_id),
                        Ok::<(), MonitorError>(()),
                    ),
                    call_ensures(A::set_default_input_device, (second, second_id), switched),
                ]
                mut_ref_current(first) == old(self).audio_system_spec() && mut_ref_current(second)
                    == mut_ref_future(first) && mut_ref_future(second)
                    == final(self).audio_system_spec()
                        && first_id@ == final(self).effects().requests[final(self).effects().requests.len() - 2].device_name
                    && second_id@ == final(self).effects().requests.last().device_name
                    && final(self).effects().requests[final(self).effects().requests.len()
                    - 2].direction == Direction::Output
                    && final(self).effects().requests.last().direction == Direction::Input
                    && call_ensures(
                    A::set_default_output_device,
                    (first, first_id),
                    Ok::<(), MonitorError>(()),
                ) && call_ensures(A::set_default_input_device, (second, second_id), switched),
            audio_system_kept(
                old(self).audio_system_spec(),
                old(self).effects(),
                final(self).audio_system_spec(),
                final(self).effects(),
            ),
            switched is Ok ==> final(self)@ == old(self)@.fallen_back(
                gone@,
                device_views(remaining@),
                direction,
            ),
            switched is Err ==> final(self)@ == old(self)@,
            old(self)@.fallback_target(gone@, device_views(remaining@), direction) is None
                ==> switched is Ok,
            final(self).effects() == old(self).effects().after_target(
                old(self)@.settings,
                old(self)@.fallback_target(gone@, device_views(remaining@), direction),
                direction,
                SwitchReason::PreviousUnavailable,
                failure_of(switched),
            ),
            final(self)@.well_formed(),
    {
        proof {
            use_type_invariant(&self.state);
        }
        let empty = self.state.current(direction).is_none();
        if !empty || !gone.device_type.supports(direction) {
            return Ok(());
        }
        proof {
            lemma_switch_target_fits(self@, device_views(remaining@), direction);
        }
        match self.priority_manager.find_best_device(remaining, direction) {
            Some(best) => self.apply_default(&best, direction, SwitchReason::PreviousUnavailable),
            None => Ok(()),
        }
    }

    /// Brings the controller's belief in line with the defaults that the
    /// system reports, and fills each slot that is still empty with the
    /// policy's choice among the devices that the system reports.
    pub fn update_current_devices(&mut self) -> (updated: Result<(), MonitorError>)
        ensures
            final(self).effects().requests.len() == old(self).effects().requests.len() + 1
                && final(self).effects().subscriptions == old(self).effects().subscriptions
                ==> exists|system: &mut A, id: &str|
                #![trigger call_ensures(A::set_default_output_device, (system, id), updated)]
                #![trigger call_ensures(A::set_default_input_device, (system, id), updated)]
                mut_ref_current(system) == old(self).audio_system_spec() && mut_ref_future(system)
                    == final(self).audio_system_spec()
                    && id@ == final(self).effects().requests.last().device_name
                    && match final(self).effects().requests.last().direction {
                    Direction::Output => call_ensures(
                        A::set_default_output_device,
                        (system, id),
                        updated,
                    ),
                    Direction::Input => call_ensures(
                        A::set_default_input_device,
                        (system, id),
                        updated,
                    ),
                },
            final(self).effects().requests.len() == old(self).effects().requests.len() + 2
                && final(self).effects().subscriptions == old(self).effects().subscriptions
                ==> exists|first: &mut A, first_id: &str, second: &mut A, second_id: &str|
                #![trigger
                    call_ensures(
                        A::set_default_output_device,
                        (first, first_id),
                        Ok::<(), MonitorError>(()),
                    ),
                    call_ensures(A::set_default_input_device, (second, second_id), updated),
                ]
                mut_ref_current(first) == old(self).audio_system_spec() && mut_ref_current(second)
                    == mut_ref_future(first) && mut_ref_future(second)
                    == final(self).audio_system_spec()
                        && first_id@ == final(self).effects().requests[final(self).effects().requests.len() - 2].device_name
                    && second_id@ == final(self).effects().requests.last().device_name
                    && final(self).effects().requests[final(self).effects().requests.len()
                    - 2].direction == Direction::Output
                    && final(self).effects().requests.last().direction == Direction::Input
                    && call_ensures(
                    A::set_default_output_device,
                    (first, first_id),
                    Ok::<(), MonitorError>(()),
                ) && call_ensures(A::set_default_input_device, (second, second_id), updated),
            audio_system_kept(
                old(self).audio_system_spec(),
                old(self).effects(),
                final(self).audio_system_spec(),
                final(self).effects(),
            ),
            Self::defaults_updated(
                old(self).audio_system_spec(),
                old(self)@,
                old(self).effects(),
                final(self)@,
                final(self).effects(),
                updated,
            ),
            final(self)@.policy == old(self)@.policy,
            final(self)@.settings == old(self)@.settings,
            final(self)@.well_formed(),
            forall|direction: Direction|
                #![trigger final(self)@.intended(direction)]
                final(self)@.intended(direction) == old(self)@.intended(direction)
                    || (final(self)@.intended(direction) is Some && final(self)@.intended(direction) == final(self)@.current(direction)),
    {
        proof {
            use_type_invariant(&self.state);
        }
        let output_answer = self.audio_system.get_default_output_device();
        let input_answer = self.audio_system.get_default_input_device();
        proof {
            assert(default_of(old(self).audio_system_spec(), Direction::Output, output_answer));
            assert(default_of(old(self).audio_system_spec(), Direction::Input, input_answer));
        }
        let reported_output = match output_answer {
            Ok(reported) => reported,
            Err(_) => None,
        };
        let reported_input = match input_answer {
            Ok(reported) => reported,
            Err(_) => None,
        };
        self.sync_defaults(reported_output, reported_input);
        let ghost synced = self@;
        let updated = if self.state.current(Direction::Output).is_none() || self.state.current(
            Direction::Input,
        ).is_none() {
            let answer = self.audio_system.enumerate_devices();
            proof {
                assert(enumeration_of(old(self).audio_system_spec(), answer));
            }
            match answer {
                Ok(available) => self.fill_empty_slots(available.as_slice()),
                Err(error) => Err(error),
            }
        } else {
            Ok(())
        };
        proof {
            assert(Self::updated_with(
                old(self).audio_system_spec(),
                synced,
                old(self).effects(),
                self@,
                self.effects(),
                updated,
            ));
        }
        updated
    }

    /// Takes over the defaults that the system reports: a reported device
    /// replaces the believed one of its slot where their ids differ.
    pub fn sync_defaults(
        &mut self,
        reported_output: Option<AudioDevice>,
        reported_input: Option<AudioDevice>,
    )
        ensures
            final(self).audio_system_spec() == old(self).audio_system_spec(),
            final(self)@ == old(self)@.after_event(
                ControllerEvent::Reported {
                    output: device_of(reported_output),
                    input: device_of(reported_input),
                },
            ),
            final(self).effects() == old(self).effects(),
            final(self)@.well_formed(),
    {
        proof {
            use_type_invariant(&self.state);
        }
        self.state.sync_defaults(reported_output, reported_input);
    }

    /// The device that fills the slot `direction` where it is empty: the
    /// policy's choice among `available`.
    pub open spec fn fill_target(
        view: ControllerView,
        available: Seq<DeviceView>,
        direction: Direction,
    ) -> Option<DeviceView> {
        if view.current(direction) is None {
            best_device(available, view.policy.rules(direction), direction)
        } else {
            None
        }
    }

    /// The value after the slot `direction`, where it was empty, has been
    /// filled.
    pub open spec fn filled(
        view: ControllerView,
        available: Seq<DeviceView>,
        direction: Direction,
    ) -> ControllerView {
        match Self::fill_target(view, available, direction) {
            Some(device) => view.after_switch(device, direction),
            None => view,
        }
    }

    /// Fills each empty slot with the policy's choice among `available`,
    /// output first. The first switch that the system refuses ends the
    /// work.
    pub fn fill_empty_slots(
        &mut self,
        available: &[AudioDevice],
    ) -> (filled: Result<(), MonitorError>)
        ensures
            final(self).effects().requests.len() == old(self).effects().requests.len() + 1
                && final(self).effects().subscriptions == old(self).effects().subscriptions
                ==> exists|system: &mut A, id: &str|
                #![trigger call_ensures(A::set_default_output_device, (system, id), filled)]
                #![trigger call_ensures(A::set_default_input_device, (system, id), filled)]
                mut_ref_current(system) == old(self).audio_system_spec() && mut_ref_future(system)
                    == final(self).audio_system_spec()
                    && id@ == final(self).effects().requests.last().device_name
                    && match final(self).effects().requests.last().direction {
                    Direction::Output => call_ensures(
                        A::set_default_output_device,
                        (system, id),
                        filled,
                    ),
                    Direction::Input => call_ensures(
                        A::set_default_input_device,
                        (system, id),
                        filled,
                    ),
                },
            final(self).effects().requests.len() == old(self).effects().requests.len() + 2
                && final(self).effects().subscriptions == old(self).effects().subscriptions
                ==> exists|first: &mut A, first_id: &str, second: &mut A, second_id: &str|
                #![trigger
                    call_ensures(
                        A::set_default_output_device,
                        (first, first_id),
                        Ok::<(), MonitorError>(()),
                    ),
                    call_ensures(A::set_default_input_device, (second, second_id), filled),
                ]
                mut_ref_current(first) == old(self).audio_system_spec() && mut_ref_current(second)
                    == mut_ref_future(first) && mut_ref_future(second)
                    == final(self).audio_system_spec()
                        && first_id@ == final(self).effects().requests[final(self).effects().requests.len() - 2].device_name
                    && second_id@ == final(self).effects().requests.last().device_name
                    && final(self).effects().requests[final(self).effects().requests.len()
                    - 2].direction == Direction::Output
                    && final(self).effects().requests.last().direction == Direction::Input
                    && call_ensures(
                    A::set_default_output_device,
                    (first, first_id),
                    Ok::<(), MonitorError>(()),
                ) && call_ensures(A::set_default_input_device, (second, second_id), filled),
            audio_system_kept(
                old(self).audio_system_spec(),
                old(self).effects(),
                final(self).audio_system_spec(),
                final(self).effects(),
            ),
            switched_in_turn(
                old(self)@,
                old(self).effects(),
                final(self)@,
                final(self).effects(),
                Self::fill_target(old(self)@, device_views(available@), Direction::Output),
                Self::fill_target(old(self)@, device_views(available@), Direction::Input),
                SwitchReason::HigherPriority,
                filled,
            ),
            filled is Ok ==> final(self)@ == Self::filled(
                Self::filled(old(self)@, device_views(available@), Direction::Output),
                device_views(available@),
                Direction::Input,
            ),
            filled is Err ==> final(self)@ == old(self)@ || final(self)@ == Self::filled(
                old(self)@,
                device_views(available@),
                Direction::Output,
            ),
            filled is Ok ==> final(self).effects() == old(self).effects().after_target(
                old(self)@.settings,
                Self::fill_target(old(self)@, device_views(available@), Direction::Output),
                Direction::Output,
                SwitchReason::HigherPriority,
                None,
            ).after_target(
                old(self)@.settings,
                Self::fill_target(old(self)@, device_views(available@), Direction::Input),
                Direction::Input,
                SwitchReason::HigherPriority,
                None,
            ),
            Self::fill_target(old(self)@, device_views(available@), Direction::Output) is None
                && Self::fill_target(old(self)@, device_views(available@), Direction::Input)
                is None ==> filled is Ok,
            final(self)@.well_formed(),
    {
        proof {
            use_type_invariant(&self.state);
            lemma_switch_target_fits(self@, device_views(available@), Direction::Output);
            lemma_switch_target_fits(self@, device_views(available@), Direction::Input);
        }
        if self.state.current(Direction::Output).is_none() {
            if let Some(best) = self.priority_manager.find_best_output_device(available) {
                self.apply_default(&best, Direction::Output, SwitchReason::HigherPriority)?;
            }
        }
        if self.state.current(Direction::Input).is_none() {
            if let Some(best) = self.priority_manager.find_best_input_device(available) {
                self.apply_default(&best, Direction::Input, SwitchReason::HigherPriority)?;
            }
        }
        Ok(())
    }

    /// Takes in that the system has reported a change.
    pub fn handle_device_change(&mut self) -> (updated: Result<(), MonitorError>)
        ensures
            final(self).effects().requests.len() == old(self).effects().requests.len() + 1
                && final(self).effects().subscriptions == old(self).effects().subscriptions
                ==> exists|system: &mut A, id: &str|
                #![trigger call_ensures(A::set_default_output_device, (system, id), updated)]
                #![trigger call_ensures(A::set_default_input_device, (system, id), updated)]
                mut_ref_current(system) == old(self).audio_system_spec() && mut_ref_future(system)
                    == final(self).audio_system_spec()
                    && id@ == final(self).effects().requests.last().device_name
                    && match final(self).effects().requests.last().direction {
                    Direction::Output => call_ensures(
                        A::set_default_output_device,
                        (system, id),
                        updated,
                    ),
                    Direction::Input => call_ensures(
                        A::set_default_input_device,
                        (system, id),
                        updated,
                    ),
                },
            final(self).effects().requests.len() == old(self).effects().requests.len() + 2
                && final(self).effects().subscriptions == old(self).effects().subscriptions
                ==> exists|first: &mut A, first_id: &str, second: &mut A, second_id: &str|
                #![trigger
                    call_ensures(
                        A::set_default_output_device,
                        (first, first_id),
                        Ok::<(), MonitorError>(()),
                    ),
                    call_ensures(A::set_default_input_device, (second, second_id), updated),
                ]
                mut_ref_current(first) == old(self).audio_system_spec() && mut_ref_current(second)
                    == mut_ref_future(first) && mut_ref_future(second)
                    == final(self).audio_system_spec()
                        && first_id@ == final(self).effects().requests[final(self).effects().requests.len() - 2].device_name
                    && second_id@ == final(self).effects().requests.last().device_name
                    && final(self).effects().requests[final(self).effects().requests.len()
                    - 2].direction == Direction::Output
                    && final(self).effects().requests.last().direction == Direction::Input
                    && call_ensures(
                    A::set_default_output_device,
                    (first, first_id),
                    Ok::<(), MonitorError>(()),
                ) && call_ensures(A::set_default_input_device, (second, second_id), updated),
            audio_system_kept(
                old(self).audio_system_spec(),
                old(self).effects(),
                final(self).audio_system_spec(),
                final(self).effects(),
            ),
            Self::defaults_updated(
                old(self).audio_system_spec(),
                old(self)@,
                old(self).effects(),
                final(self)@,
                final(self).effects(),
                updated,
            ),
            final(self)@.policy == old(self)@.policy,
            final(self)@.settings == old(self)@.settings,
            final(self)@.well_formed(),
    {
        self.update_current_devices()
    }

    /// Asks the system to make the device of this name its default
    /// output. The controller's record stays as it is.
    pub fn set_default_output_device(
        &mut self,
        device_name: &str,
    ) -> (set: Result<(), MonitorError>)
        ensures
            exists|system: &mut A, id: &str|
                mut_ref_current(system) == old(self).audio_system_spec() && mut_ref_future(system)
                    == final(self).audio_system_spec() && id@ == device_name@
                        && #[trigger] call_ensures(
                    A::set_default_output_device,
                    (system, id),
                    set,
                ),
            audio_system_kept(
                old(self).audio_system_spec(),
                old(self).effects(),
                final(self).audio_system_spec(),
                final(self).effects(),
            ),
            final(self)@ == old(self)@,
            final(self).effects() == (Effects {
                requests: old(self).effects().requests.push(
                    SwitchRequest { direction: Direction::Output, device_name: device_name@ },
                ),
                ..old(self).effects()
            }),
    {
        self.request_switch(Direction::Output, device_name)
    }

    /// Asks the system to make the device of this name its default input.
    /// The controller's record stays as it is.
    pub fn set_default_input_device(&mut self, device_name: &str) -> (set: Result<(), MonitorError>)
        ensures
            exists|system: &mut A, id: &str|
                mut_ref_current(system) == old(self).audio_system_spec() && mut_ref_future(system)
                    == final(self).audio_system_spec() && id@ == device_name@
                        && #[trigger] call_ensures(
                    A::set_default_input_device,
                    (system, id),
                    set,
                ),
            audio_system_kept(
                old(self).audio_system_spec(),
                old(self).effects(),
                final(self).audio_system_spec(),
                final(self).effects(),
            ),
            final(self)@ == old(self)@,
            final(self).effects() == (Effects {
                requests: old(self).effects().requests.push(
                    SwitchRequest { direction: Direction::Input, device_name: device_name@ },
                ),
                ..old(self).effects()
            }),
    {
        self.request_switch(Direction::Input, device_name)
    }

    /// Takes over the rules and notification settings of `config`. The
    /// intended device of a slot stays where a rule of the new policy for
    /// that slot matches its name; else the slot's intent is given up.
    /// What the controller believes of the system stays as it is.
    pub fn apply_config(&mut self, config: &Config)
        ensures
            final(self).audio_system_spec() == old(self).audio_system_spec(),
            final(self)@ == old(self)@.after_reload(config@),
            final(self).effects() == old(self).effects(),
            final(self)@.well_formed(),
    {
        proof {
            use_type_invariant(&self.state);
        }
        self.priority_manager.replace_rules(config);
        self.notification_manager.apply_config(config);
        let keep_output = match self.state.intended(Direction::Output) {
            Some(device) => self.priority_manager.considers(Direction::Output, device.name.as_str()),
            None => false,
        };
        if !keep_output {
            self.state.drop_intent(Direction::Output);
        }
        let keep_input = match self.state.intended(Direction::Input) {
            Some(device) => self.priority_manager.considers(Direction::Input, device.name.as_str()),
            None => false,
        };
        if !keep_input {
            self.state.drop_intent(Direction::Input);
        }
    }
}

/// The name of a device that may be absent.
pub fn device_name(device: &Option<AudioDevice>) -> (name: Option<String>)
    ensures
        crate::priority::manager::text_of(name) == name_of(device_of(*device)),
{
    match device {
        Some(device) => Some(device.name.clone()),
        None => None,
    }
}

/// Holds the defaults that the system reports against the devices that
/// the policy prefers among `available`.
pub fn evaluate_preferences(
    resolver: &DevicePriorityManager,
    available: &[AudioDevice],
    current_output: &Option<AudioDevice>,
    current_input: &Option<AudioDevice>,
) -> (status: PreferenceStatus)
    ensures
        status@ == preference_status(
            resolver@,
            device_views(available@),
            device_of(*current_output),
            device_of(*current_input),
        ),
{
    let preferred_output = resolver.find_best_output_device(available);
    let preferred_input = resolver.find_best_input_device(available);
    PreferenceStatus::evaluate(
        device_name(current_output),
        device_name(current_input),
        device_name(&preferred_output),
        device_name(&preferred_input),
    )
}

/// The device that the preferences call for in the slot `direction`.
pub fn find_preference_target(
    resolver: &DevicePriorityManager,
    available: &[AudioDevice],
    current: &Option<AudioDevice>,
    direction: Direction,
) -> (target: Option<AudioDevice>)
    ensures
        device_of(target) == preference_target(
            resolver@,
            device_views(available@),
            device_of(*current),
            direction,
        ),
{
    match resolver.find_best_device(available, direction) {
        Some(preferred) => {
            let same = match current {
                Some(current) => current.name == preferred.name,
                None => false,
            };
            if same {
                None
            } else {
                Some(preferred)
            }
        },
        None => None,
    }
}

impl<A: AudioSystemInterface, T: NotificationSender> DeviceController<A, T> {
    /// Holds the defaults that the system reports against the devices
    /// that the policy prefers among those that the system reports.
    pub fn check_preferences(&self) -> (status: Result<PreferenceStatus, MonitorError>)
        ensures
            match status {
                Ok(status) => exists|
                    available: Vec<AudioDevice>,
                    output: Option<AudioDevice>,
                    input: Option<AudioDevice>,
                |
                    #[trigger] observation_of(self.audio_system_spec(), available, output, input)
                        && status@ == preference_status(
                        self@.policy,
                        device_views(available@),
                        device_of(output),
                        device_of(input),
                    ),
                Err(error) => observation_fails(self.audio_system_spec(), error),
            },
    {
        let available = self.audio_system.enumerate_devices()?;
        let current_output = self.audio_system.get_default_output_device()?;
        let current_input = self.audio_system.get_default_input_device()?;
        proof {
            assert(observation_of(
                self.audio_system_spec(),
                available,
                current_output,
                current_input,
            ));
        }
        Ok(
            evaluate_preferences(
                &self.priority_manager,
                available.as_slice(),
                &current_output,
                &current_input,
            ),
        )
    }

    /// Makes the preferred device the default of each slot whose default
    /// has another name, output first, and says what was changed.
    pub fn apply_preferences(&mut self) -> (changes: Result<PreferenceChanges, MonitorError>)
        ensures
            final(self).effects().requests.len() == old(self).effects().requests.len() + 1
                && final(self).effects().subscriptions == old(self).effects().subscriptions
                ==> exists|system: &mut A, id: &str|
                #![trigger call_ensures(A::set_default_output_device, (system, id), unit_outcome(changes))]
                #![trigger call_ensures(A::set_default_input_device, (system, id), unit_outcome(changes))]
                mut_ref_current(system) == old(self).audio_system_spec() && mut_ref_future(system)
                    == final(self).audio_system_spec()
                    && id@ == final(self).effects().requests.last().device_name
                    && match final(self).effects().requests.last().direction {
                    Direction::Output => call_ensures(
                        A::set_default_output_device,
                        (system, id),
                        unit_outcome(changes),
                    ),
                    Direction::Input => call_ensures(
                        A::set_default_input_device,
                        (system, id),
                        unit_outcome(changes),
                    ),
                },
            final(self).effects().requests.len() == old(self).effects().requests.len() + 2
                && final(self).effects().subscriptions == old(self).effects().subscriptions
                ==> exists|first: &mut A, first_id: &str, second: &mut A, second_id: &str|
                #![trigger
                    call_ensures(
                        A::set_default_output_device,
                        (first, first_id),
                        Ok::<(), MonitorError>(()),
                    ),
                    call_ensures(A::set_default_input_device, (second, second_id), unit_outcome(changes)),
                ]
                mut_ref_current(first) == old(self).audio_system_spec() && mut_ref_current(second)
                    == mut_ref_future(first) && mut_ref_future(second)
                    == final(self).audio_system_spec()
                        && first_id@ == final(self).effects().requests[final(self).effects().requests.len() - 2].device_name
                    && second_id@ == final(self).effects().requests.last().device_name
                    && final(self).effects().requests[final(self).effects().requests.len()
                    - 2].direction == Direction::Output
                    && final(self).effects().requests.last().direction == Direction::Input
                    && call_ensures(
                    A::set_default_output_device,
                    (first, first_id),
                    Ok::<(), MonitorError>(()),
                )
                    && call_ensures(A::set_default_input_device, (second, second_id), unit_outcome(changes)),
            audio_system_kept(
                old(self).audio_system_spec(),
                old(self).effects(),
                final(self).audio_system_spec(),
                final(self).effects(),
            ),
            final(self)@.policy == old(self)@.policy,
            final(self)@.settings == old(self)@.settings,
            final(self)@.well_formed(),
            changes matches Ok(changes) ==> {
                &&& changes.output_changed == (changes.new_output is Some)
                &&& changes.input_changed == (changes.new_input is Some)
                &&& changes.output_changed ==> name_of(final(self)@.intended_output)
                    == crate::priority::manager::text_of(changes.new_output)
                &&& !changes.output_changed
                    ==> final(self)@.intended_output == old(self)@.intended_output
                &&& changes.input_changed ==> name_of(final(self)@.intended_input)
                    == crate::priority::manager::text_of(changes.new_input)
                &&& !changes.input_changed
                    ==> final(self)@.intended_input == old(self)@.intended_input
            },
            Self::preferences_applied_to(
                old(self).audio_system_spec(),
                old(self)@,
                old(self).effects(),
                final(self)@,
                final(self).effects(),
                changes,
            ),
    {
        proof {
            use_type_invariant(&self.state);
        }
        let available = self.audio_system.enumerate_devices()?;
        let current_output = self.audio_system.get_default_output_device()?;
        let current_input = self.audio_system.get_default_input_device()?;
        proof {
            assert(observation_of(
                self.audio_system_spec(),
                available,
                current_output,
                current_input,
            ));
        }
        self.apply_preferences_among(available.as_slice(), &current_output, &current_input)
    }

    /// What holds after the preferences were applied to what `system`
    /// reported. Where the system could not be asked for its devices and
    /// defaults, nothing was done and its error comes back. Else the
    /// preferences were applied among the devices and with the defaults
    /// that it answered with.
    pub open spec fn preferences_applied_to(
        system: A,
        before: ControllerView,
        before_effects: Effects,
        after: ControllerView,
        after_effects: Effects,
        changes: Result<PreferenceChanges, MonitorError>,
    ) -> bool {
        ||| changes matches Err(error) && observation_fails(system, error) && after == before
            && after_effects == before_effects
        ||| exists|
            available: Vec<AudioDevice>,
            output: Option<AudioDevice>,
            input: Option<AudioDevice>,
        |
            #[trigger] observation_of(system, available, output, input) && preferences_applied(
                before,
                before_effects,
                after,
                after_effects,
                device_views(available@),
                device_of(output),
                device_of(input),
                changes_made(changes),
            ) && switched_in_turn(
                before,
                before_effects,
                after,
                after_effects,
                preference_target(
                    before.policy,
                    device_views(available@),
                    device_of(output),
                    Direction::Output,
                ),
                preference_target(
                    before.policy,
                    device_views(available@),
                    device_of(input),
                    Direction::Input,
                ),
                SwitchReason::HigherPriority,
                unit_outcome(changes),
            )
    }

    /// Makes the preferred device among `available` the default of each
    /// slot whose reported default has another name, output first. The
    /// first switch that the system refuses ends the work.
    pub fn apply_preferences_among(
        &mut self,
        available: &[AudioDevice],
        current_output: &Option<AudioDevice>,
        current_input: &Option<AudioDevice>,
    ) -> (changes: Result<PreferenceChanges, MonitorError>)
        ensures
            final(self).effects().requests.len() == old(self).effects().requests.len() + 1
                && final(self).effects().subscriptions == old(self).effects().subscriptions
                ==> exists|system: &mut A, id: &str|
                #![trigger call_ensures(A::set_default_output_device, (system, id), unit_outcome(changes))]
                #![trigger call_ensures(A::set_default_input_device, (system, id), unit_outcome(changes))]
                mut_ref_current(system) == old(self).audio_system_spec() && mut_ref_future(system)
                    == final(self).audio_system_spec()
                    && id@ == final(self).effects().requests.last().device_name
                    && match final(self).effects().requests.last().direction {
                    Direction::Output => call_ensures(
                        A::set_default_output_device,
                        (system, id),
                        unit_outcome(changes),
                    ),
                    Direction::Input => call_ensures(
                        A::set_default_input_device,
                        (system, id),
                        unit_outcome(changes),
                    ),
                },
            final(self).effects().requests.len() == old(self).effects().requests.len() + 2
                && final(self).effects().subscriptions == old(self).effects().subscriptions
                ==> exists|first: &mut A, first_id: &str, second: &mut A, second_id: &str|
                #![trigger
                    call_ensures(
                        A::set_default_output_device,
                        (first, first_id),
                        Ok::<(), MonitorError>(()),
                    ),
                    call_ensures(A::set_default_input_device, (second, second_id), unit_outcome(changes)),
                ]
                mut_ref_current(first) == old(self).audio_system_spec() && mut_ref_current(second)
                    == mut_ref_future(first) && mut_ref_future(second)
                    == final(self).audio_system_spec()
                        && first_id@ == final(self).effects().requests[final(self).effects().requests.len() - 2].device_name
                    && second_id@ == final(self).effects().requests.last().device_name
                    && final(self).effects().requests[final(self).effects().requests.len()
                    - 2].direction == Direction::Output
                    && final(self).effects().requests.last().direction == Direction::Input
                    && call_ensures(
                    A::set_default_output_device,
                    (first, first_id),
                    Ok::<(), MonitorError>(()),
                )
                    && call_ensures(A::set_default_input_device, (second, second_id), unit_outcome(changes)),
            audio_system_kept(
                old(self).audio_system_spec(),
                old(self).effects(),
                final(self).audio_system_spec(),
                final(self).effects(),
            ),
            switched_in_turn(
                old(self)@,
                old(self).effects(),
                final(self)@,
                final(self).effects(),
                preference_target(
                    old(self)@.policy,
                    device_views(available@),
                    device_of(*current_output),
                    Direction::Output,
                ),
                preference_target(
                    old(self)@.policy,
                    device_views(available@),
                    device_of(*current_input),
                    Direction::Input,
                ),
                SwitchReason::HigherPriority,
                match changes {
                    Ok(_) => Ok(()),
                    Err(error) => Err(error),
                },
            ),
            preferences_applied(
                old(self)@,
                old(self).effects(),
                final(self)@,
                final(self).effects(),
                device_views(available@),
                device_of(*current_output),
                device_of(*current_input),
                changes_made(changes),
            ),
            final(self)@.policy == old(self)@.policy,
            final(self)@.settings == old(self)@.settings,
            final(self)@.well_formed(),
            changes matches Ok(changes) ==> {
                let output = preference_target(
                    old(self)@.policy,
                    device_views(available@),
                    device_of(*current_output),
                    Direction::Output,
                );
                let input = preference_target(
                    old(self)@.policy,
                    device_views(available@),
                    device_of(*current_input),
                    Direction::Input,
                );
                &&& changes@ == changes_of(name_of(output), name_of(input))
                &&& final(self).effects() == old(self).effects().after_target(
                    old(self)@.settings,
                    output,
                    Direction::Output,
                    SwitchReason::HigherPriority,
                    None,
                ).after_target(
                    old(self)@.settings,
                    input,
                    Direction::Input,
                    SwitchReason::HigherPriority,
                    None,
                )
                &&& final(self)@ == {
                    let after_output = match output {
                        Some(device) => old(self)@.after_switch(device, Direction::Output),
                        None => old(self)@,
                    };
                    match input {
                        Some(device) => after_output.after_switch(device, Direction::Input),
                        None => after_output,
                    }
                }
            },
            changes is Err ==> {
                ||| final(self)@ == old(self)@
                ||| preference_target(
                    old(self)@.policy,
                    device_views(available@),
                    device_of(*current_output),
                    Direction::Output,
                ) matches Some(device) && final(self)@ == old(self)@.after_switch(
                    device,
                    Direction::Output,
                )
            },
            preference_target(
                old(self)@.policy,
                device_views(available@),
                device_of(*current_output),
                Direction::Output,
            ) is None && preference_target(
                old(self)@.policy,
                device_views(available@),
                device_of(*current_input),
                Direction::Input,
            ) is None ==> changes is Ok,
    {
        proof {
            use_type_invariant(&self.state);
            lemma_switch_target_fits(self@, device_views(available@), Direction::Output);
            lemma_switch_target_fits(self@, device_views(available@), Direction::Input);
        }
        let mut changes = PreferenceChanges::no_changes();
        let output = find_preference_target(
            &self.priority_manager,
            available,
            current_output,
            Direction::Output,
        );
        if let Some(preferred) = output {
            self.apply_default(&preferred, Direction::Output, SwitchReason::HigherPriority)?;
            changes.output_changed = true;
            changes.new_output = Some(preferred.name.clone());
        }
        let input = find_preference_target(
            &self.priority_manager,
            available,
            current_input,
            Direction::Input,
        );
        if let Some(preferred) = input {
            self.apply_default(&preferred, Direction::Input, SwitchReason::HigherPriority)?;
            changes.input_changed = true;
            changes.new_input = Some(preferred.name.clone());
        }
        Ok(changes)
    }
}

} // verus!
