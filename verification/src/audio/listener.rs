//! The device change listener.
//!
//! Every report of the system that its devices have changed is treated as
//! a request to look at everything again: the listener enumerates, holds
//! the result against the last enumeration, lets the new devices settle,
//! and asks the controller to switch where the policy prefers a settled
//! device to the system's default.

use crate::audio::controller_model::{audio_system_kept, ControllerView, Effects};
use crate::audio::controller_v2::DeviceController;
use crate::audio::device::{device_views, AudioDevice, DeviceView, Direction};
use crate::audio::snapshot::{
    added_devices, removed_devices, DeviceChanges, ListenerState, ListenerView,
};
use crate::error::MonitorError;
use crate::notifications::{
    connected_notification, disconnected_notification, NotificationSender,
    NotificationSettings, SwitchReason, TestNotificationSender,
};
use crate::priority::manager::{
    best_device, device_of, lemma_best_index, DevicePriorityManager, PriorityView,
};
use crate::system::traits::{
    default_of, enumeration_of, reported_device, AudioSystemInterface,
};
use vstd::prelude::*;

verus! {

impl PriorityView {
    /// The device that the listener switches the slot `direction` to: the
    /// policy's choice among the stable devices, unless the system has
    /// reported a default of that name.
    pub open spec fn planned_switch(self, stable: Seq<DeviceView>, direction: Direction) -> Option<
        DeviceView,
    > {
        match best_device(stable, self.rules(direction), direction) {
            Some(best) if self.should_switch(direction, best.name) => Some(best),
            _ => None,
        }
    }

    /// The policy after the system has reported a default named
    /// `device_name` for the slot `direction`.
    pub open spec fn with_current(
        self,
        direction: Direction,
        device_name: Seq<char>,
    ) -> PriorityView {
        match direction {
            Direction::Input => PriorityView { current_input: Some(device_name), ..self },
            Direction::Output => PriorityView { current_output: Some(device_name), ..self },
        }
    }
}

/// Once the system has reported the device of a planned switch as its
/// default, the same stable devices call for no further switch. Two
/// reconciliations in a row on the same stable devices therefore ask the
/// system for nothing the second time.
pub proof fn lemma_planned_switch_settles(
    policy: PriorityView,
    stable: Seq<DeviceView>,
    direction: Direction,
)
    ensures
        policy.planned_switch(stable, direction) matches Some(device) ==> policy.with_current(
            direction,
            device.name,
        ).planned_switch(stable, direction) is None,
{
}

/// With no stable device, or with no rule for the slot, the listener
/// plans no switch.
pub proof fn lemma_no_planned_switch(
    policy: PriorityView,
    stable: Seq<DeviceView>,
    direction: Direction,
)
    requires
        stable.len() == 0 || policy.rules(direction).len() == 0,
    ensures
        policy.planned_switch(stable, direction) is None,
{
    lemma_best_index(stable, policy.rules(direction), direction);
    if policy.rules(direction).len() == 0 {
        assert(policy.rules(direction) =~= Seq::empty());
        crate::priority::manager::lemma_no_rules(stable, direction);
    }
}

/// The device that `resolver` plans to switch the slot `direction` to,
/// given the stable devices.
pub fn plan_switch(
    resolver: &DevicePriorityManager,
    stable: &[AudioDevice],
    direction: Direction,
) -> (planned: Option<AudioDevice>)
    ensures
        device_of(planned) == resolver@.planned_switch(device_views(stable@), direction),
        planned matches Some(device) ==> device.device_type.supports_spec(direction),
{
    proof {
        lemma_best_index(device_views(stable@), resolver@.rules(direction), direction);
    }
    match resolver.find_best_device(stable, direction) {
        Some(best) => {
            let switch = match direction {
                Direction::Input => resolver.should_switch_input(&best),
                Direction::Output => resolver.should_switch_output(&best),
            };
            if switch {
                Some(best)
            } else {
                None
            }
        },
        None => None,
    }
}

/// What became of the switch of one slot.
#[derive(Debug)]
pub enum SwitchOutcome {
    /// The policy called for no switch.
    NotNeeded,
    /// The system made this device its default.
    Switched(AudioDevice),
    /// The system refused to make this device its default.
    Failed(AudioDevice, MonitorError),
}

impl SwitchOutcome {
    /// The device that the switch was aimed at.
    pub open spec fn target(self) -> Option<DeviceView> {
        match self {
            SwitchOutcome::NotNeeded => None,
            SwitchOutcome::Switched(device) => Some(device@),
            SwitchOutcome::Failed(device, _) => Some(device@),
        }
    }

    /// The words of the system's error, where it refused the switch.
    pub open spec fn failure(self) -> Option<Seq<char>> {
        match self {
            SwitchOutcome::Failed(_, error) => Some(error.message@),
            _ => None,
        }
    }

    /// What the system answered to the request, where it was asked;
    /// success where it was not.
    pub open spec fn answer(self) -> Result<(), MonitorError> {
        match self {
            SwitchOutcome::Failed(_, error) => Err(error),
            _ => Ok(()),
        }
    }

    /// Whether the system was asked to change its default.
    pub fn was_attempted(&self) -> (attempted: bool)
        ensures
            attempted == (self.target() is Some),
    {
        match self {
            SwitchOutcome::NotNeeded => false,
            SwitchOutcome::Switched(_) => true,
            SwitchOutcome::Failed(_, _) => true,
        }
    }

    /// Whether the system changed its default.
    pub fn succeeded(&self) -> (succeeded: bool)
        ensures
            succeeded == (self is Switched),
    {
        match self {
            SwitchOutcome::Switched(_) => true,
            _ => false,
        }
    }
}

/// What the listener made of one report of changed devices.
#[derive(Debug)]
pub struct ListChangeReport {
    /// The devices that the system enumerated.
    pub devices: Vec<AudioDevice>,
    /// The devices that are new.
    pub added: Vec<AudioDevice>,
    /// The devices that are gone.
    pub removed: Vec<AudioDevice>,
    /// The devices that were stable.
    pub stable: Vec<AudioDevice>,
    /// What became of the output slot.
    pub output: SwitchOutcome,
    /// What became of the input slot.
    pub input: SwitchOutcome,
}

impl ListChangeReport {
    /// The answer of the system to the request of a report that made one
    /// request only.
    pub open spec fn single_answer(self) -> Result<(), MonitorError> {
        if self.output.target() is Some {
            self.output.answer()
        } else {
            self.input.answer()
        }
    }
}

/// The value of a controller after the switch of the slot `direction`
/// came to `outcome`.
pub open spec fn after_outcome(
    controller: ControllerView,
    outcome: SwitchOutcome,
    direction: Direction,
) -> ControllerView {
    match outcome {
        SwitchOutcome::Switched(device) => controller.after_switch(device@, direction),
        _ => controller,
    }
}

/// What has been handed to the sender once the user has been told of
/// each device in `devices`, in order, that it has been connected.
pub open spec fn told_connected(
    handed: Seq<(Seq<char>, Seq<char>)>,
    settings: NotificationSettings,
    devices: Seq<DeviceView>,
) -> Seq<(Seq<char>, Seq<char>)>
    decreases devices.len(),
{
    if devices.len() == 0 {
        handed
    } else {
        settings.notified(
            told_connected(handed, settings, devices.drop_last()),
            connected_notification(devices.last()),
        )
    }
}

/// What has been handed to the sender once the user has been told of
/// each device in `devices`, in order, that it has been disconnected.
pub open spec fn told_disconnected(
    handed: Seq<(Seq<char>, Seq<char>)>,
    settings: NotificationSettings,
    devices: Seq<DeviceView>,
) -> Seq<(Seq<char>, Seq<char>)>
    decreases devices.len(),
{
    if devices.len() == 0 {
        handed
    } else {
        settings.notified(
            told_disconnected(handed, settings, devices.drop_last()),
            disconnected_notification(devices.last()),
        )
    }
}

/// The effects of processing an enumeration: the user is told of the new
/// devices, then of the gone ones; then the audio system is asked for the
/// planned switch of the output, if there is one, and the user is told how
/// it went; then the same for the input.
pub open spec fn processing_effects(
    before: Effects,
    controller: ControllerView,
    report: ListChangeReport,
) -> Effects {
    (Effects {
        notifications: told_disconnected(
            told_connected(
                before.notifications,
                controller.settings,
                device_views(report.added@),
            ),
            controller.settings,
            device_views(report.removed@),
        ),
        ..before
    }).after_target(
        controller.settings,
        report.output.target(),
        Direction::Output,
        SwitchReason::HigherPriority,
        report.output.failure(),
    ).after_target(
        controller.settings,
        report.input.target(),
        Direction::Input,
        SwitchReason::HigherPriority,
        report.input.failure(),
    )
}

/// Where no switch is planned, processing an enumeration asks the audio
/// system for nothing.
pub proof fn lemma_no_plan_no_request(
    before: Effects,
    controller: ControllerView,
    report: ListChangeReport,
)
    requires
        report.output.target() is None,
        report.input.target() is None,
    ensures
        processing_effects(before, controller, report).requests == before.requests,
{
}

/// What holds after the enumeration `report.devices`, made at `now_ms`,
/// has been processed: the listener remembers it; the new and the gone
/// devices were found against the enumeration before; the stable devices
/// are those of the stability predicate; the switches aimed at the devices
/// that the policy plans for them; and the controller's record follows the
/// outcomes of the switches.
pub open spec fn processed(
    state_before: ListenerView,
    controller_before: ControllerView,
    state_after: ListenerView,
    controller_after: ControllerView,
    now_ms: u64,
    report: ListChangeReport,
) -> bool {
    let current = device_views(report.devices@);
    &&& state_after == state_before.observed(current, now_ms)
    &&& device_views(report.added@) == added_devices(state_before.previous_devices, current)
    &&& device_views(report.removed@) == removed_devices(state_before.previous_devices, current)
    &&& device_views(report.stable@) == state_after.stable_devices(current, now_ms)
    &&& report.output.target() == controller_before.policy.planned_switch(
        device_views(report.stable@),
        Direction::Output,
    )
    &&& report.input.target() == controller_before.policy.planned_switch(
        device_views(report.stable@),
        Direction::Input,
    )
    &&& controller_after == after_outcome(
        after_outcome(controller_before, report.output, Direction::Output),
        report.input,
        Direction::Input,
    )
}

/// Receives the system's reports of change and reconciles.
pub struct DeviceChangeListener<
    A: AudioSystemInterface,
    T: NotificationSender = TestNotificationSender,
> {
    controller: DeviceController<A, T>,
    state: ListenerState,
}

impl<A: AudioSystemInterface, T: NotificationSender> DeviceChangeListener<A, T> {
    /// What the listener remembers of the devices.
    pub closed spec fn state_view(&self) -> ListenerView {
        self.state@
    }

    /// The value of the listener's controller.
    pub closed spec fn controller_view(&self) -> ControllerView {
        self.controller@
    }

    /// What the listener's controller has asked of its audio system and of
    /// its sender so far.
    pub closed spec fn effects(&self) -> Effects {
        self.controller.effects()
    }

    /// The audio system of the listener's controller.
    pub closed spec fn audio_system_spec(&self) -> A {
        self.controller.audio_system_spec()
    }

    /// A listener on top of `controller` that starts from what the system
    /// reports at `now_ms`. The devices that are there at the start count
    /// as first seen at `now_ms`; where the system cannot be asked, the
    /// listener starts from no device.
    pub fn new(controller: DeviceController<A, T>, now_ms: u64) -> (listener: Self)
        ensures
            listener.audio_system_spec() == controller.audio_system_spec(),
            exists|answer: Result<Vec<AudioDevice>, MonitorError>| #[trigger]
                enumeration_of(controller.audio_system_spec(), answer) && listener.state_view()
                    == ListenerView::at_start(
                    match answer {
                        Ok(devices) => device_views(devices@),
                        Err(_) => Seq::empty(),
                    },
                    now_ms,
                ),
            listener.controller_view() == controller@,
            listener.effects() == controller.effects(),
            listener.state_view() == ListenerView::at_start(
                listener.state_view().previous_devices,
                now_ms,
            ),
            listener.state_view().well_formed(),
    {
        let answer = controller.enumerate_devices();
        proof {
            assert(enumeration_of(controller.audio_system_spec(), answer));
        }
        match answer {
            Ok(devices) => Self::starting_from(controller, devices.as_slice(), now_ms),
            Err(_) => {
                let none: Vec<AudioDevice> = Vec::new();
                assert(device_views(none@) =~= Seq::empty());
                Self::starting_from(controller, none.as_slice(), now_ms)
            },
        }
    }

    /// A listener on top of `controller` whose last enumeration is
    /// `initial_devices`, each of them first seen at `now_ms`.
    pub fn starting_from(
        controller: DeviceController<A, T>,
        initial_devices: &[AudioDevice],
        now_ms: u64,
    ) -> (listener: Self)
        ensures
            listener.audio_system_spec() == controller.audio_system_spec(),
            listener.controller_view() == controller@,
            listener.effects() == controller.effects(),
            listener.state_view() == ListenerView::at_start(
                device_views(initial_devices@),
                now_ms,
            ),
            listener.state_view().well_formed(),
    {
        let state = ListenerState::new(initial_devices, now_ms);
        Self { controller, state }
    }

    /// The controller.
    pub fn controller(&self) -> (controller: &DeviceController<A, T>)
        ensures
            controller.audio_system_spec() == self.audio_system_spec(),
            controller@ == self.controller_view(),
            controller.effects() == self.effects(),
    {
        &self.controller
    }

    /// The controller, to act on it between two events.
    pub fn controller_mut(&mut self) -> (controller: &mut DeviceController<A, T>)
        ensures
            controller.audio_system_spec() == old(self).audio_system_spec(),
            final(self).audio_system_spec() == final(controller).audio_system_spec(),
            controller@ == old(self).controller_view(),
            controller.effects() == old(self).effects(),
            final(self).controller_view() == final(controller)@,
            final(self).effects() == final(controller).effects(),
            final(self).state_view() == old(self).state_view(),
    {
        &mut self.controller
    }

    /// What the listener remembers of the devices.
    pub fn state(&self) -> (state: &ListenerState)
        ensures
            state@ == self.state_view(),
    {
        &self.state
    }

    /// Takes in a report that the list of devices has changed, received at
    /// `now_ms`. Where the devices cannot be enumerated the event is
    /// dropped: nothing changes and `None` comes back.
    pub fn handle_device_list_change(&mut self, now_ms: u64) -> (report: Option<ListChangeReport>)
        ensures
            report is Some
                && final(self).effects().requests.len() == old(self).effects().requests.len() + 1
                && final(self).effects().subscriptions == old(self).effects().subscriptions
                ==> exists|system: &mut A, id: &str|
                #![trigger call_ensures(A::set_default_output_device, (system, id), report->0.single_answer())]
                #![trigger call_ensures(A::set_default_input_device, (system, id), report->0.single_answer())]
                mut_ref_current(system) == old(self).audio_system_spec() && mut_ref_future(system)
                    == final(self).audio_system_spec()
                    && id@ == final(self).effects().requests.last().device_name
                    && match final(self).effects().requests.last().direction {
                    Direction::Output => call_ensures(
                        A::set_default_output_device,
                        (system, id),
                        report->0.single_answer(),
                    ),
                    Direction::Input => call_ensures(
                        A::set_default_input_device,
                        (system, id),
                        report->0.single_answer(),
                    ),
                },
            report is Some
                && final(self).effects().requests.len() == old(self).effects().requests.len() + 2
                && final(self).effects().subscriptions == old(self).effects().subscriptions
                ==> exists|first: &mut A, first_id: &str, second: &mut A, second_id: &str|
                #![trigger
                    call_ensures(A::set_default_output_device, (first, first_id), report->0.output.answer()),
                    call_ensures(A::set_default_input_device, (second, second_id), report->0.input.answer()),
                ]
                mut_ref_current(first) == old(self).audio_system_spec() && mut_ref_current(second)
                    == mut_ref_future(first) && mut_ref_future(second)
                    == final(self).audio_system_spec()
                        && first_id@ == final(self).effects().requests[final(self).effects().requests.len() - 2].device_name
                    && second_id@ == final(self).effects().requests.last().device_name
                    && final(self).effects().requests[final(self).effects().requests.len()
                    - 2].direction == Direction::Output
                    && final(self).effects().requests.last().direction == Direction::Input
                    && call_ensures(A::set_default_output_device, (first, first_id), report->0.output.answer())
                    && call_ensures(A::set_default_input_device, (second, second_id), report->0.input.answer()),
            exists|answer: Result<Vec<AudioDevice>, MonitorError>| #[trigger]
                enumeration_of(old(self).audio_system_spec(), answer) && match answer {
                    Ok(devices) => report matches Some(report) && report.devices@ == devices@,
                    Err(_) => report is None,
                },
            audio_system_kept(
                old(self).audio_system_spec(),
                old(self).effects(),
                final(self).audio_system_spec(),
                final(self).effects(),
            ),
            report is None ==> final(self).state_view() == old(self).state_view()
                && final(self).controller_view() == old(self).controller_view()
                && final(self).effects() == old(self).effects(),
            report matches Some(report) ==> processed(
                old(self).state_view(),
                old(self).controller_view(),
                final(self).state_view(),
                final(self).controller_view(),
                now_ms,
                report,
            ) && final(self).effects() == processing_effects(
                old(self).effects(),
                old(self).controller_view(),
                report,
            ),
            final(self).state_view().well_formed(),
            final(self).controller_view().well_formed(),
    {
        let answer = self.controller.enumerate_devices();
        proof {
            assert(enumeration_of(old(self).audio_system_spec(), answer));
        }
        match answer {
            Ok(current) => Some(self.process_device_list(current, now_ms)),
            Err(_) => {
                proof {
                    self.state.lemma_well_formed();
                }
                self.controller.intent_is_well_formed();
                None
            },
        }
    }

    /// Takes in the enumeration `current`, made at `now_ms`:
    ///
    /// 1. the devices whose id was not there before are new and count as
    ///    first seen at `now_ms`; the user is told of each, where wanted;
    /// 2. the devices whose id is gone lose their first appearance; the
    ///    user is told of each, where wanted;
    /// 3. `current` becomes the last enumeration;
    /// 4. of the stable devices, the one that the policy prefers for each
    ///    slot is made the default with the reason of higher priority,
    ///    unless the system has reported a default of its name.
    ///
    /// A refused switch leaves the controller's record as it is.
    pub fn process_device_list(&mut self, current: Vec<AudioDevice>, now_ms: u64) -> (report:
        ListChangeReport)
        ensures
            final(self).effects().requests.len() == old(self).effects().requests.len() + 1
                && final(self).effects().subscriptions == old(self).effects().subscriptions
                ==> exists|system: &mut A, id: &str|
                #![trigger call_ensures(A::set_default_output_device, (system, id), report.single_answer())]
                #![trigger call_ensures(A::set_default_input_device, (system, id), report.single_answer())]
                mut_ref_current(system) == old(self).audio_system_spec() && mut_ref_future(system)
                    == final(self).audio_system_spec()
                    && id@ == final(self).effects().requests.last().device_name
                    && match final(self).effects().requests.last().direction {
                    Direction::Output => call_ensures(
                        A::set_default_output_device,
                        (system, id),
                        report.single_answer(),
                    ),
                    Direction::Input => call_ensures(
                        A::set_default_input_device,
                        (system, id),
                        report.single_answer(),
                    ),
                },
            final(self).effects().requests.len() == old(self).effects().requests.len() + 2
                && final(self).effects().subscriptions == old(self).effects().subscriptions
                ==> exists|first: &mut A, first_id: &str, second: &mut A, second_id: &str|
                #![trigger
                    call_ensures(A::set_default_output_device, (first, first_id), report.output.answer()),
                    call_ensures(A::set_default_input_device, (second, second_id), report.input.answer()),
                ]
                mut_ref_current(first) == old(self).audio_system_spec() && mut_ref_current(second)
                    == mut_ref_future(first) && mut_ref_future(second)
                    == final(self).audio_system_spec()
                        && first_id@ == final(self).effects().requests[final(self).effects().requests.len() - 2].device_name
                    && second_id@ == final(self).effects().requests.last().device_name
                    && final(self).effects().requests[final(self).effects().requests.len()
                    - 2].direction == Direction::Output
                    && final(self).effects().requests.last().direction == Direction::Input
                    && call_ensures(A::set_default_output_device, (first, first_id), report.output.answer())
                    && call_ensures(A::set_default_input_device, (second, second_id), report.input.answer()),
            audio_system_kept(
                old(self).audio_system_spec(),
                old(self).effects(),
                final(self).audio_system_spec(),
                final(self).effects(),
            ),
            report.devices@ == current@,
            processed(
                old(self).state_view(),
                old(self).controller_view(),
                final(self).state_view(),
                final(self).controller_view(),
                now_ms,
                report,
            ),
            final(self).effects() == processing_effects(
                old(self).effects(),
                old(self).controller_view(),
                report,
            ),
            final(self).state_view().well_formed(),
            final(self).controller_view().well_formed(),
    {
        let DeviceChanges { added, removed } = self.state.observe(current.as_slice(), now_ms);
        self.announce(&added, &removed);
        let stable = self.state.stable_devices(current.as_slice(), now_ms);
        self.controller.intent_is_well_formed();
        let output = self.switch_slot(stable.as_slice(), Direction::Output);
        let input = self.switch_slot(stable.as_slice(), Direction::Input);
        ListChangeReport { devices: current, added, removed, stable, output, input }
    }

    /// Tells the user of each device in `added` that it has been
    /// connected and of each in `removed` that it has been disconnected.
    /// A notification that cannot be delivered is given up.
    fn announce(&mut self, added: &Vec<AudioDevice>, removed: &Vec<AudioDevice>)
        ensures
            final(self).audio_system_spec() == old(self).audio_system_spec(),
            final(self).state_view() == old(self).state_view(),
            final(self).controller_view() == old(self).controller_view(),
            final(self).effects() == (Effects {
                notifications: told_disconnected(
                    told_connected(
                        old(self).effects().notifications,
                        old(self).controller_view().settings,
                        device_views(added@),
                    ),
                    old(self).controller_view().settings,
                    device_views(removed@),
                ),
                ..old(self).effects()
            }),
    {
        let ghost settings = self.controller_view().settings;
        let ghost before = self.effects();
        let ghost new_views = device_views(added@);
        let ghost gone_views = device_views(removed@);
        let mut index: usize = 0;
        assert(new_views.take(0) =~= Seq::empty());
        while index < added.len()
            invariant
                index <= added@.len(),
                new_views == device_views(added@),
                self.state_view() == old(self).state_view(),
                self.controller_view() == old(self).controller_view(),
                self.audio_system_spec() == old(self).audio_system_spec(),
                settings == self.controller_view().settings,
                self.effects() == (Effects {
                    notifications: told_connected(
                        before.notifications,
                        settings,
                        new_views.take(index as int),
                    ),
                    ..before
                }),
            decreases added@.len() - index,
        {
            proof {
                assert(new_views.take(index + 1).drop_last() == new_views.take(index as int));
                assert(new_views.take(index + 1).last() == added@[index as int]@);
            }
            self.controller.announce_connected(&added[index]);
            index += 1;
        }
        assert(new_views.take(added@.len() as int) == new_views);
        let ghost connected = self.effects();
        let mut index: usize = 0;
        assert(gone_views.take(0) =~= Seq::empty());
        while index < removed.len()
            invariant
                index <= removed@.len(),
                gone_views == device_views(removed@),
                self.state_view() == old(self).state_view(),
                self.controller_view() == old(self).controller_view(),
                self.audio_system_spec() == old(self).audio_system_spec(),
                settings == self.controller_view().settings,
                self.effects() == (Effects {
                    notifications: told_disconnected(
                        connected.notifications,
                        settings,
                        gone_views.take(index as int),
                    ),
                    ..connected
                }),
            decreases removed@.len() - index,
        {
            proof {
                assert(gone_views.take(index + 1).drop_last() == gone_views.take(index as int));
                assert(gone_views.take(index + 1).last() == removed@[index as int]@);
            }
            self.controller.announce_disconnected(&removed[index]);
            index += 1;
        }
        assert(gone_views.take(removed@.len() as int) == gone_views);
    }

    /// Makes the device that the policy plans for the slot `direction`,
    /// given the stable devices, the default of that slot.
    fn switch_slot(
        &mut self,
        stable: &[AudioDevice],
        direction: Direction,
    ) -> (outcome: SwitchOutcome)
        ensures
            final(self).effects().requests.len() == old(self).effects().requests.len() + 1
                && final(self).effects().subscriptions == old(self).effects().subscriptions
                ==> exists|system: &mut A, id: &str|
                #![trigger call_ensures(A::set_default_output_device, (system, id), outcome.answer())]
                #![trigger call_ensures(A::set_default_input_device, (system, id), outcome.answer())]
                mut_ref_current(system) == old(self).audio_system_spec() && mut_ref_future(system)
                    == final(self).audio_system_spec()
                    && id@ == final(self).effects().requests.last().device_name
                    && match final(self).effects().requests.last().direction {
                    Direction::Output => call_ensures(
                        A::set_default_output_device,
                        (system, id),
                        outcome.answer(),
                    ),
                    Direction::Input => call_ensures(
                        A::set_default_input_device,
                        (system, id),
                        outcome.answer(),
                    ),
                },
            audio_system_kept(
                old(self).audio_system_spec(),
                old(self).effects(),
                final(self).audio_system_spec(),
                final(self).effects(),
            ),
            outcome.target() == old(self).controller_view().policy.planned_switch(
                device_views(stable@),
                direction,
            ),
            final(self).controller_view() == after_outcome(
                old(self).controller_view(),
                outcome,
                direction,
            ),
            final(self).controller_view().well_formed(),
            final(self).state_view() == old(self).state_view(),
            final(self).effects() == old(self).effects().after_target(
                old(self).controller_view().settings,
                outcome.target(),
                direction,
                SwitchReason::HigherPriority,
                outcome.failure(),
            ),
    {
        self.controller.intent_is_well_formed();
        match plan_switch(self.controller.priority_manager(), stable, direction) {
            Some(device) => {
                let applied = self.controller.apply_default(
                    &device,
                    direction,
                    SwitchReason::HigherPriority,
                );
                let ghost answer = applied;
                let outcome = match applied {
                    Ok(()) => {
                        assert(answer is Ok && answer->Ok_0 == ());
                        SwitchOutcome::Switched(device)
                    },
                    Err(error) => SwitchOutcome::Failed(device, error),
                };
                assert(outcome.answer() == answer);
                outcome
            },
            None => SwitchOutcome::NotNeeded,
        }
    }

    /// Takes in a report that the default output has changed: reads the
    /// default and tells the resolver its name. Nothing is switched. Where
    /// the default cannot be read, or there is none, nothing changes.
    pub fn handle_default_output_change(&mut self) -> (observed: Option<AudioDevice>)
        ensures
            exists|answer: Result<Option<AudioDevice>, MonitorError>| #[trigger]
                default_of(old(self).audio_system_spec(), Direction::Output, answer) && observed
                    == reported_device(answer),
            final(self).audio_system_spec() == old(self).audio_system_spec(),
            final(self).state_view() == old(self).state_view(),
            final(self).controller_view() == match observed {
                Some(device) => ControllerView {
                    policy: old(self).controller_view().policy.with_current(
                        Direction::Output,
                        device.name@,
                    ),
                    ..old(self).controller_view()
                },
                None => old(self).controller_view(),
            },
            final(self).effects() == old(self).effects(),
    {
        let answer = self.controller.get_default_output_device();
        proof {
            assert(default_of(self.audio_system_spec(), Direction::Output, answer));
        }
        match answer {
            Ok(Some(device)) => {
                self.controller.observe_default(Direction::Output, device.name.clone());
                Some(device)
            },
            _ => None,
        }
    }

    /// Takes in a report that the default input has changed: reads the
    /// default and tells the resolver its name. Nothing is switched. Where
    /// the default cannot be read, or there is none, nothing changes.
    pub fn handle_default_input_change(&mut self) -> (observed: Option<AudioDevice>)
        ensures
            exists|answer: Result<Option<AudioDevice>, MonitorError>| #[trigger]
                default_of(old(self).audio_system_spec(), Direction::Input, answer) && observed
                    == reported_device(answer),
            final(self).audio_system_spec() == old(self).audio_system_spec(),
            final(self).state_view() == old(self).state_view(),
            final(self).controller_view() == match observed {
                Some(device) => ControllerView {
                    policy: old(self).controller_view().policy.with_current(
                        Direction::Input,
                        device.name@,
                    ),
                    ..old(self).controller_view()
                },
                None => old(self).controller_view(),
            },
            final(self).effects() == old(self).effects(),
    {
        let answer = self.controller.get_default_input_device();
        proof {
            assert(default_of(self.audio_system_spec(), Direction::Input, answer));
        }
        match answer {
            Ok(Some(device)) => {
                self.controller.observe_default(Direction::Input, device.name.clone());
                Some(device)
            },
            _ => None,
        }
    }
}

} // verus!
