//! The service loop.
//!
//! One thread of control: each turn lets the host deliver its events,
//! reloads the configuration where that was asked for or the file has
//! changed, runs the periodic safety check when it is due, and waits.

use crate::audio::controller_model::{
    audio_system_kept, failure_of, name_of, named_index, preference_status, preference_target,
    unit_outcome,
    switched_in_turn, ControllerView, Effects,
};
use crate::audio::controller_v2::{evaluate_preferences, find_named, DeviceController};
use crate::audio::device::{device_views, AudioDevice, DeviceView, Direction};
use crate::config::loader::{
    change_since, is_loading, is_saving, known_time, ConfigLoader, FileRequest,
};
use crate::config::types::{default_config, Config, ConfigView, MIN_CHECK_INTERVAL_MS};
use crate::error::{ErrorKind, MonitorError};
use crate::notifications::{NotificationSender, SwitchReason, TestNotificationSender};
use crate::preference_debugging::{PreferenceChanges, PreferenceStatus};
use crate::priority::manager::device_of;
use crate::system::mocks::{MockAudioSystem, MockFileSystem, MockSystemService};
use crate::system::traits::{
    change_time_of, enumeration_of, now_of, observation_fails, observation_of, presence_of,
    process_id_of, running_of, AudioSystemInterface, FileSystemInterface,
    SystemServiceInterface,
};
use crate::text::{lemma_sorted_texts, same_texts, sort, sorted_texts, text_views};
use vstd::prelude::*;

verus! {

/// The ids of a list of devices, in order.
pub open spec fn ids_of(devices: Seq<DeviceView>) -> Seq<Seq<char>> {
    devices.map_values(|device: DeviceView| device.id)
}

/// The ids of a list of devices in ascending order: what the periodic
/// safety check remembers of an enumeration.
pub open spec fn sorted_ids(devices: Seq<DeviceView>) -> Seq<Seq<char>> {
    sorted_texts(ids_of(devices))
}

/// Whether the periodic safety check is due: whether at least
/// `poll_interval_ms` have passed between `last_poll_ms` and `now_ms`.
pub open spec fn poll_is_due(last_poll_ms: u64, now_ms: u64, poll_interval_ms: u64) -> bool {
    now_ms >= last_poll_ms && now_ms - last_poll_ms >= poll_interval_ms
}

/// The time that a turn of the loop waits: the check interval, but no
/// less than the minimum.
pub open spec fn turn_wait(check_interval_ms: u64) -> u64 {
    if check_interval_ms < MIN_CHECK_INTERVAL_MS {
        MIN_CHECK_INTERVAL_MS
    } else {
        check_interval_ms
    }
}

/// Whether the periodic safety check is due.
pub fn is_poll_due(last_poll_ms: u64, now_ms: u64, poll_interval_ms: u64) -> (due: bool)
    ensures
        due == poll_is_due(last_poll_ms, now_ms, poll_interval_ms),
{
    now_ms >= last_poll_ms && now_ms - last_poll_ms >= poll_interval_ms
}

/// The time that a turn of the loop waits, in milliseconds.
pub fn wait_for_turn(check_interval_ms: u64) -> (wait: u64)
    ensures
        wait == turn_wait(check_interval_ms),
        wait >= MIN_CHECK_INTERVAL_MS,
{
    if check_interval_ms < MIN_CHECK_INTERVAL_MS {
        MIN_CHECK_INTERVAL_MS
    } else {
        check_interval_ms
    }
}

/// The ids of `devices` in ascending order.
pub fn collect_sorted_ids(devices: &[AudioDevice]) -> (ids: Vec<String>)
    ensures
        text_views(ids@) == sorted_ids(device_views(devices@)),
{
    let mut ids: Vec<String> = Vec::new();
    let mut index: usize = 0;
    while index < devices.len()
        invariant
            index <= devices@.len(),
            ids@.len() == index,
            forall|k: int| 0 <= k < index ==> (#[trigger] ids@[k])@ == devices@[k].id@,
        decreases devices@.len() - index,
    {
        ids.push(devices[index].id.clone());
        index += 1;
    }
    assert(text_views(ids@) =~= ids_of(device_views(devices@)));
    sort(&mut ids);
    proof {
        lemma_sorted_texts(ids_of(device_views(devices@)), text_views(ids@));
    }
    ids
}

/// What a service asks its host to do.
pub enum HostRequest {
    /// To arrange for the signals.
    Register,
    /// To deliver its pending events: the beginning of a turn.
    Deliver,
    /// To say whether a reload has been asked for.
    AskForReload,
    /// To wait for `milliseconds`, with `check_interval_ms` as the check
    /// interval of the configuration in force.
    Wait { milliseconds: u64, check_interval_ms: u64 },
}

/// The number of turns that were begun with `requests`: the number of
/// deliveries among them.
pub open spec fn turns_in(requests: Seq<HostRequest>) -> nat
    decreases requests.len(),
{
    if requests.len() == 0 {
        0
    } else if requests.last() is Deliver {
        turns_in(requests.drop_last()) + 1
    } else {
        turns_in(requests.drop_last())
    }
}

/// Whether `requests` are the requests of turns of the loop, one turn
/// after the other. A turn that ends after the delivery asks for the
/// delivery only. A turn that does its work asks for the delivery, then
/// whether a reload has been asked for, then once for a wait of
/// `turn_wait` of the check interval in force.
pub open spec fn are_turns(requests: Seq<HostRequest>) -> bool
    decreases requests.len(),
{
    if requests.len() == 0 {
        true
    } else if requests.last() is Deliver {
        are_turns(requests.drop_last())
    } else {
        &&& requests.len() >= 3
        &&& requests.last() matches HostRequest::Wait { milliseconds, check_interval_ms }
            && milliseconds == turn_wait(check_interval_ms)
        &&& requests[requests.len() - 2] is AskForReload
        &&& requests[requests.len() - 3] is Deliver
        &&& are_turns(requests.take(requests.len() - 3))
    }
}

/// What the host is asked in a turn that ends after the delivery of the
/// events, because that failed or the host has been asked to stop.
pub open spec fn short_turn(before: Seq<HostRequest>) -> Seq<HostRequest> {
    before.push(HostRequest::Deliver)
}

/// What the host is asked in a turn that does its work while
/// `check_interval_ms` is the check interval in force: to deliver its
/// events, whether a reload has been asked for, and to wait.
pub open spec fn full_turn(before: Seq<HostRequest>, check_interval_ms: u64) -> Seq<HostRequest> {
    before.push(HostRequest::Deliver).push(HostRequest::AskForReload).push(
        HostRequest::Wait { milliseconds: turn_wait(check_interval_ms), check_interval_ms },
    )
}

/// What a turn makes of the poll interval.
#[derive(Debug, Clone, Copy, PartialEq, Eq, Structural)]
pub enum PollDecision {
    /// The interval has not passed: nothing is done.
    Skip,
    /// The interval has passed while the service is asked to stop: the
    /// time is noted and nothing is checked.
    NoteTime,
    /// The interval has passed: the periodic safety check is run and the
    /// time is noted.
    Check,
}

/// What a turn makes of the poll interval, given the reading `now_ms` of
/// the clock and whether the service goes on.
pub open spec fn poll_decision(
    last_poll_ms: u64,
    now_ms: u64,
    poll_interval_ms: u64,
    running: bool,
) -> PollDecision {
    if !poll_is_due(last_poll_ms, now_ms, poll_interval_ms) {
        PollDecision::Skip
    } else if running {
        PollDecision::Check
    } else {
        PollDecision::NoteTime
    }
}

/// The time of the last poll after a turn that read `now_ms` from the
/// clock.
pub open spec fn poll_time_after(last_poll_ms: u64, now_ms: u64, poll_interval_ms: u64) -> u64 {
    if poll_is_due(last_poll_ms, now_ms, poll_interval_ms) {
        now_ms
    } else {
        last_poll_ms
    }
}

/// Whether a turn goes on to its work after the host has delivered its
/// events: it does where the delivery succeeded and the host has not
/// been asked to stop.
pub open spec fn turn_works(delivered: bool, running: bool) -> bool {
    delivered && running
}

/// What a turn makes of the poll interval.
pub fn decide_poll(
    last_poll_ms: u64,
    now_ms: u64,
    poll_interval_ms: u64,
    running: bool,
) -> (decision: PollDecision)
    ensures
        decision == poll_decision(last_poll_ms, now_ms, poll_interval_ms, running),
{
    if !is_poll_due(last_poll_ms, now_ms, poll_interval_ms) {
        PollDecision::Skip
    } else if running {
        PollDecision::Check
    } else {
        PollDecision::NoteTime
    }
}

/// The mathematical value of an [`AudioDeviceService`].
pub struct ServiceView {
    /// The value of the controller.
    pub controller: ControllerView,
    /// The configuration in force.
    pub config: ConfigView,
    /// When the configuration file was last seen to have changed.
    pub last_config_modified: Option<u64>,
    /// The reading of the clock at the last periodic safety check.
    pub last_poll_time: u64,
    /// The ids of the enumeration of the last periodic safety check that
    /// found the devices changed, in ascending order.
    pub known_ids: Seq<Seq<char>>,
}

impl ServiceView {
    /// Whether the rules of the controller's policy are those of the
    /// configuration in force.
    pub open spec fn rules_in_force(self) -> bool {
        &&& self.controller.policy.output_rules == self.config.output_devices
        &&& self.controller.policy.input_rules == self.config.input_devices
    }

    /// The value with `last_poll_ms` as the time of the last poll.
    pub open spec fn polled_at(self, last_poll_ms: u64) -> ServiceView {
        ServiceView { last_poll_time: last_poll_ms, ..self }
    }

    /// Whether the periodic safety check finds the devices changed.
    pub open spec fn devices_changed(self, available: Seq<DeviceView>) -> bool {
        sorted_ids(available) != self.known_ids
    }

    /// The value after a periodic safety check that found `available`,
    /// with `current_output` and `current_input` as the system's defaults,
    /// and all of whose switches succeeded. Where the ids are those of
    /// the check before, nothing changes. Else the ids are remembered and
    /// the preferred device of each slot whose default has another name is
    /// made its default.
    pub open spec fn after_periodic_check(
        self,
        available: Seq<DeviceView>,
        current_output: Option<DeviceView>,
        current_input: Option<DeviceView>,
    ) -> ServiceView {
        if !self.devices_changed(available) {
            self
        } else {
            let output = preference_target(
                self.controller.policy,
                available,
                current_output,
                Direction::Output,
            );
            let input = preference_target(
                self.controller.policy,
                available,
                current_input,
                Direction::Input,
            );
            let after_output = match output {
                Some(device) => self.controller.after_switch(device, Direction::Output),
                None => self.controller,
            };
            ServiceView {
                controller: match input {
                    Some(device) => after_output.after_switch(device, Direction::Input),
                    None => after_output,
                },
                known_ids: sorted_ids(available),
                ..self
            }
        }
    }
}

/// A periodic safety check that finds the ids of the check before leaves
/// everything as it is: a device that the user chose by hand stays the
/// default. And a check that follows a check of the same devices always
/// finds the ids of the check before.
pub proof fn lemma_unchanged_devices_preserve_choice(
    service: ServiceView,
    available: Seq<DeviceView>,
    current_output: Option<DeviceView>,
    current_input: Option<DeviceView>,
    later_output: Option<DeviceView>,
    later_input: Option<DeviceView>,
)
    ensures
        !service.devices_changed(available) ==> service.after_periodic_check(
            available,
            current_output,
            current_input,
        ) == service,
        !service.after_periodic_check(available, current_output, current_input).devices_changed(
            available,
        ),
        service.after_periodic_check(
            available,
            current_output,
            current_input,
        ).after_periodic_check(available, later_output, later_input)
            == service.after_periodic_check(available, current_output, current_input),
{
}

/// Hosts the engine: owns the controller, the configuration and the
/// capabilities of the host.
pub struct AudioDeviceService<
    A: AudioSystemInterface,
    F: FileSystemInterface,
    S: SystemServiceInterface,
    T: NotificationSender = TestNotificationSender,
> {
    device_controller: DeviceController<A, T>,
    config_loader: ConfigLoader<F>,
    system_service: S,
    config: Config,
    last_config_modified: Option<u64>,
    last_poll_time: u64,
    last_known_device_ids: Vec<String>,
    /// What the service has asked its host to do.
    host_asked: Ghost<Seq<HostRequest>>,
}

impl<
    A: AudioSystemInterface,
    F: FileSystemInterface,
    S: SystemServiceInterface,
    T: NotificationSender,
> View for AudioDeviceService<A, F, S, T> {
    type V = ServiceView;

    closed spec fn view(&self) -> ServiceView {
        ServiceView {
            controller: self.device_controller@,
            config: self.config@,
            last_config_modified: self.last_config_modified,
            last_poll_time: self.last_poll_time,
            known_ids: text_views(self.last_known_device_ids@),
        }
    }
}

impl<
    A: AudioSystemInterface,
    F: FileSystemInterface,
    S: SystemServiceInterface,
> AudioDeviceService<A, F, S, TestNotificationSender> {
    /// A service that loads its configuration from `config_path` and
    /// keeps its notifications in memory. That the configuration cannot
    /// be loaded is an error.
    pub fn new(audio_system: A, file_system: F, system_service: S, config_path: String) -> (service:
        Result<Self, MonitorError>)
        ensures
            service matches Ok(service) ==> service@.controller == DeviceController::<
                A,
                TestNotificationSender,
            >::initial_view(&service.config_spec()) && service@.known_ids.len() == 0
                && service@.last_config_modified is None && service.config_spec().valid()
                && service.effects() == Effects::none(),
            exists|there: bool, added: Seq<FileRequest>, loaded: Result<Config, MonitorError>|
                #[trigger] is_loading(file_system, config_path@, there, added, loaded)
                    && presence_of(
                    file_system,
                    config_path@,
                    there,
                ) && match service {
                    Ok(service) => loaded == Ok::<Config, MonitorError>(service.config_spec())
                        && service.config_loader_spec().requests() == added
                        && service.config_loader_spec().path() == config_path@
                        && service.audio_system_spec() == audio_system
                        && service.system_service_spec() == system_service
                        && service.host_requests() == Seq::<HostRequest>::empty()
                        && service@.rules_in_force() && now_of(
                        system_service,
                        service@.last_poll_time,
                    ),
                    Err(_) => loaded is Err,
                },
    {
        Self::with_sender(
            audio_system,
            file_system,
            system_service,
            config_path,
            TestNotificationSender::new(),
        )
    }
}

impl<
    A: AudioSystemInterface,
    F: FileSystemInterface,
    S: SystemServiceInterface,
    T: NotificationSender,
> AudioDeviceService<A, F, S, T> {
    /// What holds after the controller has been handed the connection of
    /// the first device in `devices` that is named `device_name`, where
    /// there is one; where there is none, nothing is done. `mid_system`
    /// is what the switches have made of the audio system.
    pub open spec fn connection_passed_on(
        system: A,
        before: ControllerView,
        before_effects: Effects,
        mid_system: A,
        mid: ControllerView,
        mid_effects: Effects,
        devices: Seq<AudioDevice>,
        device_name: Seq<char>,
        passed: Result<(), MonitorError>,
    ) -> bool {
        &&& audio_system_kept(system, before_effects, mid_system, mid_effects)
        &&& if some_has_name(devices, device_name) {
            exists|at: int| #[trigger]
                first_with_name(devices, device_name, at) && DeviceController::<
                    A,
                    T,
                >::connection_handled(
                    system,
                    before,
                    before_effects,
                    mid,
                    mid_effects,
                    devices[at]@,
                    passed,
                )
        } else {
            passed is Ok && mid == before && mid_effects == before_effects
        }
    }

    /// What holds after the controller has been handed the disconnection
    /// of the device `believed`, where there is one and it is named
    /// `device_name`; else nothing is done. `after_system` is what the
    /// switches have made of the audio system.
    pub open spec fn disconnection_passed_on(
        system: A,
        before: ControllerView,
        before_effects: Effects,
        after_system: A,
        after: ControllerView,
        after_effects: Effects,
        believed: Option<DeviceView>,
        device_name: Seq<char>,
        passed: Result<(), MonitorError>,
    ) -> bool {
        &&& audio_system_kept(system, before_effects, after_system, after_effects)
        &&& match believed {
            Some(device) if device.name == device_name => DeviceController::<
                A,
                T,
            >::disconnection_handled(
                system,
                before,
                before_effects,
                after,
                after_effects,
                device,
                passed,
            ),
            _ => passed is Ok && after == before && after_effects == before_effects
                && after_system == system,
        }
    }

    /// What holds after a reload with the loader `before`: the load is
    /// what the file system's answers make it, and its configuration is
    /// `in_force` where it succeeded.
    pub open spec fn is_reloaded(
        before: ConfigLoader<F>,
        after: ConfigLoader<F>,
        in_force: Config,
        reloaded: Result<(), MonitorError>,
    ) -> bool {
        exists|there: bool, added: Seq<FileRequest>, loaded: Result<Config, MonitorError>|
            #[trigger] is_loading(before.file_system_spec(), before.path(), there, added, loaded)
                && presence_of(
                before.file_system_spec(),
                before.path(),
                there,
            ) && after.requests() == before.requests() + added && match reloaded {
                Ok(()) => loaded == Ok::<Config, MonitorError>(in_force),
                Err(_) => loaded is Err,
            }
    }

    /// What holds after the periodic safety check on the enumeration
    /// `available` with the defaults `output` and `input`, by whether it
    /// `succeeded`: what the service and its controller are afterwards
    /// and what has been asked of the audio system and the sender.
    pub open spec fn is_checked(
        before: ServiceView,
        before_effects: Effects,
        after: ServiceView,
        after_effects: Effects,
        available: Seq<DeviceView>,
        output: Option<DeviceView>,
        input: Option<DeviceView>,
        succeeded: bool,
    ) -> bool {
        &&& (succeeded ==> after == before.after_periodic_check(
                available,
                output,
                input,
            ))
        &&& (!before.devices_changed(available) ==> succeeded
                && after_effects == before_effects)
        &&& (succeeded && before.devices_changed(available)
                ==> after_effects == before_effects.after_target(
                before.controller.settings,
                preference_target(
                    before.controller.policy,
                    available,
                    output,
                    Direction::Output,
                ),
                Direction::Output,
                SwitchReason::HigherPriority,
                None,
            ).after_target(
                before.controller.settings,
                preference_target(
                    before.controller.policy,
                    available,
                    input,
                    Direction::Input,
                ),
                Direction::Input,
                SwitchReason::HigherPriority,
                None,
            ))
        &&& (after.known_ids == before.after_periodic_check(
                available,
                output,
                input,
            ).known_ids)
        &&& (after.config == before.config)
        &&& (after.last_poll_time == before.last_poll_time)
        &&& (after.last_config_modified == before.last_config_modified)
        &&& (after.controller.policy == before.controller.policy)
    }

    /// What holds after the first device of `devices` that is named
    /// `device_name` and fits the slot `direction` was to become the
    /// default of that slot, by what the attempt came to.
    pub open spec fn is_switched_to_named(
        before: ServiceView,
        before_effects: Effects,
        after: ServiceView,
        after_effects: Effects,
        devices: Seq<DeviceView>,
        device_name: Seq<char>,
        direction: Direction,
        set: Result<(), MonitorError>,
    ) -> bool {
        &&& (after.config == before.config)
        &&& (after.known_ids == before.known_ids)
        &&& (after.last_poll_time == before.last_poll_time)
        &&& (after.last_config_modified == before.last_config_modified)
        &&& (set is Ok ==> exists|at: int|
                named_index(devices, device_name, direction, at)
                    && after.controller == before.controller.after_switch(
                    devices[at],
                    direction,
                ))
        &&& (set is Err ==> after.controller == before.controller)
        &&& ((forall|k: int|
                0 <= k < devices.len() ==> !((#[trigger] devices[k]).name
                    == device_name && devices[k].device_type.supports_spec(
                    direction,
                ))) ==> (set matches Err(error) && error.kind == ErrorKind::DeviceNotFound
                && after_effects == before_effects))
        &&& ((exists|at: int| named_index(devices, device_name, direction, at))
                ==> exists|at: int|
                named_index(devices, device_name, direction, at)
                    && after_effects == before_effects.after_attempt(
                    before.controller.settings,
                    devices[at],
                    direction,
                    SwitchReason::Manual,
                    failure_of(set),
                ))
    }

    /// The configuration in force.
    pub closed spec fn config_spec(&self) -> Config {
        self.config
    }

    /// The host of the service.
    pub closed spec fn system_service_spec(&self) -> S {
        self.system_service
    }

    /// The loader of the service's configuration.
    pub closed spec fn config_loader_spec(&self) -> ConfigLoader<F> {
        self.config_loader
    }

    /// The audio system of the service's controller.
    pub closed spec fn audio_system_spec(&self) -> A {
        self.device_controller.audio_system_spec()
    }

    /// What the service has asked its host to do so far, in the order of
    /// the requests. Questions that leave the host as it is are not
    /// among them.
    pub closed spec fn host_requests(&self) -> Seq<HostRequest> {
        self.host_asked@
    }

    /// What the service's controller has asked of its audio system and of
    /// its sender so far.
    pub closed spec fn effects(&self) -> Effects {
        self.device_controller.effects()
    }

    /// A service that loads its configuration from `config_path` and
    /// hands its notifications to `sender`. That the configuration cannot
    /// be loaded is an error.
    pub fn with_sender(
        audio_system: A,
        file_system: F,
        system_service: S,
        config_path: String,
        sender: T,
    ) -> (service: Result<Self, MonitorError>)
        ensures
            service matches Ok(service) ==> service@.controller == DeviceController::<
                A,
                T,
            >::initial_view(&service.config_spec()) && service@.known_ids.len() == 0
                && service@.last_config_modified is None && service.config_spec().valid()
                && service.effects() == Effects::none(),
            exists|there: bool, added: Seq<FileRequest>, loaded: Result<Config, MonitorError>|
                #[trigger] is_loading(file_system, config_path@, there, added, loaded)
                    && presence_of(
                    file_system,
                    config_path@,
                    there,
                ) && match service {
                    Ok(service) => loaded == Ok::<Config, MonitorError>(service.config_spec())
                        && service.config_loader_spec().requests() == added
                        && service.config_loader_spec().path() == config_path@
                        && service.audio_system_spec() == audio_system
                        && service.system_service_spec() == system_service
                        && service.host_requests() == Seq::<HostRequest>::empty()
                        && service@.rules_in_force() && now_of(
                        system_service,
                        service@.last_poll_time,
                    ),
                    Err(_) => loaded is Err,
                },
    {
        let ghost path = config_path@;
        let mut config_loader = ConfigLoader::new(file_system, config_path);
        let loaded = config_loader.load_config();
        proof {
            let (there, added) = choose|there: bool, added: Seq<FileRequest>| #[trigger]
                is_loading(file_system, path, there, added, loaded) && presence_of(
                    file_system,
                    path,
                    there,
                )
                    && config_loader.requests() == Seq::<FileRequest>::empty() + added;
            assert(config_loader.requests() =~= added);
        }
        match loaded {
            Ok(config) => Ok(
                Self::assemble(audio_system, config_loader, system_service, config, sender),
            ),
            Err(error) => Err(error),
        }
    }

    /// A service from its parts.
    fn assemble(
        audio_system: A,
        config_loader: ConfigLoader<F>,
        system_service: S,
        config: Config,
        sender: T,
    ) -> (service: Self)
        ensures
            service@.controller == DeviceController::<A, T>::initial_view(&config),
            service@.known_ids.len() == 0,
            service@.last_config_modified is None,
            service.config_spec() == config,
            service.system_service_spec() == system_service,
            service.config_loader_spec() == config_loader,
            service.audio_system_spec() == audio_system,
            service.effects() == Effects::none(),
            service.host_requests() == Seq::<HostRequest>::empty(),
            service@.rules_in_force(),
            now_of(system_service, service@.last_poll_time),
    {
        let device_controller = DeviceController::with_sender(audio_system, &config, sender);
        let last_poll_time = system_service.now_ms();
        let service = Self {
            device_controller,
            config_loader,
            system_service,
            config,
            last_config_modified: None,
            last_poll_time,
            last_known_device_ids: Vec::new(),
            host_asked: Ghost(Seq::empty()),
        };
        assert(text_views(service.last_known_device_ids@) =~= Seq::empty());
        service
    }

    /// Prepares the service, then runs the loop until the service is
    /// asked to stop. Where the host cannot arrange for the signals, the
    /// service does not start: nothing else is asked of anyone and no turn
    /// is run. It ends well only once the host has said that the service
    /// is to stop, short of a number of turns that no run will reach.
    pub fn start(&mut self) -> (ended: Result<(), MonitorError>)
        ensures
            final(self)@.controller.well_formed(),
            old(self)@.rules_in_force() ==> final(self)@.rules_in_force(),
            exists|register: &mut S, registered: Result<(), MonitorError>|
                mut_ref_current(register) == old(self).system_service_spec()
                    && #[trigger] call_ensures(
                    S::register_signal_handlers,
                    (register,),
                    registered,
                ) && (registered is Err ==> ended == registered && final(self)@ == old(self)@
                    && final(self).effects() == old(self).effects() && final(self).host_requests()
                    == old(self).host_requests().push(HostRequest::Register) && mut_ref_future(
                    register,
                ) == final(self).system_service_spec()),
            ended is Err ==> (exists|register: &mut S|
                mut_ref_current(register) == old(self).system_service_spec()
                    && #[trigger] call_ensures(S::register_signal_handlers, (register,), ended))
                || (exists|listen: &mut A|
                mut_ref_current(listen) == old(self).audio_system_spec() && #[trigger] call_ensures(
                    A::add_device_change_listener,
                    (listen,),
                    ended,
                ) && final(self)@ == old(self)@ && final(self).host_requests() == old(self).host_requests().push(HostRequest::Register) && final(self).effects() == old(self).effects().after_subscription()) || (exists|deliver: &mut S| #[trigger]
                call_ensures(S::run_event_loop, (deliver,), ended) && mut_ref_future(deliver)
                    == final(self).system_service_spec()) || (exists|
                wait: &mut S,
                milliseconds: u64,
            | #[trigger]
                call_ensures(S::sleep_ms, (wait, milliseconds), ended) && mut_ref_future(wait)
                    == final(self).system_service_spec() && milliseconds == turn_wait(
                    final(self)@.config.general.check_interval_ms,
                )),
            exists|added: Seq<HostRequest>| #[trigger]
                are_turns(added) && final(self).host_requests() == old(self).host_requests().push(
                    HostRequest::Register,
                ) + added && (ended is Ok ==> turns_in(added) == u64::MAX || running_of(
                    final(self).system_service_spec(),
                    false,
                )),
    {
        self.device_controller.intent_is_well_formed();
        let prepared = self.prepare();
        if prepared.is_err() {
            proof {
                let none = Seq::<HostRequest>::empty();
                assert(are_turns(none));
                assert(self.host_requests() =~= old(self).host_requests().push(
                    HostRequest::Register,
                ) + none);
            }
            return prepared;
        }
        self.run_main_loop(u64::MAX)
    }

    /// Registers the signal handlers, starts the monitoring of device
    /// changes, and notes when the configuration file was last changed.
    /// The first step that fails ends the work.
    pub fn prepare(&mut self) -> (prepared: Result<(), MonitorError>)
        ensures
            final(self)@.controller == old(self)@.controller,
            final(self)@.config == old(self)@.config,
            final(self)@.known_ids == old(self)@.known_ids,
            final(self)@.last_poll_time == old(self)@.last_poll_time,
            final(self).effects() == old(self).effects()
                || final(self).effects() == old(self).effects().after_subscription(),
            prepared is Ok ==> final(self).effects() == old(self).effects().after_subscription(),
            prepared is Err
                ==> final(self)@.last_config_modified == old(self)@.last_config_modified,
            prepared is Ok ==> exists|changed: Result<u64, MonitorError>| #[trigger]
                change_time_of(
                    old(self).config_loader_spec().file_system_spec(),
                    old(self).config_loader_spec().path(),
                    changed,
                ) && final(self)@.last_config_modified == match known_time(changed) {
                    Some(modified) => Some(modified),
                    None => old(self)@.last_config_modified,
                },
            final(self).config_loader_spec() == old(self).config_loader_spec(),
            final(self).host_requests() == old(self).host_requests().push(HostRequest::Register),
            exists|register: &mut S, registered: Result<(), MonitorError>|
                mut_ref_current(register) == old(self).system_service_spec() && mut_ref_future(
                    register,
                ) == final(self).system_service_spec() && #[trigger] call_ensures(
                    S::register_signal_handlers,
                    (register,),
                    registered,
                ) && (registered is Err ==> prepared == registered && final(self).effects()
                    == old(self).effects() && final(self).audio_system_spec()
                    == old(self).audio_system_spec()) && (registered is Ok ==> final(self).effects() == old(self).effects().after_subscription() && exists|listen: &mut A|
                    mut_ref_current(listen) == old(self).audio_system_spec() && mut_ref_future(
                        listen,
                    ) == final(self).audio_system_spec() && #[trigger] call_ensures(
                        A::add_device_change_listener,
                        (listen,),
                        prepared,
                    )),
    {
        proof {
            self.host_asked@ = self.host_asked@.push(HostRequest::Register);
        }
        let registered = self.system_service.register_signal_handlers();
        if let Err(error) = registered {
            return Err(error);
        }
        let started = self.device_controller.initialize();
        if let Err(error) = started {
            return Err(error);
        }
        assert(started is Ok && started->Ok_0 == ());
        let modified = self.config_loader.modified_time();
        proof {
            let changed = choose|changed: Result<u64, MonitorError>| #[trigger]
                change_time_of(
                    self.config_loader.file_system_spec(),
                    self.config_loader.path(),
                    changed,
                ) && modified == known_time(changed);
            assert(change_time_of(
                old(self).config_loader_spec().file_system_spec(),
                old(self).config_loader_spec().path(),
                changed,
            ));
        }
        if let Some(modified) = modified {
            self.last_config_modified = Some(modified);
        }
        Ok(())
    }

    /// Runs turns of the loop until the service is asked to stop, a turn
    /// fails, or `max_turns` turns have been run. Before each turn the
    /// host is asked whether the service goes on.
    pub fn run_main_loop(&mut self, max_turns: u64) -> (ended: Result<(), MonitorError>)
        ensures
            final(self)@.controller.well_formed(),
            old(self)@.rules_in_force() ==> final(self)@.rules_in_force(),
            max_turns == 0 ==> ended is Ok && final(self)@ == old(self)@
                && final(self).effects() == old(self).effects(),
            exists|added: Seq<HostRequest>| #[trigger]
                are_turns(added) && final(self).host_requests() == old(self).host_requests()
                    + added && turns_in(added) <= max_turns && (ended is Ok ==> turns_in(added)
                    == max_turns || running_of(final(self).system_service_spec(), false)) && (
                turns_in(added) == 0 ==> ended is Ok && final(self)@ == old(self)@
                    && final(self).effects() == old(self).effects()
                    && final(self).system_service_spec() == old(self).system_service_spec()
                    && (max_turns == 0 || running_of(
                    old(self).system_service_spec(),
                    false,
                ))),
            ended is Err ==> (exists|deliver: &mut S| #[trigger]
                call_ensures(S::run_event_loop, (deliver,), ended) && mut_ref_future(deliver)
                    == final(self).system_service_spec()) || (exists|
                wait: &mut S,
                milliseconds: u64,
            | #[trigger]
                call_ensures(S::sleep_ms, (wait, milliseconds), ended) && mut_ref_future(wait)
                    == final(self).system_service_spec() && milliseconds == turn_wait(
                    final(self)@.config.general.check_interval_ms,
                )),
    {
        self.device_controller.intent_is_well_formed();
        let mut turns: u64 = 0;
        let ghost mut added: Seq<HostRequest> = Seq::empty();
        proof {
            assert(self.host_requests() =~= old(self).host_requests() + added);
        }
        while turns < max_turns
            invariant
                turns <= max_turns,
                self@.controller.well_formed(),
                old(self)@.rules_in_force() ==> self@.rules_in_force(),
                turns == 0 ==> self@ == old(self)@ && self.effects() == old(self).effects()
                    && self.system_service_spec() == old(self).system_service_spec(),
                are_turns(added),
                turns_in(added) == turns,
                self.host_requests() == old(self).host_requests() + added,
            decreases max_turns - turns,
        {
            let running = self.system_service.should_continue_running();
            if !running {
                proof {
                    assert(running_of(self.system_service_spec(), false));
                }
                return Ok(());
            }
            let ghost before = self.host_requests();
            let turned = self.run_turn();
            proof {
                let short = added.push(HostRequest::Deliver);
                assert(short.drop_last() == added);
                assert(short.last() is Deliver);
                assert(turns_in(short) == turns + 1);
                assert(are_turns(short));
                if self.host_requests() == short_turn(before) {
                    assert(self.host_requests() =~= old(self).host_requests() + short);
                    added = short;
                } else {
                    let check_interval_ms = self@.config.general.check_interval_ms;
                    assert(self.host_requests() == full_turn(before, check_interval_ms));
                    let asked = short.push(HostRequest::AskForReload);
                    assert(asked.drop_last() == short);
                    assert(turns_in(asked) == turns + 1);
                    let waited = asked.push(
                        HostRequest::Wait {
                            milliseconds: turn_wait(check_interval_ms),
                            check_interval_ms,
                        },
                    );
                    assert(waited.drop_last() == asked);
                    assert(turns_in(waited) == turns + 1);
                    assert(waited.take(waited.len() - 3) == added);
                    assert(are_turns(waited));
                    assert(self.host_requests() =~= old(self).host_requests() + waited);
                    added = waited;
                }
            }
            if let Err(error) = turned {
                return Err(error);
            }
            turns += 1;
        }
        Ok(())
    }

    /// One turn of the loop:
    ///
    /// 1. the host delivers its pending events; where it has been asked to
    ///    stop meanwhile, the turn ends here, before anything is written;
    /// 2. the controller takes over the defaults that the system reports;
    /// 3. the configuration is reloaded where a reload was asked for or
    ///    the file has changed; a reload that fails keeps the
    ///    configuration in force;
    /// 4. the periodic safety check is run where the poll interval has
    ///    passed since the last one and the service has not been asked to
    ///    stop;
    /// 5. the loop waits for the check interval, but no less than the
    ///    minimum.
    ///
    /// Only the host's failure to deliver events or to wait ends the
    /// turn with an error.
    pub fn run_turn(&mut self) -> (turned: Result<(), MonitorError>)
        ensures
            final(self)@.controller.well_formed(),
            old(self)@.rules_in_force() ==> final(self)@.rules_in_force(),
            final(self).config_loader_spec().path() == old(self).config_loader_spec().path(),
            final(self).host_requests() == short_turn(old(self).host_requests())
                || final(self).host_requests() == full_turn(
                old(self).host_requests(),
                final(self)@.config.general.check_interval_ms,
            ),
            final(self).host_requests() == short_turn(old(self).host_requests()) ==> final(self)@
                == old(self)@ && final(self).effects() == old(self).effects()
                    && final(self).config_loader_spec() == old(self).config_loader_spec()
                    && final(self).audio_system_spec() == old(self).audio_system_spec(),
            exists|deliver: &mut S, delivered: Result<(), MonitorError>|
                mut_ref_current(deliver) == old(self).system_service_spec()
                    && #[trigger] call_ensures(
                    S::run_event_loop,
                    (deliver,),
                    delivered,
                ) && (delivered is Err ==> turned == delivered && final(self).host_requests()
                    == short_turn(old(self).host_requests()) && mut_ref_future(deliver) == final(self).system_service_spec()) && (delivered is Ok ==> exists|running: bool| #[trigger]
                    running_of(mut_ref_future(deliver), running) && turn_works(true, running) == (
                    final(self).host_requests() != short_turn(old(self).host_requests()))
                        && (!running ==> turned is Ok && mut_ref_future(deliver) == final(self).system_service_spec())),
            final(self).host_requests() != short_turn(old(self).host_requests()) ==> exists|
                ask: &mut S,
                requested: bool,
                now: u64,
                running: bool,
                wait: &mut S,
            |
                #![trigger
                    call_ensures(S::is_config_reload_requested, (ask,), requested),
                    now_of(mut_ref_current(wait), now),
                    running_of(mut_ref_current(wait), running),
                ]
                running_of(mut_ref_current(wait), running) && running_of(
                    mut_ref_current(ask),
                    true,
                ) && call_ensures(
                    S::is_config_reload_requested,
                    (ask,),
                    requested,
                ) && mut_ref_current(wait) == mut_ref_future(ask) && now_of(
                    mut_ref_current(wait),
                    now,
                ) && mut_ref_future(wait) == final(self).system_service_spec() && call_ensures(
                    S::sleep_ms,
                    (wait, turn_wait(final(self)@.config.general.check_interval_ms)),
                    turned,
                ) && final(self)@.last_poll_time == poll_time_after(
                    old(self)@.last_poll_time,
                    now,
                    final(self)@.config.general.poll_interval_ms,
                ) && (requested ==> exists|
                    mid_loader: ConfigLoader<F>,
                    in_force: Config,
                    reloaded: Result<(), MonitorError>,
                | #[trigger]
                    Self::is_reloaded(
                        old(self).config_loader_spec(),
                        mid_loader,
                        in_force,
                        reloaded,
                    )) && exists|
                    mid_system: A,
                    mid: ControllerView,
                    mid_effects: Effects,
                    updated: Result<(), MonitorError>,
                |
                    #![trigger
                        DeviceController::<A, T>::defaults_updated(
                            old(self).audio_system_spec(),
                            old(self)@.controller,
                            old(self).effects(),
                            mid,
                            mid_effects,
                            updated,
                        ),
                        audio_system_kept(
                            old(self).audio_system_spec(),
                            old(self).effects(),
                            mid_system,
                            mid_effects,
                        ),
                    ]
                    DeviceController::<A, T>::defaults_updated(
                        old(self).audio_system_spec(),
                        old(self)@.controller,
                        old(self).effects(),
                        mid,
                        mid_effects,
                        updated,
                    ) && audio_system_kept(
                        old(self).audio_system_spec(),
                        old(self).effects(),
                        mid_system,
                        mid_effects,
                    ) && if poll_decision(
                        old(self)@.last_poll_time,
                        now,
                        final(self)@.config.general.poll_interval_ms,
                        running,
                    ) == PollDecision::Check {
                        exists|before: ServiceView, checked: Result<(), MonitorError>| #[trigger]
                            Self::is_periodically_checked(
                                mid_system,
                                before,
                                mid_effects,
                                final(self)@.polled_at(old(self)@.last_poll_time),
                                final(self).effects(),
                                checked,
                            ) && before.known_ids == old(self)@.known_ids && before.config
                                == final(self)@.config
                    } else {
                        final(self).effects() == mid_effects && final(self).audio_system_spec()
                            == mid_system && final(self)@.known_ids == old(self)@.known_ids
                    },
    {
        self.device_controller.intent_is_well_formed();
        proof {
            self.host_asked@ = self.host_asked@.push(HostRequest::Deliver);
        }
        let delivered = self.system_service.run_event_loop();
        if let Err(error) = delivered {
            return Err(error);
        }
        let running = self.system_service.should_continue_running();
        proof {
            assert(running_of(self.system_service_spec(), running));
        }
        if !running {
            return Ok(());
        }
        let updated = self.device_controller.update_current_devices();
        let ghost mid_system = self.audio_system_spec();
        let ghost mid = self@.controller;
        let ghost mid_effects = self.effects();
        proof {
            assert(DeviceController::<A, T>::defaults_updated(
                old(self).audio_system_spec(),
                old(self)@.controller,
                old(self).effects(),
                mid,
                mid_effects,
                updated,
            ));
            assert(audio_system_kept(
                old(self).audio_system_spec(),
                old(self).effects(),
                mid_system,
                mid_effects,
            ));
            self.host_asked@ = self.host_asked@.push(HostRequest::AskForReload);
        }
        let requested = self.system_service.is_config_reload_requested();
        let ghost mut reloaded_loader = self.config_loader_spec();
        let ghost mut reloaded_config = self.config_spec();
        let ghost mut reloaded_outcome = Ok::<(), MonitorError>(());
        if requested {
            let reloaded = self.reload_config();
            proof {
                reloaded_loader = self.config_loader_spec();
                reloaded_config = self.config_spec();
                reloaded_outcome = reloaded;
                assert(Self::is_reloaded(
                    old(self).config_loader_spec(),
                    reloaded_loader,
                    reloaded_config,
                    reloaded_outcome,
                ));
            }
        }
        let _ = self.check_config_reload();
        let now = self.system_service.now_ms();
        let still_running = self.system_service.should_continue_running();
        proof {
            assert(now_of(self.system_service_spec(), now));
            assert(running_of(self.system_service_spec(), still_running));
        }
        let ghost before = self@;
        let ghost mut checked_outcome = Ok::<(), MonitorError>(());
        let decision = decide_poll(
            self.last_poll_time,
            now,
            self.config.general.poll_interval_ms,
            still_running,
        );
        match decision {
            PollDecision::Skip => {},
            PollDecision::NoteTime => {
                self.last_poll_time = now;
            },
            PollDecision::Check => {
                let checked = self.periodic_check();
                let ghost after = self@;
                self.last_poll_time = now;
                proof {
                    checked_outcome = checked;
                    assert(after == self@.polled_at(old(self)@.last_poll_time));
                    assert(Self::is_periodically_checked(
                        mid_system,
                        before,
                        mid_effects,
                        self@.polled_at(old(self)@.last_poll_time),
                        self.effects(),
                        checked_outcome,
                    ));
                }
            },
        }
        let wait = wait_for_turn(self.config.general.check_interval_ms);
        proof {
            self.host_asked@ = self.host_asked@.push(
                HostRequest::Wait {
                    milliseconds: wait,
                    check_interval_ms: self.config.general.check_interval_ms,
                },
            );
            assert(short_turn(old(self).host_requests()).len() != self.host_asked@.len());
            assert(self@.last_poll_time == poll_time_after(
                old(self)@.last_poll_time,
                now,
                self@.config.general.poll_interval_ms,
            ));
            assert(!poll_is_due(
                old(self)@.last_poll_time,
                now,
                self@.config.general.poll_interval_ms,
            ) ==> self@.known_ids == old(self)@.known_ids);
            assert(now_of(self.system_service_spec(), now));
            assert(wait == turn_wait(self@.config.general.check_interval_ms));
            assert(requested ==> Self::is_reloaded(
                old(self).config_loader_spec(),
                reloaded_loader,
                reloaded_config,
                reloaded_outcome,
            ));
            assert(decision == PollDecision::Check ==> Self::is_periodically_checked(
                mid_system,
                before,
                mid_effects,
                self@.polled_at(old(self)@.last_poll_time),
                self.effects(),
                checked_outcome,
            ) && before.known_ids == old(self)@.known_ids && before.config == self@.config);
            assert(decision != PollDecision::Check ==> self.effects() == mid_effects
                && self.audio_system_spec() == mid_system
                    && self@.known_ids == old(self)@.known_ids);
        }
        let ghost view_before = self@;
        let ghost effects_before = self.effects();
        let ghost audio_before = self.audio_system_spec();
        let waited = self.system_service.sleep_ms(wait);
        self.device_controller.intent_is_well_formed();
        proof {
            assert(self@ == view_before);
            assert(self.effects() == effects_before);
            assert(self.audio_system_spec() == audio_before);
            assert(exists|
                mid_system: A,
                mid: ControllerView,
                mid_effects: Effects,
                updated: Result<(), MonitorError>,
            |
                #![trigger
                    DeviceController::<A, T>::defaults_updated(
                        old(self).audio_system_spec(),
                        old(self)@.controller,
                        old(self).effects(),
                        mid,
                        mid_effects,
                        updated,
                    ),
                    audio_system_kept(
                        old(self).audio_system_spec(),
                        old(self).effects(),
                        mid_system,
                        mid_effects,
                    ),
                ]
                DeviceController::<A, T>::defaults_updated(
                    old(self).audio_system_spec(),
                    old(self)@.controller,
                    old(self).effects(),
                    mid,
                    mid_effects,
                    updated,
                ) && audio_system_kept(
                    old(self).audio_system_spec(),
                    old(self).effects(),
                    mid_system,
                    mid_effects,
                ) && if poll_decision(
                    old(self)@.last_poll_time,
                    now,
                    self@.config.general.poll_interval_ms,
                    still_running,
                ) == PollDecision::Check {
                    exists|before: ServiceView, checked: Result<(), MonitorError>| #[trigger]
                        Self::is_periodically_checked(
                            mid_system,
                            before,
                            mid_effects,
                            self@.polled_at(old(self)@.last_poll_time),
                            self.effects(),
                            checked,
                        ) && before.known_ids == old(self)@.known_ids && before.config
                            == self@.config
                } else {
                    self.effects() == mid_effects && self.audio_system_spec() == mid_system
                        && self@.known_ids == old(self)@.known_ids
                });
        }
        waited
    }

    /// The periodic safety check: enumerates, reads the defaults and
    /// checks against them. Where the system cannot be asked, the check
    /// is given up and nothing changes.
    pub fn periodic_check(&mut self) -> (checked: Result<(), MonitorError>)
        ensures
            final(self).effects().requests.len() == old(self).effects().requests.len() + 1
                && final(self).effects().subscriptions == old(self).effects().subscriptions
                ==> exists|system: &mut A, id: &str|
                #![trigger call_ensures(A::set_default_output_device, (system, id), checked)]
                #![trigger call_ensures(A::set_default_input_device, (system, id), checked)]
                mut_ref_current(system) == old(self).audio_system_spec() && mut_ref_future(system)
                    == final(self).audio_system_spec()
                    && id@ == final(self).effects().requests.last().device_name
                    && match final(self).effects().requests.last().direction {
                    Direction::Output => call_ensures(
                        A::set_default_output_device,
                        (system, id),
                        checked,
                    ),
                    Direction::Input => call_ensures(
                        A::set_default_input_device,
                        (system, id),
                        checked,
                    ),
                },
            final(self).effects().requests.len() == old(self).effects().requests.len() + 2
                && final(self).effects().subscriptions == old(self).effects().subscriptions
                ==> exists|first: &mut A, first_id: &str, second: &mut A, second_id: &str|
                #![trigger
                    call_ensures(
                        A::set_default_output_device,
                        (first, first_id),
                        Ok::<(), MonitorError>(()),
                    ),
                    call_ensures(A::set_default_input_device, (second, second_id), checked),
                ]
                mut_ref_current(first) == old(self).audio_system_spec() && mut_ref_current(second)
                    == mut_ref_future(first) && mut_ref_future(second)
                    == final(self).audio_system_spec()
                        && first_id@ == final(self).effects().requests[final(self).effects().requests.len() - 2].device_name
                    && second_id@ == final(self).effects().requests.last().device_name
                    && final(self).effects().requests[final(self).effects().requests.len()
                    - 2].direction == Direction::Output
                    && final(self).effects().requests.last().direction == Direction::Input
                    && call_ensures(
                    A::set_default_output_device,
                    (first, first_id),
                    Ok::<(), MonitorError>(()),
                ) && call_ensures(A::set_default_input_device, (second, second_id), checked),
            audio_system_kept(
                old(self).audio_system_spec(),
                old(self).effects(),
                final(self).audio_system_spec(),
                final(self).effects(),
            ),
            final(self).config_loader_spec() == old(self).config_loader_spec(),
            final(self).system_service_spec() == old(self).system_service_spec(),
            final(self).host_requests() == old(self).host_requests(),
            old(self)@.rules_in_force() ==> final(self)@.rules_in_force(),
            final(self)@.config == old(self)@.config,
            final(self)@.last_poll_time == old(self)@.last_poll_time,
            final(self)@.last_config_modified == old(self)@.last_config_modified,
            final(self)@.controller.policy == old(self)@.controller.policy,
            Self::is_periodically_checked(
                old(self).audio_system_spec(),
                old(self)@,
                old(self).effects(),
                final(self)@,
                final(self).effects(),
                checked,
            ),
    {
        let available = self.device_controller.enumerate_devices()?;
        let current_output = self.device_controller.get_default_output_device()?;
        let current_input = self.device_controller.get_default_input_device()?;
        proof {
            assert(observation_of(
                self.audio_system_spec(),
                available,
                current_output,
                current_input,
            ));
        }
        self.check_against(available.as_slice(), &current_output, &current_input)
    }

    /// What holds after a periodic safety check on what `system`
    /// reported. Where the system could not be asked for its devices and
    /// defaults, nothing was done and its error comes back. Else the
    /// check was made on the devices and with the defaults that it
    /// answered with.
    pub open spec fn is_periodically_checked(
        system: A,
        before: ServiceView,
        before_effects: Effects,
        after: ServiceView,
        after_effects: Effects,
        checked: Result<(), MonitorError>,
    ) -> bool {
        ||| checked matches Err(error) && observation_fails(system, error) && after == before
            && after_effects == before_effects
        ||| exists|
            available: Vec<AudioDevice>,
            output: Option<AudioDevice>,
            input: Option<AudioDevice>,
        |
            #[trigger] observation_of(system, available, output, input) && Self::is_checked(
                before,
                before_effects,
                after,
                after_effects,
                device_views(available@),
                device_of(output),
                device_of(input),
                checked is Ok,
            ) && if before.devices_changed(device_views(available@)) {
                switched_in_turn(
                    before.controller,
                    before_effects,
                    after.controller,
                    after_effects,
                    preference_target(
                        before.controller.policy,
                        device_views(available@),
                        device_of(output),
                        Direction::Output,
                    ),
                    preference_target(
                        before.controller.policy,
                        device_views(available@),
                        device_of(input),
                        Direction::Input,
                    ),
                    SwitchReason::HigherPriority,
                    checked,
                )
            } else {
                after == before
            }
    }

    /// What holds after the device named `device_name` was to become the
    /// default of the slot `direction` among the devices that `system`
    /// reported. Where the system could not enumerate, nothing was done
    /// and the attempt failed.
    pub open spec fn is_named_device_set(
        system: A,
        before: ServiceView,
        before_effects: Effects,
        after: ServiceView,
        after_effects: Effects,
        device_name: Seq<char>,
        direction: Direction,
        set: Result<(), MonitorError>,
    ) -> bool {
        exists|answer: Result<Vec<AudioDevice>, MonitorError>| #[trigger]
            enumeration_of(system, answer) && match answer {
                Ok(devices) => Self::is_switched_to_named(
                    before,
                    before_effects,
                    after,
                    after_effects,
                    device_views(devices@),
                    device_name,
                    direction,
                    set,
                ),
                Err(_) => set is Err && after == before && after_effects == before_effects,
            }
    }

    /// The periodic safety check on the enumeration `available` with the
    /// defaults `current_output` and `current_input`. Where the ids of
    /// the devices are those of the check before, nothing is done, which
    /// keeps a device that the user chose by hand. Else the ids are
    /// remembered and the preferences are applied. A refused switch ends
    /// the check with an error.
    pub fn check_against(
        &mut self,
        available: &[AudioDevice],
        current_output: &Option<AudioDevice>,
        current_input: &Option<AudioDevice>,
    ) -> (checked: Result<(), MonitorError>)
        ensures
            final(self).effects().requests.len() == old(self).effects().requests.len() + 1
                && final(self).effects().subscriptions == old(self).effects().subscriptions
                ==> exists|system: &mut A, id: &str|
                #![trigger call_ensures(A::set_default_output_device, (system, id), checked)]
                #![trigger call_ensures(A::set_default_input_device, (system, id), checked)]
                mut_ref_current(system) == old(self).audio_system_spec() && mut_ref_future(system)
                    == final(self).audio_system_spec()
                    && id@ == final(self).effects().requests.last().device_name
                    && match final(self).effects().requests.last().direction {
                    Direction::Output => call_ensures(
                        A::set_default_output_device,
                        (system, id),
                        checked,
                    ),
                    Direction::Input => call_ensures(
                        A::set_default_input_device,
                        (system, id),
                        checked,
                    ),
                },
            final(self).effects().requests.len() == old(self).effects().requests.len() + 2
                && final(self).effects().subscriptions == old(self).effects().subscriptions
                ==> exists|first: &mut A, first_id: &str, second: &mut A, second_id: &str|
                #![trigger
                    call_ensures(
                        A::set_default_output_device,
                        (first, first_id),
                        Ok::<(), MonitorError>(()),
                    ),
                    call_ensures(A::set_default_input_device, (second, second_id), checked),
                ]
                mut_ref_current(first) == old(self).audio_system_spec() && mut_ref_current(second)
                    == mut_ref_future(first) && mut_ref_future(second)
                    == final(self).audio_system_spec()
                        && first_id@ == final(self).effects().requests[final(self).effects().requests.len() - 2].device_name
                    && second_id@ == final(self).effects().requests.last().device_name
                    && final(self).effects().requests[final(self).effects().requests.len()
                    - 2].direction == Direction::Output
                    && final(self).effects().requests.last().direction == Direction::Input
                    && call_ensures(
                    A::set_default_output_device,
                    (first, first_id),
                    Ok::<(), MonitorError>(()),
                ) && call_ensures(A::set_default_input_device, (second, second_id), checked),
            audio_system_kept(
                old(self).audio_system_spec(),
                old(self).effects(),
                final(self).audio_system_spec(),
                final(self).effects(),
            ),
            old(self)@.devices_changed(device_views(available@)) ==> switched_in_turn(
                old(self)@.controller,
                old(self).effects(),
                final(self)@.controller,
                final(self).effects(),
                preference_target(
                    old(self)@.controller.policy,
                    device_views(available@),
                    device_of(*current_output),
                    Direction::Output,
                ),
                preference_target(
                    old(self)@.controller.policy,
                    device_views(available@),
                    device_of(*current_input),
                    Direction::Input,
                ),
                SwitchReason::HigherPriority,
                checked,
            ),
            !old(self)@.devices_changed(device_views(available@)) ==> final(self)@ == old(self)@,
            final(self).config_loader_spec() == old(self).config_loader_spec(),
            final(self).system_service_spec() == old(self).system_service_spec(),
            final(self).host_requests() == old(self).host_requests(),
            old(self)@.rules_in_force() ==> final(self)@.rules_in_force(),
            Self::is_checked(
                old(self)@,
                old(self).effects(),
                final(self)@,
                final(self).effects(),
                device_views(available@),
                device_of(*current_output),
                device_of(*current_input),
                checked is Ok,
            ),
            checked is Ok ==> final(self)@ == old(self)@.after_periodic_check(
                device_views(available@),
                device_of(*current_output),
                device_of(*current_input),
            ),
            !old(self)@.devices_changed(device_views(available@)) ==> checked is Ok
                && final(self).effects() == old(self).effects(),
            checked is Ok && old(self)@.devices_changed(device_views(available@))
                ==> final(self).effects() == old(self).effects().after_target(
                old(self)@.controller.settings,
                preference_target(
                    old(self)@.controller.policy,
                    device_views(available@),
                    device_of(*current_output),
                    Direction::Output,
                ),
                Direction::Output,
                SwitchReason::HigherPriority,
                None,
            ).after_target(
                old(self)@.controller.settings,
                preference_target(
                    old(self)@.controller.policy,
                    device_views(available@),
                    device_of(*current_input),
                    Direction::Input,
                ),
                Direction::Input,
                SwitchReason::HigherPriority,
                None,
            ),
            final(self)@.known_ids == old(self)@.after_periodic_check(
                device_views(available@),
                device_of(*current_output),
                device_of(*current_input),
            ).known_ids,
            final(self)@.config == old(self)@.config,
            final(self)@.last_poll_time == old(self)@.last_poll_time,
            final(self)@.last_config_modified == old(self)@.last_config_modified,
            final(self)@.controller.policy == old(self)@.controller.policy,
    {
        let current_device_ids = collect_sorted_ids(available);
        if same_texts(&current_device_ids, &self.last_known_device_ids) {
            return Ok(());
        }
        self.last_known_device_ids = current_device_ids;
        let status = evaluate_preferences(
            self.device_controller.priority_manager(),
            available,
            current_output,
            current_input,
        );
        if !status.output_matches || !status.input_matches {
            self.device_controller.apply_preferences_among(
                available,
                current_output,
                current_input,
            )?;
        }
        Ok(())
    }

    /// Reloads the configuration where the file has changed since it was
    /// last loaded.
    pub fn check_config_reload(&mut self) -> (checked: Result<(), MonitorError>)
        ensures
            final(self).config_loader_spec().path() == old(self).config_loader_spec().path(),
            final(self).audio_system_spec() == old(self).audio_system_spec(),
            final(self).system_service_spec() == old(self).system_service_spec(),
            final(self).host_requests() == old(self).host_requests(),
            old(self)@.rules_in_force() ==> final(self)@.rules_in_force(),
            checked is Err ==> final(self)@.config == old(self)@.config && final(self)@.controller
                == old(self)@.controller,
            final(self)@.known_ids == old(self)@.known_ids,
            final(self)@.last_poll_time == old(self)@.last_poll_time,
            final(self).effects() == old(self).effects(),
            old(self)@.last_config_modified is None ==> checked is Ok && final(self)@ == old(self)@,
            old(self)@.last_config_modified matches Some(last_modified) ==> exists|
                there: bool,
                changed: Result<u64, MonitorError>,
            |
                presence_of(
                    old(self).config_loader_spec().file_system_spec(),
                    old(self).config_loader_spec().path(),
                    there,
                ) && (there ==> change_time_of(
                    old(self).config_loader_spec().file_system_spec(),
                    old(self).config_loader_spec().path(),
                    changed,
                )) && match #[trigger] change_since(there, changed, last_modified) {
                    Ok(modified) => if modified {
                        Self::is_reloaded(
                            old(self).config_loader_spec(),
                            final(self).config_loader_spec(),
                            final(self).config_spec(),
                            checked,
                        )
                    } else {
                        checked is Ok && final(self)@ == old(self)@
                            && final(self).config_loader_spec() == old(self).config_loader_spec()
                    },
                    Err(_) => checked is Err && final(self)@ == old(self)@
                        && final(self).config_loader_spec() == old(self).config_loader_spec(),
                },
            old(self)@.last_config_modified is None
                ==> final(self).config_loader_spec() == old(self).config_loader_spec(),
            checked is Ok ==> final(self)@.config == old(self)@.config
                || (final(self)@.controller == old(self)@.controller.after_reload(final(self)@.config) && final(self).config_spec().valid()),
    {
        if let Some(last_modified) = self.last_config_modified {
            if self.config_loader.is_config_modified(last_modified)? {
                self.reload_config()?;
            }
        }
        Ok(())
    }

    /// Loads the configuration anew and puts it in force: the rules and
    /// notification settings are replaced, and the intent of a slot is
    /// kept where the new policy still has a rule that matches the
    /// intended device. Where loading fails, the configuration in force
    /// stays.
    pub fn reload_config(&mut self) -> (reloaded: Result<(), MonitorError>)
        ensures
            final(self).config_loader_spec().path() == old(self).config_loader_spec().path(),
            reloaded is Ok ==> final(self)@.rules_in_force(),
            final(self).audio_system_spec() == old(self).audio_system_spec(),
            final(self).system_service_spec() == old(self).system_service_spec(),
            final(self).host_requests() == old(self).host_requests(),
            old(self)@.rules_in_force() ==> final(self)@.rules_in_force(),
            reloaded is Ok ==> final(self)@.controller == old(self)@.controller.after_reload(
                final(self)@.config,
            ) && final(self).config_spec().valid(),
            reloaded is Err ==> final(self)@.config == old(self)@.config && final(self)@.controller
                == old(self)@.controller
                    && final(self)@.last_config_modified == old(self)@.last_config_modified,
            final(self)@.known_ids == old(self)@.known_ids,
            final(self)@.last_poll_time == old(self)@.last_poll_time,
            final(self).effects() == old(self).effects(),
            Self::is_reloaded(
                old(self).config_loader_spec(),
                final(self).config_loader_spec(),
                final(self).config_spec(),
                reloaded,
            ),
    {
        let ghost path = self.config_loader.path();
        let ghost files = self.config_loader.file_system_spec();
        let ghost asked = self.config_loader.requests();
        let loaded = self.config_loader.load_config();
        let ghost (there, added) = choose|there: bool, added: Seq<FileRequest>| #[trigger]
            is_loading(files, path, there, added, loaded) && presence_of(files, path, there)
                && self.config_loader.requests() == asked + added;
        proof {
            assert(path == old(self).config_loader_spec().path());
            assert(files == old(self).config_loader_spec().file_system_spec());
            assert(asked == old(self).config_loader_spec().requests());
        }
        let new_config = match loaded {
            Ok(config) => config,
            Err(error) => {
                proof {
                    assert(is_loading(
                        old(self).config_loader_spec().file_system_spec(),
                        old(self).config_loader_spec().path(),
                        there,
                        added,
                        loaded,
                    ));
                    assert(self.config_loader_spec().requests() == asked + added);
                }
                return Err(error);
            },
        };
        self.apply_config(new_config);
        if let Some(modified) = self.config_loader.modified_time() {
            self.last_config_modified = Some(modified);
        }
        proof {
            assert(is_loading(
                        old(self).config_loader_spec().file_system_spec(),
                        old(self).config_loader_spec().path(),
                        there,
                        added,
                        loaded,
                    ));
            assert(self.config_loader_spec().requests() == asked + added);
            assert(loaded == Ok::<Config, MonitorError>(self.config_spec()));
        }
        Ok(())
    }

    /// Puts `config` in force.
    pub fn apply_config(&mut self, config: Config)
        ensures
            final(self).system_service_spec() == old(self).system_service_spec(),
            final(self).host_requests() == old(self).host_requests(),
            final(self).audio_system_spec() == old(self).audio_system_spec(),
            final(self)@.rules_in_force(),
            final(self).config_spec() == config,
            final(self)@ == (ServiceView {
                controller: old(self)@.controller.after_reload(config@),
                config: config@,
                ..old(self)@
            }),
            final(self).effects() == old(self).effects(),
            final(self).config_loader_spec() == old(self).config_loader_spec(),
    {
        self.device_controller.apply_config(&config);
        self.config = config;
    }

    /// The configuration in force.
    pub fn get_config(&self) -> (config: &Config)
        ensures
            *config == self.config_spec(),
            config@ == self@.config,
    {
        &self.config
    }

    /// The id of the process that hosts the service.
    pub fn get_process_id(&self) -> (id: u32)
        ensures
            process_id_of(self.system_service_spec(), id),
    {
        self.system_service.get_process_id()
    }

    /// Holds the defaults that the system reports against the devices
    /// that the policy prefers.
    pub fn check_preferences(&self) -> (status: Result<PreferenceStatus, MonitorError>)
        ensures
            match status {
                Ok(status) => exists|
                    available: Vec<AudioDevice>,
                    output: Option<AudioDevice>,
                    input: Option<AudioDevice>,
                |
                    #[trigger] observation_of(self.audio_system_spec(), available, output, input)
                        && status@ == preference_status(
                        self@.controller.policy,
                        device_views(available@),
                        device_of(output),
                        device_of(input),
                    ),
                Err(error) => observation_fails(self.audio_system_spec(), error),
            },
    {
        let status = self.device_controller.check_preferences();
        proof {
            assert(self.audio_system_spec() == self.device_controller.audio_system_spec());
            assert(self@.controller == self.device_controller@);
            if status is Ok {
                let found = status->Ok_0;
                let (available, output, input) = choose|
                    available: Vec<AudioDevice>,
                    output: Option<AudioDevice>,
                    input: Option<AudioDevice>,
                |
                    #[trigger] observation_of(
                        self.device_controller.audio_system_spec(),
                        available,
                        output,
                        input,
                    ) && found@ == preference_status(
                        self.device_controller@.policy,
                        device_views(available@),
                        device_of(output),
                        device_of(input),
                    );
                assert(observation_of(self.audio_system_spec(), available, output, input));
            }
        }
        status
    }

    /// Makes the preferred device the default of each slot whose default
    /// has another name, and says what was changed.
    pub fn apply_preferences(&mut self) -> (changes: Result<PreferenceChanges, MonitorError>)
        ensures
            final(self).effects().requests.len() == old(self).effects().requests.len() + 1
                && final(self).effects().subscriptions == old(self).effects().subscriptions
                ==> exists|system: &mut A, id: &str|
                #![trigger call_ensures(A::set_default_output_device, (system, id), unit_outcome(changes))]
                #![trigger call_ensures(A::set_default_input_device, (system, id), unit_outcome(changes))]
                mut_ref_current(system) == old(self).audio_system_spec() && mut_ref_future(system)
                    == final(self).audio_system_spec()
                    && id@ == final(self).effects().requests.last().device_name
                    && match final(self).effects().requests.last().direction {
                    Direction::Output => call_ensures(
                        A::set_default_output_device,
                        (system, id),
                        unit_outcome(changes),
                    ),
                    Direction::Input => call_ensures(
                        A::set_default_input_device,
                        (system, id),
                        unit_outcome(changes),
                    ),
                },
            final(self).effects().requests.len() == old(self).effects().requests.len() + 2
                && final(self).effects().subscriptions == old(self).effects().subscriptions
                ==> exists|first: &mut A, first_id: &str, second: &mut A, second_id: &str|
                #![trigger
                    call_ensures(
                        A::set_default_output_device,
                        (first, first_id),
                        Ok::<(), MonitorError>(()),
                    ),
                    call_ensures(A::set_default_input_device, (second, second_id), unit_outcome(changes)),
                ]
                mut_ref_current(first) == old(self).audio_system_spec() && mut_ref_current(second)
                    == mut_ref_future(first) && mut_ref_future(second)
                    == final(self).audio_system_spec()
                        && first_id@ == final(self).effects().requests[final(self).effects().requests.len() - 2].device_name
                    && second_id@ == final(self).effects().requests.last().device_name
                    && final(self).effects().requests[final(self).effects().requests.len()
                    - 2].direction == Direction::Output
                    && final(self).effects().requests.last().direction == Direction::Input
                    && call_ensures(
                    A::set_default_output_device,
                    (first, first_id),
                    Ok::<(), MonitorError>(()),
                )
                    && call_ensures(A::set_default_input_device, (second, second_id), unit_outcome(changes)),
            audio_system_kept(
                old(self).audio_system_spec(),
                old(self).effects(),
                final(self).audio_system_spec(),
                final(self).effects(),
            ),
            final(self).config_loader_spec() == old(self).config_loader_spec(),
            final(self).system_service_spec() == old(self).system_service_spec(),
            final(self).host_requests() == old(self).host_requests(),
            old(self)@.rules_in_force() ==> final(self)@.rules_in_force(),
            final(self)@.config == old(self)@.config,
            final(self)@.known_ids == old(self)@.known_ids,
            final(self)@.controller.policy == old(self)@.controller.policy,
            DeviceController::<A, T>::preferences_applied_to(
                old(self).audio_system_spec(),
                old(self)@.controller,
                old(self).effects(),
                final(self)@.controller,
                final(self).effects(),
                changes,
            ),
    {
        self.device_controller.apply_preferences()
    }

    /// `false` once the service has been asked to stop.
    pub fn should_continue_running(&self) -> (running: bool)
        ensures
            running_of(self.system_service_spec(), running),
    {
        self.system_service.should_continue_running()
    }

    /// Takes in that a device named `device_name` has been connected.
    /// Where the system reports such a device, the controller handles its
    /// connection; then the controller takes over the defaults that the
    /// system reports.
    pub fn handle_device_connected(&mut self, device_name: &str) -> (handled: Result<
        (),
        MonitorError,
    >)
        ensures
            exists|answer: Result<Vec<AudioDevice>, MonitorError>| #[trigger]
                enumeration_of(old(self).audio_system_spec(), answer) && match answer {
                    Err(_) => handled is Err && final(self)@.controller == old(self)@.controller
                        && final(self).effects() == old(self).effects()
                        && final(self).audio_system_spec()
                        == old(self).audio_system_spec(),
                    Ok(devices) => exists|
                        mid_system: A,
                        mid: ControllerView,
                        mid_effects: Effects,
                        passed: Result<(), MonitorError>,
                    |
                        #[trigger] Self::connection_passed_on(
                            old(self).audio_system_spec(),
                            old(self)@.controller,
                            old(self).effects(),
                            mid_system,
                            mid,
                            mid_effects,
                            devices@,
                            device_name@,
                            passed,
                        ) && (mid_effects.requests.len() == old(self).effects().requests.len() + 1
                            && mid_effects.subscriptions
                            == old(self).effects().subscriptions ==> exists|system: &mut A, id: &str|
                            #![trigger call_ensures(A::set_default_output_device, (system, id), passed)]
                            #![trigger call_ensures(A::set_default_input_device, (system, id), passed)]
                            mut_ref_current(system) == old(self).audio_system_spec()
                                && mut_ref_future(system) == mid_system && id@
                                == mid_effects.requests.last().device_name
                                    && match mid_effects.requests.last().direction {
                                Direction::Output => call_ensures(A::set_default_output_device, (system, id), passed),
                                Direction::Input => call_ensures(A::set_default_input_device, (system, id), passed),
                            })
                                && (mid_effects.requests.len() == old(self).effects().requests.len() + 2 && mid_effects.subscriptions
                            == old(self).effects().subscriptions ==> exists|
                            first: &mut A,
                            first_id: &str,
                            second: &mut A,
                            second_id: &str,
                        |
                            #![trigger
                                call_ensures(
                                    A::set_default_output_device,
                                    (first, first_id),
                                    Ok::<(), MonitorError>(()),
                                ),
                                call_ensures(A::set_default_input_device, (second, second_id), passed),
                            ]
                            mut_ref_current(first) == old(self).audio_system_spec()
                                && mut_ref_current(second) == mut_ref_future(first)
                                && mut_ref_future(second) == mid_system
                                    && first_id@ == mid_effects.requests[mid_effects.requests.len()
                                - 2].device_name
                                    && second_id@ == mid_effects.requests.last().device_name
                                && mid_effects.requests[mid_effects.requests.len() - 2].direction == Direction::Output
                                && mid_effects.requests.last().direction == Direction::Input
                                    && call_ensures(
                                A::set_default_output_device,
                                (first, first_id),
                                Ok::<(), MonitorError>(()),
                            )
                                && call_ensures(A::set_default_input_device, (second, second_id), passed))
                                && match passed {
                            Err(_) => handled == passed && final(self)@.controller == mid
                                && final(self).effects() == mid_effects
                                && final(self).audio_system_spec() == mid_system,
                            Ok(_) => DeviceController::<A, T>::defaults_updated(
                                mid_system,
                                mid,
                                mid_effects,
                                final(self)@.controller,
                                final(self).effects(),
                                handled,
                            )
                                && (final(self).effects().requests.len() == mid_effects.requests.len() + 1 && final(self).effects().subscriptions
                                == mid_effects.subscriptions ==> exists|system: &mut A, id: &str|
                                #![trigger call_ensures(A::set_default_output_device, (system, id), handled)]
                                #![trigger call_ensures(A::set_default_input_device, (system, id), handled)]
                                mut_ref_current(system) == mid_system
                                    && mut_ref_future(system) == final(self).audio_system_spec()
                                    && id@
                                    == final(self).effects().requests.last().device_name
                                        && match final(self).effects().requests.last().direction {
                                    Direction::Output => call_ensures(A::set_default_output_device, (system, id), handled),
                                    Direction::Input => call_ensures(A::set_default_input_device, (system, id), handled),
                                })
                                    && (final(self).effects().requests.len() == mid_effects.requests.len() + 2 && final(self).effects().subscriptions
                                == mid_effects.subscriptions ==> exists|
                                first: &mut A,
                                first_id: &str,
                                second: &mut A,
                                second_id: &str,
                            |
                                #![trigger
                                    call_ensures(
                                        A::set_default_output_device,
                                        (first, first_id),
                                        Ok::<(), MonitorError>(()),
                                    ),
                                    call_ensures(A::set_default_input_device, (second, second_id), handled),
                                ]
                                mut_ref_current(first) == mid_system
                                    && mut_ref_current(second) == mut_ref_future(first)
                                    && mut_ref_future(second) == final(self).audio_system_spec()
                                        && first_id@ == final(self).effects().requests[final(self).effects().requests.len()
                                    - 2].device_name
                                        && second_id@ == final(self).effects().requests.last().device_name
                                    && final(self).effects().requests[final(self).effects().requests.len() - 2].direction == Direction::Output
                                    && final(self).effects().requests.last().direction == Direction::Input
                                        && call_ensures(
                                    A::set_default_output_device,
                                    (first, first_id),
                                    Ok::<(), MonitorError>(()),
                                )
                                    && call_ensures(A::set_default_input_device, (second, second_id), handled)),
                        },
                },
            audio_system_kept(
                old(self).audio_system_spec(),
                old(self).effects(),
                final(self).audio_system_spec(),
                final(self).effects(),
            ),
            final(self).config_loader_spec() == old(self).config_loader_spec(),
            final(self).system_service_spec() == old(self).system_service_spec(),
            final(self).host_requests() == old(self).host_requests(),
            old(self)@.rules_in_force() ==> final(self)@.rules_in_force(),
            final(self)@.config == old(self)@.config,
            final(self)@.known_ids == old(self)@.known_ids,
            final(self)@.controller.policy == old(self)@.controller.policy,
            final(self)@.controller.well_formed(),
    {
        self.device_controller.intent_is_well_formed();
        let answer = self.device_controller.enumerate_devices();
        proof {
            assert(enumeration_of(old(self).audio_system_spec(), answer));
        }
        let devices = match answer {
            Ok(devices) => devices,
            Err(error) => {
                return Err(error);
            },
        };
        let passed = match first_named(devices.as_slice(), device_name) {
            Some(at) => self.device_controller.handle_device_connected(&devices[at]),
            None => Ok(()),
        };
        let ghost mid_system = self.audio_system_spec();
        let ghost mid = self@.controller;
        let ghost mid_effects = self.effects();
        proof {
            assert(Self::connection_passed_on(
                old(self).audio_system_spec(),
                old(self)@.controller,
                old(self).effects(),
                self.audio_system_spec(),
                self@.controller,
                self.effects(),
                devices@,
                device_name@,
                passed,
            ));
        }
        if let Err(error) = passed {
            return Err(error);
        }
        self.device_controller.update_current_devices()
    }

    /// Takes in that a device named `device_name` has been disconnected.
    /// Where the controller believes a device of that name to be a
    /// default, it handles the disconnection; then it takes over the
    /// defaults that the system reports.
    pub fn handle_device_disconnected(&mut self, device_name: &str) -> (handled: Result<
        (),
        MonitorError,
    >)
        ensures
            exists|
                output_system: A,
                output: ControllerView,
                output_effects: Effects,
                output_passed: Result<(), MonitorError>,
            |
                #![trigger
                    Self::disconnection_passed_on(
                        old(self).audio_system_spec(),
                        old(self)@.controller,
                        old(self).effects(),
                        output_system,
                        output,
                        output_effects,
                        old(self)@.controller.current_output,
                        device_name@,
                        output_passed,
                    ),
                ]
                Self::disconnection_passed_on(
                    old(self).audio_system_spec(),
                    old(self)@.controller,
                    old(self).effects(),
                    output_system,
                    output,
                    output_effects,
                    old(self)@.controller.current_output,
                    device_name@,
                    output_passed,
                ) && (output_effects.requests.len() == old(self).effects().requests.len() + 1
                    && output_effects.subscriptions
                    == old(self).effects().subscriptions ==> exists|system: &mut A, id: &str|
                    #![trigger call_ensures(A::set_default_output_device, (system, id), output_passed)]
                    #![trigger call_ensures(A::set_default_input_device, (system, id), output_passed)]
                    mut_ref_current(system) == old(self).audio_system_spec()
                        && mut_ref_future(system) == output_system && id@
                        == output_effects.requests.last().device_name
                            && match output_effects.requests.last().direction {
                        Direction::Output => call_ensures(A::set_default_output_device, (system, id), output_passed),
                        Direction::Input => call_ensures(A::set_default_input_device, (system, id), output_passed),
                    }) && (output_effects.requests.len() == old(self).effects().requests.len() + 2
                        && output_effects.subscriptions
                    == old(self).effects().subscriptions ==> exists|
                    first: &mut A,
                    first_id: &str,
                    second: &mut A,
                    second_id: &str,
                |
                    #![trigger
                        call_ensures(
                            A::set_default_output_device,
                            (first, first_id),
                            Ok::<(), MonitorError>(()),
                        ),
                        call_ensures(A::set_default_input_device, (second, second_id), output_passed),
                    ]
                    mut_ref_current(first) == old(self).audio_system_spec()
                        && mut_ref_current(second) == mut_ref_future(first)
                        && mut_ref_future(second) == output_system
                            && first_id@ == output_effects.requests[output_effects.requests.len()
                        - 2].device_name && second_id@ == output_effects.requests.last().device_name
                        && output_effects.requests[output_effects.requests.len() - 2].direction == Direction::Output
                        && output_effects.requests.last().direction == Direction::Input
                            && call_ensures(
                        A::set_default_output_device,
                        (first, first_id),
                        Ok::<(), MonitorError>(()),
                    )
                        && call_ensures(A::set_default_input_device, (second, second_id), output_passed))
                        && match output_passed {
                    Err(_) => handled == output_passed && final(self)@.controller == output
                        && final(self).effects()
                        == output_effects && final(self).audio_system_spec() == output_system,
                    Ok(_) => exists|
                        input_system: A,
                        input: ControllerView,
                        input_effects: Effects,
                        input_passed: Result<(), MonitorError>,
                    |
                        #[trigger] Self::disconnection_passed_on(
                        output_system,
                        output,
                        output_effects,
                        input_system,
                        input,
                        input_effects,
                        old(self)@.controller.current_input,
                        device_name@,
                        input_passed,
                    ) && (input_effects.requests.len() == output_effects.requests.len() + 1
                        && input_effects.subscriptions
                        == output_effects.subscriptions ==> exists|system: &mut A, id: &str|
                        #![trigger call_ensures(A::set_default_output_device, (system, id), input_passed)]
                        #![trigger call_ensures(A::set_default_input_device, (system, id), input_passed)]
                        mut_ref_current(system) == output_system
                            && mut_ref_future(system) == input_system && id@
                            == input_effects.requests.last().device_name
                                && match input_effects.requests.last().direction {
                            Direction::Output => call_ensures(A::set_default_output_device, (system, id), input_passed),
                            Direction::Input => call_ensures(A::set_default_input_device, (system, id), input_passed),
                        }) && (input_effects.requests.len() == output_effects.requests.len() + 2
                            && input_effects.subscriptions
                        == output_effects.subscriptions ==> exists|
                        first: &mut A,
                        first_id: &str,
                        second: &mut A,
                        second_id: &str,
                    |
                        #![trigger
                            call_ensures(
                                A::set_default_output_device,
                                (first, first_id),
                                Ok::<(), MonitorError>(()),
                            ),
                            call_ensures(A::set_default_input_device, (second, second_id), input_passed),
                        ]
                        mut_ref_current(first) == output_system
                            && mut_ref_current(second) == mut_ref_future(first)
                            && mut_ref_future(second) == input_system
                                && first_id@ == input_effects.requests[input_effects.requests.len()
                            - 2].device_name
                                && second_id@ == input_effects.requests.last().device_name
                            && input_effects.requests[input_effects.requests.len() - 2].direction == Direction::Output
                            && input_effects.requests.last().direction == Direction::Input
                                && call_ensures(
                            A::set_default_output_device,
                            (first, first_id),
                            Ok::<(), MonitorError>(()),
                        )
                            && call_ensures(A::set_default_input_device, (second, second_id), input_passed))
                            && match input_passed {
                        Err(_) => handled == input_passed && final(self)@.controller == input
                            && final(self).effects()
                            == input_effects && final(self).audio_system_spec() == input_system,
                        Ok(_) => DeviceController::<A, T>::defaults_updated(
                            input_system,
                            input,
                            input_effects,
                            final(self)@.controller,
                            final(self).effects(),
                            handled,
                        )
                            && (final(self).effects().requests.len() == input_effects.requests.len() + 1 && final(self).effects().subscriptions
                            == input_effects.subscriptions ==> exists|system: &mut A, id: &str|
                            #![trigger call_ensures(A::set_default_output_device, (system, id), handled)]
                            #![trigger call_ensures(A::set_default_input_device, (system, id), handled)]
                            mut_ref_current(system) == input_system
                                && mut_ref_future(system) == final(self).audio_system_spec() && id@
                                == final(self).effects().requests.last().device_name
                                    && match final(self).effects().requests.last().direction {
                                Direction::Output => call_ensures(A::set_default_output_device, (system, id), handled),
                                Direction::Input => call_ensures(A::set_default_input_device, (system, id), handled),
                            })
                                && (final(self).effects().requests.len() == input_effects.requests.len() + 2 && final(self).effects().subscriptions
                            == input_effects.subscriptions ==> exists|
                            first: &mut A,
                            first_id: &str,
                            second: &mut A,
                            second_id: &str,
                        |
                            #![trigger
                                call_ensures(
                                    A::set_default_output_device,
                                    (first, first_id),
                                    Ok::<(), MonitorError>(()),
                                ),
                                call_ensures(A::set_default_input_device, (second, second_id), handled),
                            ]
                            mut_ref_current(first) == input_system
                                && mut_ref_current(second) == mut_ref_future(first)
                                && mut_ref_future(second) == final(self).audio_system_spec()
                                    && first_id@ == final(self).effects().requests[final(self).effects().requests.len()
                                - 2].device_name
                                    && second_id@ == final(self).effects().requests.last().device_name
                                && final(self).effects().requests[final(self).effects().requests.len() - 2].direction == Direction::Output
                                && final(self).effects().requests.last().direction == Direction::Input
                                    && call_ensures(
                                A::set_default_output_device,
                                (first, first_id),
                                Ok::<(), MonitorError>(()),
                            )
                                && call_ensures(A::set_default_input_device, (second, second_id), handled)),
                    },
                },
            audio_system_kept(
                old(self).audio_system_spec(),
                old(self).effects(),
                final(self).audio_system_spec(),
                final(self).effects(),
            ),
            final(self).config_loader_spec() == old(self).config_loader_spec(),
            final(self).system_service_spec() == old(self).system_service_spec(),
            final(self).host_requests() == old(self).host_requests(),
            old(self)@.rules_in_force() ==> final(self)@.rules_in_force(),
            final(self)@.config == old(self)@.config,
            final(self)@.known_ids == old(self)@.known_ids,
            final(self)@.controller.policy == old(self)@.controller.policy,
            final(self)@.controller.well_formed(),
    {
        let current_output = match self.device_controller.get_current_output_device() {
            Some(device) => Some(device.clone()),
            None => None,
        };
        let current_input = match self.device_controller.get_current_input_device() {
            Some(device) => Some(device.clone()),
            None => None,
        };
        let output_passed = self.pass_on_disconnection(&current_output, device_name);
        let ghost output_system = self.audio_system_spec();
        let ghost output = self@.controller;
        let ghost output_effects = self.effects();
        if let Err(error) = output_passed {
            return Err(error);
        }
        let input_passed = self.pass_on_disconnection(&current_input, device_name);
        if let Err(error) = input_passed {
            return Err(error);
        }
        self.device_controller.update_current_devices()
    }

    /// Hands the disconnection of `believed` to the controller, where it
    /// is a device named `device_name`.
    fn pass_on_disconnection(
        &mut self,
        believed: &Option<AudioDevice>,
        device_name: &str,
    ) -> (passed: Result<(), MonitorError>)
        ensures
            final(self).effects().requests.len() == old(self).effects().requests.len() + 1
                && final(self).effects().subscriptions == old(self).effects().subscriptions
                ==> exists|system: &mut A, id: &str|
                #![trigger call_ensures(A::set_default_output_device, (system, id), passed)]
                #![trigger call_ensures(A::set_default_input_device, (system, id), passed)]
                mut_ref_current(system) == old(self).audio_system_spec() && mut_ref_future(system)
                    == final(self).audio_system_spec()
                    && id@ == final(self).effects().requests.last().device_name
                    && match final(self).effects().requests.last().direction {
                    Direction::Output => call_ensures(
                        A::set_default_output_device,
                        (system, id),
                        passed,
                    ),
                    Direction::Input => call_ensures(
                        A::set_default_input_device,
                        (system, id),
                        passed,
                    ),
                },
            final(self).effects().requests.len() == old(self).effects().requests.len() + 2
                && final(self).effects().subscriptions == old(self).effects().subscriptions
                ==> exists|first: &mut A, first_id: &str, second: &mut A, second_id: &str|
                #![trigger
                    call_ensures(
                        A::set_default_output_device,
                        (first, first_id),
                        Ok::<(), MonitorError>(()),
                    ),
                    call_ensures(A::set_default_input_device, (second, second_id), passed),
                ]
                mut_ref_current(first) == old(self).audio_system_spec() && mut_ref_current(second)
                    == mut_ref_future(first) && mut_ref_future(second)
                    == final(self).audio_system_spec()
                        && first_id@ == final(self).effects().requests[final(self).effects().requests.len() - 2].device_name
                    && second_id@ == final(self).effects().requests.last().device_name
                    && final(self).effects().requests[final(self).effects().requests.len()
                    - 2].direction == Direction::Output
                    && final(self).effects().requests.last().direction == Direction::Input
                    && call_ensures(
                    A::set_default_output_device,
                    (first, first_id),
                    Ok::<(), MonitorError>(()),
                ) && call_ensures(A::set_default_input_device, (second, second_id), passed),
            Self::disconnection_passed_on(
                old(self).audio_system_spec(),
                old(self)@.controller,
                old(self).effects(),
                final(self).audio_system_spec(),
                final(self)@.controller,
                final(self).effects(),
                device_of(*believed),
                device_name@,
                passed,
            ),
            final(self)@.config == old(self)@.config,
            final(self)@.known_ids == old(self)@.known_ids,
            final(self)@.last_poll_time == old(self)@.last_poll_time,
            final(self)@.last_config_modified == old(self)@.last_config_modified,
            final(self)@.controller.policy == old(self)@.controller.policy,
            final(self)@.controller.well_formed(),
            final(self).config_loader_spec() == old(self).config_loader_spec(),
            final(self).system_service_spec() == old(self).system_service_spec(),
            final(self).host_requests() == old(self).host_requests(),
    {
        self.device_controller.intent_is_well_formed();
        match believed {
            Some(device) => {
                if crate::config::types::equal_text(device.name.as_str(), device_name) {
                    self.device_controller.handle_device_disconnected(device)
                } else {
                    Ok(())
                }
            },
            None => Ok(()),
        }
    }

    /// The device that the controller last made the default of the slot
    /// `direction` and that has not left since.
    pub fn intended_device(&self, direction: Direction) -> (device: Option<&AudioDevice>)
        ensures
            device is Some <==> self@.controller.intended(direction) is Some,
            device matches Some(device) ==> Some(device@) == self@.controller.intended(direction)
                && device.device_type.supports_spec(direction),
    {
        self.device_controller.intended_device(direction)
    }


    /// Ends the service. The loop ends by itself once the host reports
    /// that the service has been asked to stop; nothing is left to do
    /// here.
    pub fn shutdown(&mut self) -> (ended: Result<(), MonitorError>)
        ensures
            ended is Ok,
            final(self)@ == old(self)@,
            final(self).effects() == old(self).effects(),
    {
        Ok(())
    }

    /// All devices that the system reports.
    pub fn enumerate_devices(&self) -> (devices: Result<Vec<AudioDevice>, MonitorError>)
        ensures
            enumeration_of(self.audio_system_spec(), devices),
    {
        self.device_controller.enumerate_devices()
    }

    /// The device that the controller believes to be the default output.
    pub fn get_current_output_device(&self) -> (device: Option<&AudioDevice>)
        ensures
            device is Some <==> self@.controller.current_output is Some,
            device matches Some(device) ==> Some(device@) == self@.controller.current_output,
    {
        self.device_controller.get_current_output_device()
    }

    /// The device that the controller believes to be the default input.
    pub fn get_current_input_device(&self) -> (device: Option<&AudioDevice>)
        ensures
            device is Some <==> self@.controller.current_input is Some,
            device matches Some(device) ==> Some(device@) == self@.controller.current_input,
    {
        self.device_controller.get_current_input_device()
    }

    /// Makes the device named `device_name` the default output, on the
    /// user's wish. That the system reports no device of that name that
    /// can play is an error.
    pub fn set_output_device(&mut self, device_name: &str) -> (set: Result<(), MonitorError>)
        ensures
            final(self).effects().requests.len() == old(self).effects().requests.len() + 1
                && final(self).effects().subscriptions == old(self).effects().subscriptions
                ==> exists|system: &mut A, id: &str|
                #![trigger call_ensures(A::set_default_output_device, (system, id), set)]
                #![trigger call_ensures(A::set_default_input_device, (system, id), set)]
                mut_ref_current(system) == old(self).audio_system_spec() && mut_ref_future(system)
                    == final(self).audio_system_spec()
                    && id@ == final(self).effects().requests.last().device_name
                    && match final(self).effects().requests.last().direction {
                    Direction::Output => call_ensures(
                        A::set_default_output_device,
                        (system, id),
                        set,
                    ),
                    Direction::Input => call_ensures(
                        A::set_default_input_device,
                        (system, id),
                        set,
                    ),
                },
            final(self).effects().requests.len() == old(self).effects().requests.len() + 2
                && final(self).effects().subscriptions == old(self).effects().subscriptions
                ==> exists|first: &mut A, first_id: &str, second: &mut A, second_id: &str|
                #![trigger
                    call_ensures(
                        A::set_default_output_device,
                        (first, first_id),
                        Ok::<(), MonitorError>(()),
                    ),
                    call_ensures(A::set_default_input_device, (second, second_id), set),
                ]
                mut_ref_current(first) == old(self).audio_system_spec() && mut_ref_current(second)
                    == mut_ref_future(first) && mut_ref_future(second)
                    == final(self).audio_system_spec()
                        && first_id@ == final(self).effects().requests[final(self).effects().requests.len() - 2].device_name
                    && second_id@ == final(self).effects().requests.last().device_name
                    && final(self).effects().requests[final(self).effects().requests.len()
                    - 2].direction == Direction::Output
                    && final(self).effects().requests.last().direction == Direction::Input
                    && call_ensures(
                    A::set_default_output_device,
                    (first, first_id),
                    Ok::<(), MonitorError>(()),
                ) && call_ensures(A::set_default_input_device, (second, second_id), set),
            audio_system_kept(
                old(self).audio_system_spec(),
                old(self).effects(),
                final(self).audio_system_spec(),
                final(self).effects(),
            ),
            final(self).config_loader_spec() == old(self).config_loader_spec(),
            final(self).system_service_spec() == old(self).system_service_spec(),
            final(self).host_requests() == old(self).host_requests(),
            old(self)@.rules_in_force() ==> final(self)@.rules_in_force(),
            final(self)@.config == old(self)@.config,
            final(self)@.known_ids == old(self)@.known_ids,
            final(self)@.controller.policy == old(self)@.controller.policy,
            set is Ok ==> name_of(final(self)@.controller.intended_output) == Some(device_name@),
            set is Err ==> final(self)@.controller == old(self)@.controller,
            Self::is_named_device_set(
                old(self).audio_system_spec(),
                old(self)@,
                old(self).effects(),
                final(self)@,
                final(self).effects(),
                device_name@,
                Direction::Output,
                set,
            ),
    {
        let answer = self.device_controller.enumerate_devices();
        proof {
            assert(enumeration_of(self.audio_system_spec(), answer));
        }
        match answer {
            Ok(devices) => self.switch_to_named(devices.as_slice(), device_name, Direction::Output),
            Err(error) => Err(error),
        }
    }

    /// Makes the device named `device_name` the default input, on the
    /// user's wish. That the system reports no device of that name that
    /// can record is an error.
    pub fn set_input_device(&mut self, device_name: &str) -> (set: Result<(), MonitorError>)
        ensures
            final(self).effects().requests.len() == old(self).effects().requests.len() + 1
                && final(self).effects().subscriptions == old(self).effects().subscriptions
                ==> exists|system: &mut A, id: &str|
                #![trigger call_ensures(A::set_default_output_device, (system, id), set)]
                #![trigger call_ensures(A::set_default_input_device, (system, id), set)]
                mut_ref_current(system) == old(self).audio_system_spec() && mut_ref_future(system)
                    == final(self).audio_system_spec()
                    && id@ == final(self).effects().requests.last().device_name
                    && match final(self).effects().requests.last().direction {
                    Direction::Output => call_ensures(
                        A::set_default_output_device,
                        (system, id),
                        set,
                    ),
                    Direction::Input => call_ensures(
                        A::set_default_input_device,
                        (system, id),
                        set,
                    ),
                },
            final(self).effects().requests.len() == old(self).effects().requests.len() + 2
                && final(self).effects().subscriptions == old(self).effects().subscriptions
                ==> exists|first: &mut A, first_id: &str, second: &mut A, second_id: &str|
                #![trigger
                    call_ensures(
                        A::set_default_output_device,
                        (first, first_id),
                        Ok::<(), MonitorError>(()),
                    ),
                    call_ensures(A::set_default_input_device, (second, second_id), set),
                ]
                mut_ref_current(first) == old(self).audio_system_spec() && mut_ref_current(second)
                    == mut_ref_future(first) && mut_ref_future(second)
                    == final(self).audio_system_spec()
                        && first_id@ == final(self).effects().requests[final(self).effects().requests.len() - 2].device_name
                    && second_id@ == final(self).effects().requests.last().device_name
                    && final(self).effects().requests[final(self).effects().requests.len()
                    - 2].direction == Direction::Output
                    && final(self).effects().requests.last().direction == Direction::Input
                    && call_ensures(
                    A::set_default_output_device,
                    (first, first_id),
                    Ok::<(), MonitorError>(()),
                ) && call_ensures(A::set_default_input_device, (second, second_id), set),
            audio_system_kept(
                old(self).audio_system_spec(),
                old(self).effects(),
                final(self).audio_system_spec(),
                final(self).effects(),
            ),
            final(self).config_loader_spec() == old(self).config_loader_spec(),
            final(self).system_service_spec() == old(self).system_service_spec(),
            final(self).host_requests() == old(self).host_requests(),
            old(self)@.rules_in_force() ==> final(self)@.rules_in_force(),
            final(self)@.config == old(self)@.config,
            final(self)@.known_ids == old(self)@.known_ids,
            final(self)@.controller.policy == old(self)@.controller.policy,
            set is Ok ==> name_of(final(self)@.controller.intended_input) == Some(device_name@),
            set is Err ==> final(self)@.controller == old(self)@.controller,
            Self::is_named_device_set(
                old(self).audio_system_spec(),
                old(self)@,
                old(self).effects(),
                final(self)@,
                final(self).effects(),
                device_name@,
                Direction::Input,
                set,
            ),
    {
        let answer = self.device_controller.enumerate_devices();
        proof {
            assert(enumeration_of(self.audio_system_spec(), answer));
        }
        match answer {
            Ok(devices) => self.switch_to_named(devices.as_slice(), device_name, Direction::Input),
            Err(error) => Err(error),
        }
    }

    /// Makes the first device of `devices` that is named `device_name`
    /// and fits the slot `direction` the default of that slot. That there
    /// is none is an error of the kind `DeviceNotFound`.
    pub fn switch_to_named(
        &mut self,
        devices: &[AudioDevice],
        device_name: &str,
        direction: Direction,
    ) -> (set: Result<(), MonitorError>)
        ensures
            final(self).effects().requests.len() == old(self).effects().requests.len() + 1
                && final(self).effects().subscriptions == old(self).effects().subscriptions
                ==> exists|system: &mut A, id: &str|
                #![trigger call_ensures(A::set_default_output_device, (system, id), set)]
                #![trigger call_ensures(A::set_default_input_device, (system, id), set)]
                mut_ref_current(system) == old(self).audio_system_spec() && mut_ref_future(system)
                    == final(self).audio_system_spec()
                    && id@ == final(self).effects().requests.last().device_name
                    && match final(self).effects().requests.last().direction {
                    Direction::Output => call_ensures(
                        A::set_default_output_device,
                        (system, id),
                        set,
                    ),
                    Direction::Input => call_ensures(
                        A::set_default_input_device,
                        (system, id),
                        set,
                    ),
                },
            final(self).effects().requests.len() == old(self).effects().requests.len() + 2
                && final(self).effects().subscriptions == old(self).effects().subscriptions
                ==> exists|first: &mut A, first_id: &str, second: &mut A, second_id: &str|
                #![trigger
                    call_ensures(
                        A::set_default_output_device,
                        (first, first_id),
                        Ok::<(), MonitorError>(()),
                    ),
                    call_ensures(A::set_default_input_device, (second, second_id), set),
                ]
                mut_ref_current(first) == old(self).audio_system_spec() && mut_ref_current(second)
                    == mut_ref_future(first) && mut_ref_future(second)
                    == final(self).audio_system_spec()
                        && first_id@ == final(self).effects().requests[final(self).effects().requests.len() - 2].device_name
                    && second_id@ == final(self).effects().requests.last().device_name
                    && final(self).effects().requests[final(self).effects().requests.len()
                    - 2].direction == Direction::Output
                    && final(self).effects().requests.last().direction == Direction::Input
                    && call_ensures(
                    A::set_default_output_device,
                    (first, first_id),
                    Ok::<(), MonitorError>(()),
                ) && call_ensures(A::set_default_input_device, (second, second_id), set),
            audio_system_kept(
                old(self).audio_system_spec(),
                old(self).effects(),
                final(self).audio_system_spec(),
                final(self).effects(),
            ),
            final(self).config_loader_spec() == old(self).config_loader_spec(),
            final(self).system_service_spec() == old(self).system_service_spec(),
            final(self).host_requests() == old(self).host_requests(),
            old(self)@.rules_in_force() ==> final(self)@.rules_in_force(),
            Self::is_switched_to_named(
                old(self)@,
                old(self).effects(),
                final(self)@,
                final(self).effects(),
                device_views(devices@),
                device_name@,
                direction,
                set,
            ),
            final(self)@.config == old(self)@.config,
            final(self)@.known_ids == old(self)@.known_ids,
            final(self)@.last_poll_time == old(self)@.last_poll_time,
            final(self)@.last_config_modified == old(self)@.last_config_modified,
            set is Ok ==> exists|at: int|
                named_index(device_views(devices@), device_name@, direction, at)
                    && final(self)@.controller == old(self)@.controller.after_switch(
                    device_views(devices@)[at],
                    direction,
                ),
            set is Err ==> final(self)@.controller == old(self)@.controller,
            (forall|k: int|
                0 <= k < devices@.len() ==> !((#[trigger] device_views(devices@)[k]).name
                    == device_name@ && device_views(devices@)[k].device_type.supports_spec(
                    direction,
                ))) ==> (set matches Err(error) && error.kind == ErrorKind::DeviceNotFound
                && final(self).effects() == old(self).effects()),
            (exists|at: int| named_index(device_views(devices@), device_name@, direction, at))
                ==> exists|at: int|
                named_index(device_views(devices@), device_name@, direction, at)
                    && final(self).effects() == old(self).effects().after_attempt(
                    old(self)@.controller.settings,
                    device_views(devices@)[at],
                    direction,
                    SwitchReason::Manual,
                    failure_of(set),
                ),
    {
        match find_named(devices, device_name, direction) {
            Some(at) => {
                let switched = match direction {
                    Direction::Input => self.device_controller.switch_to_input_device(&devices[at]),
                    Direction::Output => self.device_controller.switch_to_output_device(
                        &devices[at],
                    ),
                };
                proof {
                    assert(named_index(
                        device_views(devices@),
                        device_name@,
                        direction,
                        at as int,
                    ));
                }
                switched
            },
            None => {
                let mut message = match direction {
                    Direction::Input => "Input device '".to_owned(),
                    Direction::Output => "Output device '".to_owned(),
                };
                vstd::string::StringExecFns::append(&mut message, device_name);
                vstd::string::StringExecFns::append(&mut message, "' not found");
                Err(MonitorError::new(ErrorKind::DeviceNotFound, message.as_str()))
            },
        }
    }

    /// The loader of the configuration.
    pub fn config_loader(&self) -> (loader: &ConfigLoader<F>)
        ensures
            *loader == self.config_loader_spec(),
    {
        &self.config_loader
    }

    /// The path of the configuration file.
    pub fn config_path(&self) -> (path: &str)
        ensures
            path@ == self.config_loader_spec().path(),
    {
        self.config_loader.get_config_path()
    }

    /// The controller.
    pub fn device_controller(&self) -> (controller: &DeviceController<A, T>)
        ensures
            controller@ == self@.controller,
            controller.effects() == self.effects(),
    {
        &self.device_controller
    }
}

/// Whether the first device in `devices` with the name `name` stands at
/// `at`.
pub open spec fn first_with_name(devices: Seq<AudioDevice>, name: Seq<char>, at: int) -> bool {
    &&& 0 <= at < devices.len()
    &&& devices[at].name@ == name
    &&& forall|k: int| 0 <= k < at ==> (#[trigger] devices[k]).name@ != name
}

/// Whether some device in `devices` has the name `name`.
pub open spec fn some_has_name(devices: Seq<AudioDevice>, name: Seq<char>) -> bool {
    exists|k: int| 0 <= k < devices.len() && (#[trigger] devices[k]).name@ == name
}

/// The position of the first device in `devices` with the name `name`.
pub fn first_named(devices: &[AudioDevice], name: &str) -> (found: Option<usize>)
    ensures
        match found {
            Some(at) => first_with_name(devices@, name@, at as int),
            None => !some_has_name(devices@, name@),
        },
{
    let mut index: usize = 0;
    while index < devices.len()
        invariant
            index <= devices@.len(),
            forall|k: int| 0 <= k < index ==> (#[trigger] devices@[k]).name@ != name@,
        decreases devices@.len() - index,
    {
        if crate::config::types::equal_text(devices[index].name.as_str(), name) {
            return Some(index);
        }
        index += 1;
    }
    None
}

impl AudioDeviceService<MockAudioSystem, MockFileSystem, MockSystemService, TestNotificationSender> {
    /// A service on in-memory stand-ins for the host, with the default
    /// configuration, which it tries to save at `config_path`.
    pub fn new_for_testing(config_path: String) -> (service: Self)
        ensures
            service.config_spec().valid(),
            service@.known_ids.len() == 0,
            service.effects() == Effects::none(),
            service@.controller == DeviceController::<
                MockAudioSystem,
                TestNotificationSender,
            >::initial_view(&service.config_spec()),
            service@.config == default_config(),
            service@.rules_in_force(),
            service@.last_config_modified is None,
            service@.last_poll_time == 0,
            service.host_requests() == Seq::<HostRequest>::empty(),
            service.config_loader_spec().path() == config_path@,
            exists|added: Seq<FileRequest>| #[trigger]
                is_saving(config_path@, default_config(), added)
                    && service.config_loader_spec().requests() == added,
            service.audio_system_spec().devices@.len() == 0,
            service.audio_system_spec().default_output is None,
            service.audio_system_spec().default_input is None,
            service.audio_system_spec().listener_count == 0,
            service.audio_system_spec().set_device_calls@.len() == 0,
            !service.audio_system_spec().should_fail_enumeration,
            !service.audio_system_spec().should_fail_set_device,
            service.system_service_spec().should_run,
            !service.system_service_spec().signal_handler_registered,
            service.system_service_spec().event_loop_calls == 0,
            service.system_service_spec().sleep_calls@.len() == 0,
            !service.system_service_spec().should_fail_signal_registration,
            !service.system_service_spec().should_fail_event_loop,
            !service.system_service_spec().reload_requested,
            service.system_service_spec().clock_ms == 0,
            service.system_service_spec().event_loop_limit is None,
            !service.config_loader_spec().file_system_spec().should_fail_read,
            !service.config_loader_spec().file_system_spec().should_fail_write,
            !service.config_loader_spec().file_system_spec().should_fail_create_dir,
    {
        let ghost path = config_path@;
        let audio_system = MockAudioSystem::new();
        let file_system = MockFileSystem::new();
        let system_service = MockSystemService::new();
        let mut config_loader = ConfigLoader::new(file_system, config_path);
        let config = match config_loader.create_default_config() {
            Ok(config) => config,
            Err(_) => Config::default(),
        };
        proof {
            let added = choose|added: Seq<FileRequest>| #[trigger]
                is_saving(path, default_config(), added) && config_loader.requests()
                    == Seq::<FileRequest>::empty() + added;
            assert(config_loader.requests() =~= added);
        }
        Self::assemble(
            audio_system,
            config_loader,
            system_service,
            config,
            TestNotificationSender::new(),
        )
    }
}

impl<T: NotificationSender> AudioDeviceService<
    MockAudioSystem,
    MockFileSystem,
    MockSystemService,
    T,
> {
    /// The stand-in for the host, to look at what it was asked.
    pub fn mock_system_service(&self) -> (system_service: &MockSystemService)
        ensures
            *system_service == self.system_service_spec(),
    {
        &self.system_service
    }

    /// The stand-in for the host, to drive its clock and signals.
    pub fn mock_system_service_mut(&mut self) -> (system_service: &mut MockSystemService)
        ensures
            *system_service == old(self).system_service_spec(),
            final(self).system_service_spec() == *final(system_service),
            final(self).audio_system_spec() == old(self).audio_system_spec(),
            final(self).config_loader_spec() == old(self).config_loader_spec(),
            final(self)@ == old(self)@,
            final(self).effects() == old(self).effects(),
    {
        &mut self.system_service
    }

    /// The stand-in for the audio system, to look at what it was asked.
    pub fn mock_audio_system(&self) -> (audio_system: &MockAudioSystem)
        ensures
            *audio_system == self.audio_system_spec(),
    {
        self.device_controller.get_audio_system()
    }

    /// The stand-in for the audio system, to change its devices.
    pub fn mock_audio_system_mut(&mut self) -> (audio_system: &mut MockAudioSystem)
        ensures
            *audio_system == old(self).audio_system_spec(),
            final(self).audio_system_spec() == *final(audio_system),
            final(self).system_service_spec() == old(self).system_service_spec(),
            final(self).config_loader_spec() == old(self).config_loader_spec(),
            final(self)@ == old(self)@,
            final(self).effects() == old(self).effects(),
    {
        self.device_controller.audio_system_mut()
    }

    /// The stand-in for the file system, to look at what it was asked.
    pub fn mock_file_system(&self) -> (file_system: &MockFileSystem)
        ensures
            *file_system == self.config_loader_spec().file_system_spec(),
    {
        self.config_loader.get_file_system()
    }

    /// The stand-in for the file system, to change its files.
    pub fn mock_file_system_mut(&mut self) -> (file_system: &mut MockFileSystem)
        ensures
            *file_system == old(self).config_loader_spec().file_system_spec(),
            final(self).config_loader_spec().file_system_spec() == *final(file_system),
            final(self).config_loader_spec().path() == old(self).config_loader_spec().path(),
            final(self).config_loader_spec().requests() == old(self).config_loader_spec().requests(),
            final(self).audio_system_spec() == old(self).audio_system_spec(),
            final(self).system_service_spec() == old(self).system_service_spec(),
            final(self)@ == old(self)@,
            final(self).effects() == old(self).effects(),
    {
        self.config_loader.file_system_mut()
    }
}

} // verus!
