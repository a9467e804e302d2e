//! What the engine asks of its host. The engine is written against these
//! three capabilities and never reaches the system by itself.

use crate::audio::device::{AudioDevice, Direction};
use crate::error::MonitorError;
use vstd::prelude::*;

verus! {

/// The audio hardware of the host.
pub trait AudioSystemInterface {
    /// All audio devices that are present.
    fn enumerate_devices(&self) -> Result<Vec<AudioDevice>, MonitorError>;

    /// The device that the system plays to by default.
    fn get_default_output_device(&self) -> Result<Option<AudioDevice>, MonitorError>;

    /// The device that the system records from by default.
    fn get_default_input_device(&self) -> Result<Option<AudioDevice>, MonitorError>;

    /// Makes the device of this name or id the default output.
    fn set_default_output_device(&mut self, device_id: &str) -> Result<(), MonitorError>;

    /// Makes the device of this name or id the default input.
    fn set_default_input_device(&mut self, device_id: &str) -> Result<(), MonitorError>;

    /// Asks the system to report changes of its devices and defaults from
    /// now on. The host hands each report to the engine as an event.
    fn add_device_change_listener(&mut self) -> Result<(), MonitorError>;

    /// Whether a device of this name or id is present.
    fn is_device_available(&self, device_id: &str) -> Result<bool, MonitorError>;
}

/// Whether `answer` is what `system` may give when it is asked for its
/// devices.
pub open spec fn enumeration_of<A: AudioSystemInterface>(
    system: A,
    answer: Result<Vec<AudioDevice>, MonitorError>,
) -> bool {
    call_ensures(A::enumerate_devices, (&system,), answer)
}

/// Whether `answer` is what `system` may give when it is asked for the
/// default of the slot `direction`.
pub open spec fn default_of<A: AudioSystemInterface>(
    system: A,
    direction: Direction,
    answer: Result<Option<AudioDevice>, MonitorError>,
) -> bool {
    match direction {
        Direction::Output => call_ensures(A::get_default_output_device, (&system,), answer),
        Direction::Input => call_ensures(A::get_default_input_device, (&system,), answer),
    }
}

/// The device that an answer of the system to the question for a default
/// names, if it names one.
pub open spec fn reported_device(
    answer: Result<Option<AudioDevice>, MonitorError>,
) -> Option<AudioDevice> {
    match answer {
        Ok(Some(device)) => Some(device),
        _ => None,
    }
}

/// Whether `answer` is what `system` may give when it is asked whether a
/// device goes by `device_id`.
pub open spec fn availability_of<A: AudioSystemInterface>(
    system: A,
    device_id: Seq<char>,
    answer: Result<bool, MonitorError>,
) -> bool {
    exists|id: &str|
        id@ == device_id && #[trigger] call_ensures(A::is_device_available, (&system, id), answer)
}

/// Whether `system` may answer with the devices `available` and with the
/// defaults `output` and `input` when it is asked for all three.
pub open spec fn observation_of<A: AudioSystemInterface>(
    system: A,
    available: Vec<AudioDevice>,
    output: Option<AudioDevice>,
    input: Option<AudioDevice>,
) -> bool {
    &&& enumeration_of(system, Ok(available))
    &&& default_of(system, Direction::Output, Ok(output))
    &&& default_of(system, Direction::Input, Ok(input))
}

/// Whether `error` is what `system` may fail with when it is asked for
/// its devices and its defaults.
pub open spec fn observation_fails<A: AudioSystemInterface>(
    system: A,
    error: MonitorError,
) -> bool {
    ||| enumeration_of(system, Err(error))
    ||| default_of(system, Direction::Output, Err(error))
    ||| default_of(system, Direction::Input, Err(error))
}

/// The place where the configuration file is kept.
pub trait FileSystemInterface {
    /// The whole content of the file at `path`.
    fn read_config_file(&mut self, path: &str) -> Result<String, MonitorError>;

    /// Replaces the content of the file at `path`.
    fn write_config_file(&mut self, path: &str, content: &str) -> Result<(), MonitorError>;

    /// Whether there is a file at `path`.
    fn config_file_exists(&self, path: &str) -> bool;

    /// Creates the directory `path` and those above it.
    fn create_config_dir(&mut self, path: &str) -> Result<(), MonitorError>;

    /// When the file at `path` was last changed, in milliseconds since
    /// the epoch of the host.
    fn get_config_modified_time(&self, path: &str) -> Result<u64, MonitorError>;
}

/// Whether `there` is what `file_system` may answer when it is asked
/// whether there is a file at `path`.
pub open spec fn presence_of<F: FileSystemInterface>(
    file_system: F,
    path: Seq<char>,
    there: bool,
) -> bool {
    exists|asked: &str|
        asked@ == path && #[trigger] call_ensures(
            F::config_file_exists,
            (&file_system, asked),
            there,
        )
}

/// Whether `answer` is what `file_system` may give when it is asked when
/// the file at `path` was last changed.
pub open spec fn change_time_of<F: FileSystemInterface>(
    file_system: F,
    path: Seq<char>,
    answer: Result<u64, MonitorError>,
) -> bool {
    exists|asked: &str|
        asked@ == path && #[trigger] call_ensures(
            F::get_config_modified_time,
            (&file_system, asked),
            answer,
        )
}

/// The process that hosts the service loop.
pub trait SystemServiceInterface {
    /// Arranges for termination and interrupt to end the loop and for
    /// hang-up to ask for a reload.
    fn register_signal_handlers(&mut self) -> Result<(), MonitorError>;

    /// Lets the host deliver pending events for one quantum.
    fn run_event_loop(&mut self) -> Result<(), MonitorError>;

    /// `false` once the service has been asked to stop.
    fn should_continue_running(&self) -> bool;

    /// Waits for `milliseconds`.
    fn sleep_ms(&mut self, milliseconds: u64) -> Result<(), MonitorError>;

    /// The id of the hosting process.
    fn get_process_id(&self) -> u32;

    /// Whether a reload has been asked for since the last call. Asking
    /// clears the request.
    fn is_config_reload_requested(&mut self) -> bool;

    /// The reading of a monotonic clock, in milliseconds.
    fn now_ms(&self) -> u64;
}

/// Whether `running` is what `host` may answer when it is asked whether
/// the service goes on.
pub open spec fn running_of<S: SystemServiceInterface>(host: S, running: bool) -> bool {
    call_ensures(S::should_continue_running, (&host,), running)
}

/// Whether `now` is what `host` may give as the reading of its clock.
pub open spec fn now_of<S: SystemServiceInterface>(host: S, now: u64) -> bool {
    call_ensures(S::now_ms, (&host,), now)
}

/// Whether `id` is what `host` may give as the id of its process.
pub open spec fn process_id_of<S: SystemServiceInterface>(host: S, id: u32) -> bool {
    call_ensures(S::get_process_id, (&host,), id)
}

} // verus!
