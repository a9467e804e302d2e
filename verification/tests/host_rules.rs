//! The rules for signals and exit codes, and what the engine asks of its
//! capabilities.

use audio_device_monitor::error::{
    exit_code_of, EXIT_CONFIGURATION, EXIT_SUCCESS, EXIT_SYSTEM,
};
use audio_device_monitor::service::signals::{HostSignal, ManagerEvent, NextStep};
use audio_device_monitor::audio::controller_v2::DeviceController;
use audio_device_monitor::audio::{AudioDevice, DeviceType};
use audio_device_monitor::system::{AudioSystemInterface, MockAudioSystem, MockFileSystem};
use audio_device_monitor::{Config, ConfigLoader, ErrorKind, MonitorError, SignalType};

#[test]
fn termination_and_interrupt_ask_for_a_shutdown() {
    assert_eq!(SignalType::of(HostSignal::Terminate), Some(SignalType::Shutdown));
    assert_eq!(SignalType::of(HostSignal::Interrupt), Some(SignalType::Shutdown));
    assert!(!HostSignal::Terminate.keeps_listening());
    assert!(!HostSignal::Interrupt.keeps_listening());
}

#[test]
fn hang_up_asks_for_a_reload() {
    assert_eq!(SignalType::of(HostSignal::HangUp), Some(SignalType::Reload));
    assert!(HostSignal::HangUp.keeps_listening());
}

#[test]
fn other_signals_ask_for_nothing() {
    assert_eq!(SignalType::of(HostSignal::Other), None);
    assert!(HostSignal::Other.keeps_listening());
}

#[test]
fn manager_stops_reloads_or_goes_on() {
    assert_eq!(ManagerEvent::Asked(SignalType::Shutdown).next_step(), NextStep::Stop);
    assert_eq!(ManagerEvent::Asked(SignalType::Reload).next_step(), NextStep::Reload);
    assert_eq!(ManagerEvent::ListenerGone.next_step(), NextStep::Stop);
    assert_eq!(
        ManagerEvent::Tick { shutdown_requested: true }.next_step(),
        NextStep::Stop
    );
    assert_eq!(
        ManagerEvent::Tick { shutdown_requested: false }.next_step(),
        NextStep::Continue
    );
}

#[test]
fn exit_codes_follow_the_kind_of_the_error() {
    assert_eq!(EXIT_SUCCESS, 0);
    assert_eq!(exit_code_of(&Ok(())), 0);
    assert_eq!(ErrorKind::Config.exit_code(), 1);
    assert_eq!(ErrorKind::Enumeration.exit_code(), 2);
    assert_eq!(ErrorKind::SetDefault.exit_code(), 2);
    assert_eq!(ErrorKind::System.exit_code(), 2);
    assert_eq!(ErrorKind::Notification.exit_code(), EXIT_CONFIGURATION);
    assert_eq!(ErrorKind::DeviceNotFound.exit_code(), EXIT_CONFIGURATION);
    let failed = Err(MonitorError::new(ErrorKind::System, "no audio system"));
    assert_eq!(exit_code_of(&failed), EXIT_SYSTEM);
    let refused = Err(MonitorError::new(ErrorKind::Config, "no such file"));
    assert_eq!(exit_code_of(&refused), 1);
}

#[test]
fn mock_audio_system_counts_requests_for_reports() {
    let mut system = MockAudioSystem::new();
    assert_eq!(system.listener_count, 0);
    assert!(system.add_device_change_listener().is_ok());
    assert!(system.add_device_change_listener().is_ok());
    assert_eq!(system.listener_count, 2);
    assert!(system.devices.is_empty());
}

#[test]
fn mock_audio_system_tells_the_switches_of_each_slot_apart() {
    let mut system = MockAudioSystem::new();
    system.add_device(AudioDevice::new(
        "1".to_string(),
        "Speakers".to_string(),
        DeviceType::Output,
    ));
    system.add_device(AudioDevice::new(
        "2".to_string(),
        "Microphone".to_string(),
        DeviceType::Input,
    ));
    system.set_default_output_device("Speakers").unwrap();
    system.set_default_input_device("Microphone").unwrap();
    system.set_default_output_device("1").unwrap();
    assert_eq!(
        system.get_set_default_output_calls(),
        vec!["Speakers".to_string(), "1".to_string()]
    );
    assert_eq!(
        system.get_set_default_input_calls(),
        vec!["Microphone".to_string()]
    );
}

#[test]
fn controller_hands_the_answers_of_its_audio_system_on() {
    let mut system = MockAudioSystem::new();
    let speakers = AudioDevice::new("1".to_string(), "Speakers".to_string(), DeviceType::Output);
    system.add_device(speakers.clone());
    system.set_mock_default_output(Some(speakers));
    let mut controller = DeviceController::new(system, &Config::default());
    assert_eq!(controller.enumerate_devices().unwrap().len(), 1);
    assert_eq!(
        controller.get_default_output_device().unwrap().unwrap().name,
        "Speakers"
    );
    assert!(controller.get_default_input_device().unwrap().is_none());
    assert!(controller.is_device_available("Speakers").unwrap());
    assert!(!controller.is_device_available("Headphones").unwrap());
    assert!(controller.initialize().is_ok());
    assert!(controller.start_monitoring().is_ok());
    assert_eq!(controller.get_audio_system().listener_count, 2);
    controller.audio_system_mut().set_enumeration_failure(true);
    assert!(controller.enumerate_devices().is_err());
    assert!(controller.check_preferences().is_err());
}

#[test]
fn loader_asks_the_file_system_for_the_file_and_its_time() {
    let mut loader = ConfigLoader::new(
        MockFileSystem::new(),
        "/etc/monitor/config.toml".to_string(),
    );
    assert!(!loader.config_exists());
    assert_eq!(loader.modified_time(), None);
    assert_eq!(loader.is_config_modified(0).unwrap(), false);

    // Without a file the default configuration is saved and comes back.
    let config = loader.load_config().unwrap();
    assert_eq!(config.general.check_interval_ms, 1000);
    assert!(loader.config_exists());
    assert_eq!(loader.get_file_system().get_write_calls().len(), 1);
    assert_eq!(
        loader.get_file_system().get_write_calls()[0].0,
        "/etc/monitor/config.toml"
    );
    assert!(loader.get_file_system().get_read_calls().is_empty());

    // With the file there it is read.
    let again = loader.reload_config().unwrap();
    assert_eq!(again.output_devices.len(), config.output_devices.len());
    assert_eq!(
        loader.get_file_system().get_read_calls(),
        vec!["/etc/monitor/config.toml".to_string()]
    );
    let time = loader.modified_time().unwrap();
    assert_eq!(loader.is_config_modified(time).unwrap(), false);
    assert_eq!(loader.is_config_modified(time - 1).unwrap(), true);

    // A file that cannot be written is an error of saving.
    loader.file_system_mut().set_write_failure(true);
    assert!(loader.save_config(&config).is_err());
}
