use audio_device_monitor::audio::{AudioDevice, DeviceType, Direction};
use audio_device_monitor::config::decode::{decode_document, parse_match_type, FaultKind};
use audio_device_monitor::config::encode::{encode_document, match_type_name};
use audio_device_monitor::config::loader::modified_since;
use audio_device_monitor::config::types::default_show_switching_actions;
use audio_device_monitor::config::{
    Config, ConfigLoader, DeviceRule, GeneralConfig, MatchType, NotificationConfig,
};
use audio_device_monitor::error::{ErrorKind, MonitorError};
use audio_device_monitor::notifications::{
    Notification, NotificationManager, NotificationSender, NotificationType, SwitchReason,
    TestNotificationSender,
};
use audio_device_monitor::preference_debugging::{PreferenceChanges, PreferenceStatus};
use audio_device_monitor::priority::manager::{find_best_index, rule_score};
use audio_device_monitor::priority::DevicePriorityManager;
use audio_device_monitor::service::service_v2::{collect_sorted_ids, is_poll_due, wait_for_turn};
use audio_device_monitor::system::{
    FileSystemInterface, MockFileSystem, MockSystemService, SystemIntegration,
    SystemServiceInterface,
};
use audio_device_monitor::text::{before_first, same_texts};

fn rule(name: &str, weight: u32, match_type: MatchType, enabled: bool) -> DeviceRule {
    DeviceRule {
        name: name.to_string(),
        weight,
        match_type,
        enabled,
    }
}

fn device(id: &str, name: &str, device_type: DeviceType) -> AudioDevice {
    AudioDevice::new(id.to_string(), name.to_string(), device_type)
}

#[test]
fn explicit_new_field_wins_over_the_earlier_one() {
    let config = Config::from_toml_str(
        r#"
[notifications]
show_device_changes = true
show_device_availability = false
"#,
    )
    .unwrap();
    assert!(!config.notifications.show_device_availability);
    assert!(config.notifications.show_switching_actions);
    assert_eq!(config.notifications.show_device_changes, None);
}

#[test]
fn earlier_field_is_taken_over_where_the_new_one_is_absent() {
    for earlier in [true, false] {
        let config = Config::from_toml_str(&format!(
            "[notifications]\nshow_device_changes = {}\nshow_switching_actions = false\n",
            earlier
        ))
        .unwrap();
        assert_eq!(config.notifications.show_device_availability, earlier);
        assert!(!config.notifications.show_switching_actions);
        assert_eq!(config.notifications.show_device_changes, None);
    }
}

#[test]
fn migration_is_idempotent() {
    for availability in [true, false] {
        for switching in [true, false] {
            for changes in [None, Some(true), Some(false)] {
                let notifications = NotificationConfig {
                    show_device_availability: availability,
                    show_switching_actions: switching,
                    show_device_changes: changes,
                };
                let once = notifications.migrate_from_old_config();
                assert_eq!(once.migrate_from_old_config(), once);
                assert_eq!(once.show_device_changes, None);
                assert_eq!(once.show_switching_actions, switching);
                assert_eq!(
                    once.show_device_availability,
                    availability || changes == Some(true)
                );
                for explicit in [true, false] {
                    let once = notifications.migrate_with_presence_info(explicit);
                    assert_eq!(once.migrate_with_presence_info(true), once);
                    assert_eq!(once.migrate_with_presence_info(false), once);
                    assert_eq!(once.migrate_from_old_config(), once);
                    let expected = match changes {
                        Some(earlier) if !explicit => earlier,
                        _ => availability,
                    };
                    assert_eq!(once.show_device_availability, expected);
                }
            }
        }
    }
    assert!(default_show_switching_actions());
}

#[test]
fn written_configuration_reads_back() {
    let mut config = Config::default();
    config.general.check_interval_ms = 2500;
    config.general.poll_interval_ms = 60_000;
    config.general.log_level = "trace \"quoted\" \\ 🎵".to_string();
    config.general.daemon_mode = true;
    config.notifications.show_device_availability = true;
    config.notifications.show_switching_actions = false;
    config.output_devices = vec![
        rule("AirPods", 200, MatchType::Contains, true),
        rule("", 0, MatchType::Exact, false),
        rule("Line\nBreak = [x]", u32::MAX, MatchType::Regex, true),
    ];
    config.input_devices = vec![
        rule("USB", 7, MatchType::StartsWith, true),
        rule("Mic", 8, MatchType::EndsWith, false),
    ];

    let text = config.to_toml_string().unwrap();
    let read = Config::from_toml_str(&text).unwrap();

    assert_eq!(read.general.check_interval_ms, 2500);
    assert_eq!(read.general.poll_interval_ms, 60_000);
    assert_eq!(read.general.log_level, config.general.log_level);
    assert!(read.general.daemon_mode);
    assert_eq!(read.notifications, config.notifications);
    assert_eq!(read.output_devices.len(), 3);
    assert_eq!(read.input_devices.len(), 2);
    for (read, written) in read
        .output_devices
        .iter()
        .chain(read.input_devices.iter())
        .zip(config.output_devices.iter().chain(config.input_devices.iter()))
    {
        assert_eq!(read.name, written.name);
        assert_eq!(read.weight, written.weight);
        assert_eq!(read.match_type, written.match_type);
        assert_eq!(read.enabled, written.enabled);
    }

    // The default configuration reads back as well.
    let text = Config::default().to_toml_string().unwrap();
    let read = Config::from_toml_str(&text).unwrap();
    assert_eq!(read.general.check_interval_ms, 1000);
    assert_eq!(read.general.poll_interval_ms, 30_000);
    assert_eq!(read.output_devices[1].name, "MacBook Pro Speakers");
    assert_eq!(read.input_devices[1].name, "MacBook Pro Microphone");
}

#[test]
fn encoded_document_holds_the_fields() {
    let config = Config::default();
    let document = encode_document(&config).unwrap();
    assert_eq!(
        document["general"]["check_interval_ms"].as_integer(),
        Some(1000)
    );
    assert_eq!(document["general"]["log_level"].as_str(), Some("info"));
    assert_eq!(
        document["notifications"]["show_switching_actions"].as_bool(),
        Some(true)
    );
    assert!(document["notifications"].get("show_device_changes").is_none());
    let rules = document["output_devices"].as_array().unwrap();
    assert_eq!(rules.len(), 2);
    assert_eq!(rules[0]["name"].as_str(), Some("AirPods"));
    assert_eq!(rules[0]["weight"].as_integer(), Some(100));
    assert_eq!(rules[0]["match_type"].as_str(), Some("contains"));
    assert_eq!(rules[1]["match_type"].as_str(), Some("exact"));
    assert_eq!(rules[1]["enabled"].as_bool(), Some(true));

    let decoded = decode_document(&document).unwrap();
    assert_eq!(decoded.output_devices.len(), 2);
    assert_eq!(decoded.general.log_level, "info");
}

#[test]
fn interval_that_cannot_be_written_is_refused() {
    let mut config = Config::default();
    config.general.poll_interval_ms = u64::MAX;
    assert!(encode_document(&config).is_none());
    let error = config.to_toml_string().unwrap_err();
    assert_eq!(error.kind, ErrorKind::Config);
    let mut loader = ConfigLoader::new(MockFileSystem::new(), "/c.toml".to_string());
    assert!(loader.save_config(&config).is_err());
    assert!(loader.get_file_system().get_write_calls().is_empty());

    config.general.poll_interval_ms = i64::MAX as u64;
    assert!(config.to_toml_string().is_ok());
}

#[test]
fn missing_tables_take_their_defaults() {
    let config = Config::from_toml_str("").unwrap();
    assert_eq!(config.general.check_interval_ms, 1000);
    assert_eq!(config.general.poll_interval_ms, 30_000);
    assert_eq!(config.general.log_level, "info");
    assert!(!config.general.daemon_mode);
    assert_eq!(config.notifications, NotificationConfig::default());
    assert!(config.output_devices.is_empty());
    assert!(config.input_devices.is_empty());

    let config = Config::from_toml_str("unknown = 1\n[notifications]\nextra = \"x\"\n").unwrap();
    assert!(!config.notifications.show_device_availability);
    assert!(config.notifications.show_switching_actions);
}

#[test]
fn intervals_are_clamped_at_load() {
    let config = Config::from_toml_str(
        "[general]\ncheck_interval_ms = 0\npoll_interval_ms = 5\nlog_level = \"info\"\ndaemon_mode = false\n",
    )
    .unwrap();
    assert_eq!(config.general.check_interval_ms, 100);
    assert_eq!(config.general.poll_interval_ms, 100);

    let config = Config::from_toml_str(
        "[general]\ncheck_interval_ms = 99\npoll_interval_ms = 101\nlog_level = \"info\"\ndaemon_mode = false\n",
    )
    .unwrap();
    assert_eq!(config.general.check_interval_ms, 100);
    assert_eq!(config.general.poll_interval_ms, 101);

    let general = GeneralConfig {
        check_interval_ms: 4000,
        poll_interval_ms: 3999,
        log_level: "warn".to_string(),
        daemon_mode: true,
    }
    .clamp_intervals();
    assert_eq!(general.check_interval_ms, 4000);
    assert_eq!(general.poll_interval_ms, 4000);
    assert_eq!(general.log_level, "warn");
    assert!(general.daemon_mode);

    let mut config = Config::default();
    config.general.check_interval_ms = 1;
    config.notifications.show_device_changes = Some(true);
    let config = config.normalized();
    assert_eq!(config.general.check_interval_ms, 100);
    assert!(config.notifications.show_device_availability);
    assert_eq!(config.notifications.show_device_changes, None);
}

fn fault_of(content: &str) -> (FaultKind, String) {
    let document: toml::Table = content.parse().unwrap();
    let error = decode_document(&document).unwrap_err();
    (error.kind, error.field)
}

#[test]
fn decode_names_the_faulty_key() {
    assert_eq!(
        fault_of("general = 3"),
        (FaultKind::Invalid, "general".to_string())
    );
    assert_eq!(
        fault_of("[general]\nlog_level = \"info\"\ndaemon_mode = false"),
        (FaultKind::Missing, "check_interval_ms".to_string())
    );
    assert_eq!(
        fault_of("[general]\ncheck_interval_ms = -1\nlog_level = \"info\"\ndaemon_mode = false"),
        (FaultKind::Invalid, "check_interval_ms".to_string())
    );
    assert_eq!(
        fault_of("[general]\ncheck_interval_ms = 1.5\nlog_level = \"info\"\ndaemon_mode = false"),
        (FaultKind::Invalid, "check_interval_ms".to_string())
    );
    assert_eq!(
        fault_of("[general]\ncheck_interval_ms = 1\npoll_interval_ms = \"x\"\nlog_level = \"info\"\ndaemon_mode = false"),
        (FaultKind::Invalid, "poll_interval_ms".to_string())
    );
    assert_eq!(
        fault_of("[general]\ncheck_interval_ms = 1\ndaemon_mode = false"),
        (FaultKind::Missing, "log_level".to_string())
    );
    assert_eq!(
        fault_of("[general]\ncheck_interval_ms = 1\nlog_level = \"info\""),
        (FaultKind::Missing, "daemon_mode".to_string())
    );
    assert_eq!(
        fault_of("[notifications]\nshow_device_availability = \"yes\""),
        (FaultKind::Invalid, "show_device_availability".to_string())
    );
    assert_eq!(
        fault_of("[notifications]\nshow_device_changes = 1"),
        (FaultKind::Invalid, "show_device_changes".to_string())
    );
    assert_eq!(
        fault_of("output_devices = \"none\""),
        (FaultKind::Invalid, "output_devices".to_string())
    );
    assert_eq!(
        fault_of("input_devices = [1, 2]"),
        (FaultKind::Invalid, "input_devices".to_string())
    );
    assert_eq!(
        fault_of("[[output_devices]]\nweight = 1\nmatch_type = \"exact\"\nenabled = true"),
        (FaultKind::Missing, "name".to_string())
    );
    assert_eq!(
        fault_of("[[output_devices]]\nname = \"a\"\nweight = 4294967296\nmatch_type = \"exact\"\nenabled = true"),
        (FaultKind::Invalid, "weight".to_string())
    );
    assert_eq!(
        fault_of("[[input_devices]]\nname = \"a\"\nweight = 1\nmatch_type = \"Exact\"\nenabled = true"),
        (FaultKind::Invalid, "match_type".to_string())
    );
    assert_eq!(
        fault_of("[[input_devices]]\nname = \"a\"\nweight = 1\nmatch_type = \"exact\""),
        (FaultKind::Missing, "enabled".to_string())
    );
    // The first faulty rule decides, and output rules come before input rules.
    assert_eq!(
        fault_of(
            "[[input_devices]]\nname = 1\n[[output_devices]]\nname = \"a\"\nweight = 1\nmatch_type = \"exact\"\nenabled = true\n[[output_devices]]\nname = \"b\"\n"
        ),
        (FaultKind::Missing, "weight".to_string())
    );

    let document: toml::Table = "[general]\ncheck_interval_ms = 1".parse().unwrap();
    let error = decode_document(&document).unwrap_err();
    assert_eq!(error.to_string(), "missing field `log_level`");
    let document: toml::Table = "output_devices = 1".parse().unwrap();
    let error = decode_document(&document).unwrap_err();
    assert_eq!(error.to_string(), "invalid value for `output_devices`");
}

#[test]
fn load_errors_are_configuration_errors() {
    let error = Config::from_toml_str("[general").unwrap_err();
    assert_eq!(error.kind, ErrorKind::Config);
    assert!(!error.to_string().is_empty());
    let error = Config::from_toml_str("[general]\ncheck_interval_ms = 1").unwrap_err();
    assert_eq!(error.kind, ErrorKind::Config);
    assert_eq!(error.to_string(), "missing field `log_level`");
}

#[test]
fn match_type_words() {
    for (word, match_type) in [
        ("exact", MatchType::Exact),
        ("contains", MatchType::Contains),
        ("startswith", MatchType::StartsWith),
        ("endswith", MatchType::EndsWith),
        ("regex", MatchType::Regex),
    ] {
        assert_eq!(parse_match_type(word), Some(match_type));
        assert_eq!(match_type_name(match_type), word);
    }
    assert_eq!(parse_match_type("Exact"), None);
    assert_eq!(parse_match_type(""), None);
    assert_eq!(parse_match_type("starts_with"), None);
}

#[test]
fn regex_rules_match_as_contains() {
    let regex = rule("Air.*", 1, MatchType::Regex, true);
    assert!(regex.matches("My Air.* Device"));
    assert!(!regex.matches("AirPods"));
    let disabled = rule("AirPods", 1, MatchType::Regex, false);
    assert!(!disabled.matches("AirPods"));
}

#[test]
fn score_is_the_highest_matching_weight() {
    let rules = vec![
        rule("AirPods", 100, MatchType::Contains, true),
        rule("Pro", 150, MatchType::EndsWith, true),
        rule("AirPods Pro", 900, MatchType::Exact, false),
        rule("Air", 150, MatchType::StartsWith, true),
        rule("Max", 999, MatchType::Contains, true),
    ];
    assert_eq!(rule_score(&rules, "AirPods Pro"), Some(150));
    assert_eq!(rule_score(&rules, "AirPods"), Some(150));
    assert_eq!(rule_score(&rules, "My AirPods"), Some(100));
    assert_eq!(rule_score(&rules, "Speakers"), None);
    assert_eq!(rule_score(&[], "AirPods"), None);
    let zero = vec![rule("Zero", 0, MatchType::Exact, true)];
    assert_eq!(rule_score(&zero, "Zero"), Some(0));
}

#[test]
fn first_candidate_wins_a_tie() {
    let rules = vec![
        rule("Device A", 100, MatchType::Exact, true),
        rule("Device B", 100, MatchType::Exact, true),
        rule("Device C", 50, MatchType::Exact, true),
    ];
    let devices = vec![
        device("0", "Device C", DeviceType::Output),
        device("1", "Device B", DeviceType::Input),
        device("2", "Device B", DeviceType::Output),
        device("3", "Device A", DeviceType::Output),
        device("4", "Device B", DeviceType::InputOutput),
    ];
    assert_eq!(find_best_index(&devices, &rules, Direction::Output), Some(2));
    assert_eq!(find_best_index(&devices, &rules, Direction::Input), Some(1));
    assert_eq!(find_best_index(&devices[..1], &rules, Direction::Output), Some(0));
    assert_eq!(find_best_index(&devices[..1], &rules, Direction::Input), None);
    assert_eq!(find_best_index(&[], &rules, Direction::Output), None);
    assert_eq!(find_best_index(&devices, &[], Direction::Output), None);

    let mut config = Config::default();
    config.output_devices = rules;
    config.input_devices = vec![];
    let manager = DevicePriorityManager::new(&config);
    assert_eq!(manager.find_best_output_device(&devices).unwrap().id, "2");
    assert!(manager.find_best_input_device(&devices).is_none());
    assert_eq!(
        manager
            .find_best_device(&devices, Direction::Output)
            .unwrap()
            .id,
        "2"
    );
}

#[test]
fn a_rule_of_weight_zero_still_selects() {
    let mut config = Config::default();
    config.output_devices = vec![rule("Only", 0, MatchType::Exact, true)];
    let manager = DevicePriorityManager::new(&config);
    let devices = vec![device("1", "Only", DeviceType::Output)];
    assert_eq!(manager.find_best_output_device(&devices).unwrap().name, "Only");
}

#[test]
fn disabled_policy_decides_as_the_empty_policy() {
    let devices = vec![
        device("1", "AirPods", DeviceType::Output),
        device("2", "Speakers", DeviceType::InputOutput),
    ];
    let disabled = vec![
        rule("AirPods", 100, MatchType::Contains, false),
        rule("", 5, MatchType::Contains, false),
    ];
    for direction in [Direction::Input, Direction::Output] {
        assert_eq!(find_best_index(&devices, &disabled, direction), None);
        assert_eq!(find_best_index(&devices, &[], direction), None);
    }
}

#[test]
fn resolver_remembers_the_reported_defaults() {
    let mut manager = DevicePriorityManager::new(&Config::default());
    let airpods = device("1", "AirPods", DeviceType::Output);
    assert!(manager.should_switch_output(&airpods));
    manager.update_current_output("AirPods".to_string());
    assert!(!manager.should_switch_output(&airpods));
    assert!(manager.should_switch_input(&airpods));
    manager.update_current_input("Other".to_string());
    assert!(manager.should_switch_input(&airpods));
    assert!(manager.considers(Direction::Output, "My AirPods"));
    assert!(!manager.considers(Direction::Output, "MacBook Pro Microphone"));
    assert!(manager.considers(Direction::Input, "MacBook Pro Microphone"));

    let mut config = Config::default();
    config.output_devices = vec![];
    manager.replace_rules(&config);
    assert!(!manager.considers(Direction::Output, "My AirPods"));
    assert!(!manager.should_switch_output(&airpods));
}

#[test]
fn notification_words() {
    let headset = device("1", "Headset", DeviceType::InputOutput);
    let microphone = device("2", "Mic", DeviceType::Input);
    let speakers = device("3", "Speakers", DeviceType::Output);

    let connected = Notification::connected(&headset);
    assert_eq!(connected.title, "Audio Device Connected");
    assert_eq!(connected.body, "🎧 Headset is now available");
    assert_eq!(connected.category, NotificationType::DeviceChange);
    assert_eq!(
        Notification::connected(&microphone).body,
        "🎤 Mic is now available"
    );

    let disconnected = Notification::disconnected(&speakers);
    assert_eq!(disconnected.title, "Audio Device Disconnected");
    assert_eq!(disconnected.body, "🔊 Speakers is no longer available");
    assert_eq!(disconnected.category, NotificationType::DeviceChange);

    let switched = Notification::switched(&headset, SwitchReason::HigherPriority);
    assert_eq!(switched.title, "Audio Device Switched");
    assert_eq!(
        switched.body,
        "🎧 Input/Output switched to Headset (higher priority)"
    );
    assert_eq!(switched.category, NotificationType::SwitchAction);
    assert_eq!(
        Notification::switched(&microphone, SwitchReason::PreviousUnavailable).body,
        "🎤 Input switched to Mic (previous device unavailable)"
    );
    assert_eq!(
        Notification::switched(&speakers, SwitchReason::Manual).body,
        "🔊 Output manually switched to Speakers"
    );

    let failed = Notification::switch_failed("Speakers", "no such device");
    assert_eq!(failed.title, "Audio Device Switch Failed");
    assert_eq!(failed.body, "Failed to switch to Speakers: no such device");
    assert_eq!(failed.category, NotificationType::Error);

    let trial = Notification::trial();
    assert_eq!(trial.title, "Audio Device Monitor");
    assert_eq!(trial.body, "Notification system is working correctly!");
}

fn manager(availability: bool, switching: bool) -> NotificationManager<TestNotificationSender> {
    let mut config = Config::default();
    config.notifications.show_device_availability = availability;
    config.notifications.show_switching_actions = switching;
    NotificationManager::new(&config)
}

#[test]
fn notifications_are_filtered_by_category() {
    let speakers = device("3", "Speakers", DeviceType::Output);

    let mut all = manager(true, true);
    all.device_connected(&speakers).unwrap();
    all.device_disconnected(&speakers).unwrap();
    all.device_switched(&speakers, SwitchReason::Manual).unwrap();
    all.switch_failed("Speakers", "why").unwrap();
    let sent = all.sender().get_sent_notifications();
    assert_eq!(sent.len(), 4);
    assert_eq!(
        sent[3],
        (
            "Audio Device Switch Failed".to_string(),
            "Failed to switch to Speakers: why".to_string()
        )
    );

    let mut availability_only = manager(true, false);
    availability_only.device_connected(&speakers).unwrap();
    availability_only
        .device_switched(&speakers, SwitchReason::Manual)
        .unwrap();
    availability_only.switch_failed("Speakers", "why").unwrap();
    assert_eq!(availability_only.sender().get_sent_notifications().len(), 1);
    assert!(availability_only.lets_through(NotificationType::DeviceChange));
    assert!(!availability_only.lets_through(NotificationType::SwitchAction));
    assert!(!availability_only.lets_through(NotificationType::Error));

    let mut switching_only = manager(false, true);
    switching_only.device_connected(&speakers).unwrap();
    switching_only.device_disconnected(&speakers).unwrap();
    assert!(switching_only.sender().get_sent_notifications().is_empty());
    switching_only
        .device_switched(&speakers, SwitchReason::Manual)
        .unwrap();
    assert_eq!(switching_only.sender().get_sent_notifications().len(), 1);

    let mut disabled = manager(true, true);
    disabled.set_enabled(false);
    disabled.device_connected(&speakers).unwrap();
    disabled.switch_failed("Speakers", "why").unwrap();
    assert!(disabled.sender().get_sent_notifications().is_empty());
    // The trial message passes whatever the settings.
    disabled.test_notification().unwrap();
    assert_eq!(
        disabled.sender().get_sent_notifications(),
        vec![(
            "Audio Device Monitor".to_string(),
            "Notification system is working correctly!".to_string()
        )]
    );

    let mut config = Config::default();
    config.notifications.show_device_availability = true;
    config.notifications.show_switching_actions = false;
    disabled.apply_config(&config);
    assert!(!disabled.is_enabled());
    disabled.set_enabled(true);
    assert!(disabled.lets_through(NotificationType::DeviceChange));
    assert!(!disabled.lets_through(NotificationType::SwitchAction));
}

struct FailingSender;

impl NotificationSender for FailingSender {
    fn send(&mut self, _title: &str, _body: &str) -> Result<(), MonitorError> {
        Err(MonitorError::new(ErrorKind::Notification, "no display"))
    }
}

#[test]
fn failed_trial_names_its_cause() {
    let mut manager = NotificationManager::with_sender(&Config::default(), FailingSender);
    let error = manager.test_notification().unwrap_err();
    assert_eq!(error.kind, ErrorKind::Notification);
    assert_eq!(error.to_string(), "Failed to send notification: no display");
    let speakers = device("3", "Speakers", DeviceType::Output);
    assert!(manager
        .device_switched(&speakers, SwitchReason::Manual)
        .is_err());
    // What is filtered out never reaches the sender.
    assert!(manager.device_connected(&speakers).is_ok());
}

#[test]
fn errors_carry_their_context() {
    let error = MonitorError::new(ErrorKind::Enumeration, "no devices");
    assert_eq!(error.to_string(), "no devices");
    let error = error.context("Failed to enumerate");
    assert_eq!(error.kind, ErrorKind::Enumeration);
    assert_eq!(error.to_string(), "Failed to enumerate: no devices");
    let error = MonitorError::with_detail(ErrorKind::System, "signal ", "HUP");
    assert_eq!(error.kind, ErrorKind::System);
    assert_eq!(error.message, "signal HUP");
    assert_eq!(error.clone().message, "signal HUP");
}

#[test]
fn device_descriptions() {
    assert_eq!(DeviceType::Input.to_string(), "Input");
    assert_eq!(DeviceType::Output.to_string(), "Output");
    assert_eq!(DeviceType::InputOutput.to_string(), "Input/Output");
    let speakers = device("3", "Speakers", DeviceType::Output);
    assert_eq!(speakers.to_string(), "Speakers (Output): Available [Online]");
    let headset = device("4", "Headset", DeviceType::InputOutput)
        .set_default(true)
        .set_available(false)
        .with_uid("uid-4".to_string());
    assert_eq!(
        headset.to_string(),
        "Headset (Input/Output): Default [Offline]"
    );
    assert_eq!(headset.uid.as_deref(), Some("uid-4"));

    let info = headset.info();
    assert_eq!(info.name, "Headset");
    assert_eq!(info.uid, "uid-4");
    assert_eq!(info.device_type, DeviceType::InputOutput);
    assert_eq!(info.sample_rate, None);
    assert_eq!(info.channels, None);
    assert!(info.is_default);
    assert_eq!(speakers.info().uid, "3");

    // Two records stand for the same endpoint when their ids are equal.
    assert!(speakers == device("3", "Other name", DeviceType::Input));
    assert!(speakers != device("5", "Speakers", DeviceType::Output));

    assert!(DeviceType::Input.supports(Direction::Input));
    assert!(!DeviceType::Input.supports(Direction::Output));
    assert!(DeviceType::Output.supports(Direction::Output));
    assert!(!DeviceType::Output.supports(Direction::Input));
    assert!(DeviceType::InputOutput.supports(Direction::Input));
    assert!(DeviceType::InputOutput.supports(Direction::Output));
}

#[test]
fn preference_records() {
    let none = PreferenceStatus::no_matches();
    assert!(!none.output_matches && !none.input_matches);
    assert_eq!(none.current_output, None);
    assert_eq!(none.preferred_input, None);

    let all = PreferenceStatus::all_match("Out".to_string(), "In".to_string());
    assert!(all.output_matches && all.input_matches);
    assert_eq!(all.current_output.as_deref(), Some("Out"));
    assert_eq!(all.preferred_output.as_deref(), Some("Out"));
    assert_eq!(all.output_device_name.as_deref(), Some("Out"));
    assert_eq!(all.current_input.as_deref(), Some("In"));
    assert_eq!(all.input_device_name.as_deref(), Some("In"));
    assert!(all == all.clone());
    assert!(all != none);

    let status = PreferenceStatus::evaluate(
        Some("A".to_string()),
        None,
        Some("B".to_string()),
        None,
    );
    assert!(!status.output_matches);
    assert!(status.input_matches);
    let status = PreferenceStatus::evaluate(None, None, Some("B".to_string()), None);
    assert!(!status.output_matches);
    let status = PreferenceStatus::evaluate(
        Some("B".to_string()),
        Some("x".to_string()),
        Some("B".to_string()),
        None,
    );
    assert!(status.output_matches);
    assert!(!status.input_matches);

    assert!(PreferenceChanges::no_changes() == PreferenceChanges::no_changes());
    let both = PreferenceChanges::both_changed("O".to_string(), "I".to_string());
    assert!(both.output_changed && both.input_changed);
    assert_eq!(both.new_output.as_deref(), Some("O"));
    assert_eq!(both.new_input.as_deref(), Some("I"));
    let output = PreferenceChanges::output_only_changed("O".to_string());
    assert!(output.output_changed && !output.input_changed);
    assert_eq!(output.new_input, None);
    let input = PreferenceChanges::input_only_changed("I".to_string());
    assert!(!input.output_changed && input.input_changed);
    assert_eq!(input.new_output, None);
    assert!(both != output);
}

#[test]
fn poll_is_due_after_the_interval() {
    assert!(!is_poll_due(1000, 5999, 5000));
    assert!(is_poll_due(1000, 6000, 5000));
    assert!(is_poll_due(0, u64::MAX, u64::MAX));
    assert!(is_poll_due(7, 7, 0));
    // A clock that reads less than before makes no poll due.
    assert!(!is_poll_due(1000, 999, 0));
    assert_eq!(wait_for_turn(0), 100);
    assert_eq!(wait_for_turn(99), 100);
    assert_eq!(wait_for_turn(100), 100);
    assert_eq!(wait_for_turn(2500), 2500);
    assert!(modified_since(2, 1));
    assert!(!modified_since(1, 1));
    assert!(!modified_since(0, 1));
}

#[test]
fn ids_are_sorted_by_code_point() {
    let devices = vec![
        device("b", "1", DeviceType::Output),
        device("B", "2", DeviceType::Output),
        device("a", "3", DeviceType::Input),
        device("ab", "4", DeviceType::Input),
        device("", "5", DeviceType::Input),
        device("é", "6", DeviceType::Input),
        device("a", "7", DeviceType::Output),
    ];
    assert_eq!(
        collect_sorted_ids(&devices),
        vec!["", "B", "a", "a", "ab", "b", "é"]
    );
    assert!(same_texts(
        &vec!["x".to_string(), "y".to_string()],
        &vec!["x".to_string(), "y".to_string()]
    ));
    assert!(!same_texts(
        &vec!["x".to_string(), "y".to_string()],
        &vec!["y".to_string(), "x".to_string()]
    ));
    assert!(!same_texts(&vec!["x".to_string()], &vec![]));
}

#[test]
fn prefix_before_the_first_delimiter() {
    assert_eq!(before_first("AirPods Pro - Output", '-'), "AirPods Pro ");
    assert_eq!(before_first("Sony WH-1000-XM4", '-'), "Sony WH");
    assert_eq!(before_first("No dash", '-'), "No dash");
    assert_eq!(before_first("-leading", '-'), "");
    assert_eq!(before_first("", '-'), "");
}

#[test]
fn memory_file_system_keeps_its_files() {
    let mut file_system = MockFileSystem::new();
    assert!(!file_system.config_file_exists("/a"));
    assert!(file_system.read_config_file("/a").is_err());
    file_system.write_config_file("/a", "one").unwrap();
    file_system.write_config_file("/a", "two").unwrap();
    assert_eq!(file_system.read_config_file("/a").unwrap(), "two");
    assert_eq!(file_system.files.len(), 1);
    assert_eq!(file_system.get_read_calls(), vec!["/a", "/a"]);
    assert_eq!(file_system.get_write_calls().len(), 2);
    let first = file_system.get_config_modified_time("/a").unwrap();
    file_system.add_file("/a", "three".to_string());
    assert!(file_system.get_config_modified_time("/a").unwrap() > first);
    assert!(file_system.get_config_modified_time("/b").is_err());
    file_system.set_modified_time(5);
    assert_eq!(file_system.get_config_modified_time("/a").unwrap(), 5);

    file_system.set_write_failure(true);
    assert!(file_system.write_config_file("/a", "four").is_err());
    assert_eq!(file_system.read_config_file("/a").unwrap(), "three");
    file_system.set_create_dir_failure(true);
    assert!(file_system.create_config_dir("/d").is_err());
    assert_eq!(file_system.get_directory_creation_calls(), vec!["/d"]);
    file_system.clear_call_history();
    assert!(file_system.get_read_calls().is_empty());
    file_system.remove_file("/a");
    assert!(!file_system.file_exists("/a"));
}

#[test]
fn memory_host_drives_clock_and_signals() {
    let mut host = MockSystemService::new();
    assert_eq!(host.get_process_id(), 12345);
    assert_eq!(host.now_ms(), 0);
    host.sleep_ms(250).unwrap();
    host.advance_clock(50);
    assert_eq!(host.now_ms(), 300);
    host.advance_clock(u64::MAX);
    assert_eq!(host.now_ms(), u64::MAX);
    assert!(!host.is_config_reload_requested());
    host.request_reload();
    assert!(host.is_config_reload_requested());
    assert!(!host.is_config_reload_requested());
    host.set_signal_registration_failure(true);
    assert_eq!(
        host.register_signal_handlers().unwrap_err().kind,
        ErrorKind::System
    );
    host.reset();
    assert!(host.register_signal_handlers().is_ok());
    assert!(host.are_signal_handlers_registered());
    host.stop_service();
    assert!(!host.should_continue_running());
    host.start_service();
    assert!(host.should_continue_running());
    host.clear_sleep_calls();
    assert!(host.get_sleep_calls().is_empty());
}

#[test]
fn system_integration_does_nothing() {
    let integration = SystemIntegration::new().unwrap();
    assert!(integration.start_event_loop().is_ok());
    assert!(integration.register_system_notifications().is_ok());
    assert!(integration.schedule_periodic_checks(1000).is_ok());
}

#[test]
fn default_loader_settings_survive_a_failing_file_system() {
    let mut file_system = MockFileSystem::new();
    file_system.set_create_dir_failure(true);
    let mut loader = ConfigLoader::new(file_system, "/etc/app/config.toml".to_string());
    let config = loader.create_default_config().unwrap();
    assert_eq!(config.output_devices[0].name, "AirPods");
    assert_eq!(
        loader.get_file_system().get_directory_creation_calls(),
        vec!["/etc/app"]
    );
    assert!(loader.get_file_system().get_write_calls().is_empty());
    assert!(!loader.config_exists());
    assert_eq!(loader.get_config_path(), "/etc/app/config.toml");
    assert!(!loader.is_config_modified(0).unwrap());

    let mut loader = ConfigLoader::new(MockFileSystem::new(), "config.toml".to_string());
    loader.create_default_config().unwrap();
    assert_eq!(
        loader.get_file_system().get_directory_creation_calls(),
        vec![""]
    );
    assert!(loader.config_exists());
    let error = loader.parse_config("x = ").unwrap_err();
    assert!(error
        .to_string()
        .starts_with("Failed to parse configuration file: config.toml: "));
}
