use audio_device_monitor::config::{Config, ConfigLoader};
use audio_device_monitor::system::MockFileSystem;

#[test]
fn loader_test_load_nonexistent_config_creates_default() {
    let mock_fs = MockFileSystem::new();
    let config_path = "/test/config.toml".to_string();
    let mut loader = ConfigLoader::new(mock_fs, config_path.clone());

    let config = loader.load_config().unwrap();

    // Should be default config
    assert_eq!(config.general.check_interval_ms, 1000);
    assert!(!config.notifications.show_device_availability);
    assert!(config.notifications.show_switching_actions);
}

#[test]
fn test_load_existing_config() {
    let mut mock_fs = MockFileSystem::new();
    let config_path = "/test/config.toml".to_string();

    // Add a config file to the mock filesystem
    let config_content = r#"
[general]
check_interval_ms = 2000
log_level = "debug"
daemon_mode = true

[notifications]
show_device_availability = true
show_switching_actions = false
"#;
    mock_fs.add_file(&config_path, config_content.to_string());

    let mut loader = ConfigLoader::new(mock_fs, config_path);
    let config = loader.load_config().unwrap();

    assert_eq!(config.general.check_interval_ms, 2000);
    assert_eq!(config.general.log_level, "debug");
    assert!(config.general.daemon_mode);
    assert!(config.notifications.show_device_availability);
    assert!(!config.notifications.show_switching_actions);
}

#[test]
fn test_save_config() {
    let mock_fs = MockFileSystem::new();
    let config_path = "/test/config.toml".to_string();
    let mut loader = ConfigLoader::new(mock_fs, config_path.clone());

    let config = Config::default();
    loader.save_config(&config).unwrap();

    // Verify the file was written
    let write_calls = loader.get_file_system().get_write_calls();
    assert_eq!(write_calls.len(), 1);
    assert_eq!(write_calls[0].0, config_path);

    // Verify directory creation was called
    let dir_calls = loader.get_file_system().get_directory_creation_calls();
    assert_eq!(dir_calls.len(), 1);
    assert_eq!(dir_calls[0], "/test".to_string());
}

#[test]
fn test_reload_config() {
    let mut mock_fs = MockFileSystem::new();
    let config_path = "/test/config.toml".to_string();

    let config_content = r#"[general]
check_interval_ms = 3000
log_level = "debug"
daemon_mode = false

[notifications]
show_device_availability = false
show_switching_actions = true
"#;
    mock_fs.add_file(&config_path, config_content.to_string());

    let mut loader = ConfigLoader::new(mock_fs, config_path);
    let config = loader.reload_config().unwrap();

    assert_eq!(config.general.check_interval_ms, 3000);
    assert_eq!(config.general.log_level, "debug");
}

#[test]
fn test_config_exists() {
    let mock_fs = MockFileSystem::new();
    let config_path = "/test/config.toml".to_string();
    let mut loader = ConfigLoader::new(mock_fs, config_path.clone());

    assert!(!loader.config_exists());

    loader
        .file_system_mut()
        .add_file(&config_path, "test content".to_string());
    assert!(loader.config_exists());
}
