//! Keeps the system's default audio devices in line with a priority
//! policy: rules that weigh device names, a filter that waits for newly
//! connected devices to settle, and a controller that records which
//! device it last made the default.

pub mod audio;
pub mod config;
pub mod error;
pub mod notifications;
pub mod preference_debugging;
pub mod priority;
pub mod service;
pub mod system;
pub mod text;

pub use audio::{AudioDevice, DeviceChangeListener, DeviceControllerV2, DeviceType, Direction};
pub use config::{Config, ConfigLoader};
pub use error::{ErrorKind, MonitorError};
pub use notifications::{
    DefaultNotificationManager, NotificationManager, SwitchReason, TestNotificationSender,
};
pub use preference_debugging::{PreferenceChanges, PreferenceStatus};
pub use service::{AudioDeviceService, SignalType};
pub use system::{
    AudioSystemInterface, FileSystemInterface, MockAudioSystem, MockFileSystem, MockSystemService,
    SystemServiceInterface,
};
