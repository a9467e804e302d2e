//! Configuration: the record, its migration and the loader.

pub mod decode;
pub mod document;
pub mod encode;
pub mod loader;
pub mod types;

pub use loader::ConfigLoader;
pub use types::{
    Config, ConfigView, DeviceRule, GeneralConfig, GeneralView, MatchType, NotificationConfig, RuleView,
};
