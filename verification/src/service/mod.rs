//! The service that hosts the engine.

pub mod service_v2;
pub mod signals;

pub use service_v2::AudioDeviceService;
pub use signals::SignalType;
