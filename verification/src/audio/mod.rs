//! Devices, the stability filter, the change listener and the controller.

pub mod controller_model;
pub mod controller_v2;
pub mod device;
pub mod listener;
pub mod snapshot;
pub mod stability;

pub use controller_v2::DeviceController as DeviceControllerV2;
pub use device::{AudioDevice, DeviceInfo, DeviceType, DeviceView, Direction};
pub use listener::DeviceChangeListener;
pub use snapshot::ListenerState;
