//! The capabilities of the host and in-memory stand-ins for them.

pub mod integration;
pub mod mocks;
pub mod traits;

pub use integration::SystemIntegration;
pub use mocks::{MockAudioSystem, MockFileSystem, MockSystemService};
pub use traits::{AudioSystemInterface, FileSystemInterface, SystemServiceInterface};
