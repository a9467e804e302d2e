//! The priority policy and the resolver that applies it.

pub mod manager;

pub use manager::{DevicePriorityManager, PriorityView};
