//! The place where the engine is tied to the event loop of the host.
//! Nothing is tied yet: every operation succeeds and does nothing.

use crate::error::MonitorError;
use vstd::prelude::*;

verus! {

/// The tie to the event loop of the host.
#[derive(Debug)]
pub struct SystemIntegration {}

impl SystemIntegration {
    /// A tie that holds nothing.
    pub fn new() -> (integration: Result<Self, MonitorError>)
        ensures
            integration is Ok,
    {
        Ok(Self {  })
    }

    /// Starts the event loop of the host. Does nothing.
    pub fn start_event_loop(&self) -> (started: Result<(), MonitorError>)
        ensures
            started is Ok,
    {
        Ok(())
    }

    /// Registers for the notifications of the host. Does nothing.
    pub fn register_system_notifications(&self) -> (registered: Result<(), MonitorError>)
        ensures
            registered is Ok,
    {
        Ok(())
    }

    /// Schedules a check every `_interval_ms` milliseconds. Does nothing.
    pub fn schedule_periodic_checks(&self, _interval_ms: u64) -> (scheduled: Result<
        (),
        MonitorError,
    >)
        ensures
            scheduled is Ok,
    {
        Ok(())
    }
}

impl Default for SystemIntegration {
    fn default() -> Self {
        Self {  }
    }
}

} // verus!
