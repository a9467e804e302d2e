//! What the signals of the host ask of the service.
//!
//! The host delivers signals and ticks; what each of them means for the
//! service is decided here.

use vstd::prelude::*;

verus! {

/// A signal as the host delivers it.
#[derive(Debug, Clone, Copy, PartialEq, Eq, Structural)]
pub enum HostSignal {
    /// The request to terminate.
    Terminate,
    /// The interrupt from the keyboard.
    Interrupt,
    /// The hang-up.
    HangUp,
    /// Any other signal.
    Other,
}

/// What a signal asks of the service.
#[derive(Debug, Clone, Copy, PartialEq, Eq, Structural)]
pub enum SignalType {
    /// End the service in good order.
    Shutdown,
    /// Load the configuration anew.
    Reload,
}

/// What happened while the service manager waited.
#[derive(Debug, Clone, Copy, PartialEq, Eq, Structural)]
pub enum ManagerEvent {
    /// The listener for signals passed on a request.
    Asked(SignalType),
    /// The listener for signals is gone.
    ListenerGone,
    /// The wait ended; `shutdown_requested` says whether a shutdown has
    /// been asked for meanwhile.
    Tick { shutdown_requested: bool },
}

/// What the service manager does next.
#[derive(Debug, Clone, Copy, PartialEq, Eq, Structural)]
pub enum NextStep {
    /// Leave the loop and shut down.
    Stop,
    /// Load the configuration anew, then go on.
    Reload,
    /// Handle the pending device events, then go on.
    Continue,
}

/// What `signal` asks of the service: termination and interrupt ask for
/// a shutdown, a hang-up for a reload, any other signal for nothing.
pub open spec fn asked_by(signal: HostSignal) -> Option<SignalType> {
    match signal {
        HostSignal::Terminate | HostSignal::Interrupt => Some(SignalType::Shutdown),
        HostSignal::HangUp => Some(SignalType::Reload),
        HostSignal::Other => None,
    }
}

/// Whether the listener for signals goes on listening after `signal`: it
/// ends with the first signal that asks for a shutdown.
pub open spec fn listens_after(signal: HostSignal) -> bool {
    asked_by(signal) != Some(SignalType::Shutdown)
}

/// The step that follows `event`: a request for a shutdown, the loss of
/// the listener and a tick after a shutdown was asked for end the loop; a
/// request for a reload reloads; any other tick goes on.
pub open spec fn step_after(event: ManagerEvent) -> NextStep {
    match event {
        ManagerEvent::Asked(SignalType::Shutdown) => NextStep::Stop,
        ManagerEvent::Asked(SignalType::Reload) => NextStep::Reload,
        ManagerEvent::ListenerGone => NextStep::Stop,
        ManagerEvent::Tick { shutdown_requested } => if shutdown_requested {
            NextStep::Stop
        } else {
            NextStep::Continue
        },
    }
}

/// Only a hang-up leads to a reload, and a termination or an interrupt
/// always ends the loop, whichever way the manager learns of it.
pub proof fn lemma_signals_decide(signal: HostSignal)
    ensures
        asked_by(signal) matches Some(asked) ==> (step_after(ManagerEvent::Asked(asked))
            == NextStep::Reload <==> signal == HostSignal::HangUp),
        signal == HostSignal::Terminate || signal == HostSignal::Interrupt ==> step_after(
            ManagerEvent::Asked(asked_by(signal)->0),
        ) == NextStep::Stop && !listens_after(signal),
        step_after(ManagerEvent::Tick { shutdown_requested: true }) == NextStep::Stop,
{
}

impl SignalType {
    /// What `signal` asks of the service, if anything.
    pub fn of(signal: HostSignal) -> (asked: Option<SignalType>)
        ensures
            asked == asked_by(signal),
    {
        match signal {
            HostSignal::Terminate | HostSignal::Interrupt => Some(SignalType::Shutdown),
            HostSignal::HangUp => Some(SignalType::Reload),
            HostSignal::Other => None,
        }
    }
}

impl HostSignal {
    /// Whether the listener for signals goes on listening after this
    /// signal.
    pub fn keeps_listening(self) -> (listening: bool)
        ensures
            listening == listens_after(self),
    {
        match self {
            HostSignal::Terminate | HostSignal::Interrupt => false,
            _ => true,
        }
    }
}

impl ManagerEvent {
    /// The step that follows this event.
    pub fn next_step(self) -> (step: NextStep)
        ensures
            step == step_after(self),
    {
        match self {
            ManagerEvent::Asked(SignalType::Shutdown) => NextStep::Stop,
            ManagerEvent::Asked(SignalType::Reload) => NextStep::Reload,
            ManagerEvent::ListenerGone => NextStep::Stop,
            ManagerEvent::Tick { shutdown_requested } => if shutdown_requested {
                NextStep::Stop
            } else {
                NextStep::Continue
            },
        }
    }
}

} // verus!
