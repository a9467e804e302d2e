//! The errors of the engine.

use vstd::prelude::*;
use vstd::string::*;

verus! {

/// What went wrong.
#[derive(Debug, Clone, Copy, PartialEq, Eq, Structural)]
pub enum ErrorKind {
    /// The configuration could not be read, parsed or written.
    Config,
    /// The devices could not be enumerated.
    Enumeration,
    /// The system refused to change its default device.
    SetDefault,
    /// A notification could not be delivered.
    Notification,
    /// No device of the wanted name and direction is present.
    DeviceNotFound,
    /// The host could not do what the service loop asked of it.
    System,
}

/// The exit code of a program that ended without an error.
pub const EXIT_SUCCESS: u8 = 0;

/// The exit code for an error of the configuration or of the request.
pub const EXIT_CONFIGURATION: u8 = 1;

/// The exit code for an error of the audio system or of the host.
pub const EXIT_SYSTEM: u8 = 2;

impl ErrorKind {
    /// The exit code of a program that ends with an error of this kind:
    /// the code of the system where the audio system or the host failed,
    /// the code of the configuration for everything else.
    pub open spec fn exit_code_spec(self) -> u8 {
        match self {
            ErrorKind::Enumeration | ErrorKind::SetDefault | ErrorKind::System => EXIT_SYSTEM,
            _ => EXIT_CONFIGURATION,
        }
    }

    /// The exit code of a program that ends with an error of this kind.
    pub fn exit_code(self) -> (code: u8)
        ensures
            code == self.exit_code_spec(),
            code != EXIT_SUCCESS,
    {
        match self {
            ErrorKind::Enumeration | ErrorKind::SetDefault | ErrorKind::System => EXIT_SYSTEM,
            _ => EXIT_CONFIGURATION,
        }
    }
}

/// The exit code of a program whose work came to `outcome`.
pub open spec fn exit_code_for(outcome: Result<(), MonitorError>) -> u8 {
    match outcome {
        Ok(()) => EXIT_SUCCESS,
        Err(error) => error.kind.exit_code_spec(),
    }
}

/// The exit code of a program whose work came to `outcome`: success
/// where it ended well, else the code of the error's kind.
pub fn exit_code_of(outcome: &Result<(), MonitorError>) -> (code: u8)
    ensures
        code == exit_code_for(*outcome),
        code == EXIT_SUCCESS <==> outcome is Ok,
{
    match outcome {
        Ok(()) => EXIT_SUCCESS,
        Err(error) => error.kind.exit_code(),
    }
}

/// An error with the words that describe it.
#[derive(Debug)]
pub struct MonitorError {
    pub kind: ErrorKind,
    pub message: String,
}

impl Clone for MonitorError {
    fn clone(&self) -> (copy: Self)
        ensures
            copy == *self,
    {
        MonitorError { kind: self.kind, message: self.message.clone() }
    }
}

impl MonitorError {
    /// An error of the kind `kind` described by `message`.
    pub fn new(kind: ErrorKind, message: &str) -> (error: Self)
        ensures
            error.kind == kind,
            error.message@ == message@,
    {
        MonitorError { kind, message: message.to_owned() }
    }

    /// An error of the kind `kind` described by `prefix` followed by
    /// `detail`.
    pub fn with_detail(kind: ErrorKind, prefix: &str, detail: &str) -> (error: Self)
        ensures
            error.kind == kind,
            error.message@ == prefix@ + detail@,
    {
        let mut message = prefix.to_owned();
        message.append(detail);
        MonitorError { kind, message }
    }

    /// The same error with `context` and a colon before its words.
    pub fn context(self, context: &str) -> (error: Self)
        ensures
            error.kind == self.kind,
            error.message@ == context@ + ": "@ + self.message@,
    {
        let mut message = context.to_owned();
        message.append(": ");
        message.append(self.message.as_str());
        MonitorError { kind: self.kind, message }
    }

    /// The words that describe the error.
    pub fn to_string(&self) -> (words: String)
        ensures
            words@ == self.message@,
    {
        self.message.clone()
    }
}

} // verus!
