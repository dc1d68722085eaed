//! Application-level errors.

use vstd::prelude::*;
use crate::text::{concat2};

verus! {

/// Application-level errors for `devcont`.
#[derive(Debug)]
pub enum Error {
    Io(std::io::Error),
    ConfigParse(String),
    SettingsLoad(String),
    InvalidConfig(String),
    /// A lifecycle hook command exited with a non-zero status.
    HookFailed(String),
    /// A container engine operation failed.
    ProviderError(String),
}

/// The message of an error that is not an I/O error.
pub open spec fn error_message_spec(e: Error) -> Seq<char> {
    match e {
        Error::Io(_) => Seq::empty(),
        Error::ConfigParse(m) => "Failed to parse devcontainer config: "@ + m@,
        Error::SettingsLoad(m) => "Failed to load settings: "@ + m@,
        Error::InvalidConfig(m) => "Invalid configuration: "@ + m@,
        Error::HookFailed(m) => "Lifecycle hook failed \u{2014} "@ + m@,
        Error::ProviderError(m) => "Provider error: "@ + m@,
    }
}

/// Calls `std::io::Error`'s `Display`; nothing is stated of the text.
#[verifier::external_body]
fn io_error_text(e: &std::io::Error) -> String {
    format!("{e}")
}

impl Error {
    /// The human-readable message of this error (its `Display` text).
    pub fn message(&self) -> (r: String)
        ensures
            !(self is Io) ==> r@ == error_message_spec(*self),
            self is Io ==> r@.len() >= 11 && r@.take(11) == "I/O error: "@,
    {
        match self {
            Error::Io(e) => {
                let t = io_error_text(e);
                let r = concat2("I/O error: ", t.as_str());
                proof { reveal_strlit("I/O error: "); }
                assert(r@.take(11) =~= "I/O error: "@);
                r
            },
            Error::ConfigParse(m) => concat2("Failed to parse devcontainer config: ", m.as_str()),
            Error::SettingsLoad(m) => concat2("Failed to load settings: ", m.as_str()),
            Error::InvalidConfig(m) => concat2("Invalid configuration: ", m.as_str()),
            Error::HookFailed(m) => concat2("Lifecycle hook failed \u{2014} ", m.as_str()),
            Error::ProviderError(m) => concat2("Provider error: ", m.as_str()),
        }
    }
}

/// The kind of a failure reported as an I/O error (a subset of `std::io::ErrorKind`).
#[derive(Debug, Clone, Copy, PartialEq, Eq, Structural)]
pub enum FailureKind {
    NotFound,
    InvalidData,
    InvalidInput,
    Other,
}

/// A failure that is reported to the caller as an I/O error of `kind` with `message`.
#[derive(Debug)]
pub struct IoFailure {
    pub kind: FailureKind,
    pub message: String,
}

/// The plain value of a failure.
pub open spec fn failure_view(f: IoFailure) -> (FailureKind, Seq<char>) {
    (f.kind, f.message@)
}

/// A failure of `kind` with `message`.
pub fn failure(kind: FailureKind, message: String) -> (r: IoFailure)
    ensures
        failure_view(r) == (kind, message@),
{
    IoFailure { kind, message }
}

} // verus!
