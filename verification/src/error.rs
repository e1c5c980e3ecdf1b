//! Error type and `Result` alias.

use vstd::prelude::*;

use crate::signal::Signal;

verus! {

/// `std::io::Error`, carried opaquely as the cause of a failed signal
/// registration.
#[verifier::external_type_specification]
#[verifier::external_body]
pub struct ExIoError(std::io::Error);

/// Errors produced by `signal-mod` operations.
#[non_exhaustive]
#[derive(Debug)]
pub enum Error {
    /// `install` was called twice on the same coordinator. Signal
    /// handler installation is idempotent within a coordinator and
    /// the second call is rejected.
    AlreadyInstalled,
    /// The platform rejected registration of a specific signal.
    SignalRegistration {
        /// Which signal failed to register.
        signal: Signal,
        /// The underlying OS error.
        source: std::io::Error,
    },
    /// The coordinator was used in a state that disallows the
    /// requested operation. Carries a static description.
    InvalidState(&'static str),
    /// A timed operation exceeded its budget. Carries a static
    /// description of which operation.
    Timeout(&'static str),
    /// `install` was called with no back-end available to attach
    /// signal handlers.
    NoRuntime,
}

/// Convenience alias for `Result<T, signal_mod::Error>`.
pub type Result<T> = core::result::Result<T, Error>;

impl Error {
    /// Whether `text` is the rendering of the error. For a failed
    /// registration the OS error's own rendering (what its `to_string`
    /// returns) comes last.
    pub open spec fn renders_as(&self, text: Seq<char>) -> bool {
        match self {
            Error::AlreadyInstalled => text == "signal handlers already installed for this coordinator"@,
            Error::SignalRegistration { signal, source } => exists|cause: String|
                #[trigger] vstd::string::to_string_from_display_ensures(source, cause) && text
                    == "failed to register handler for "@ + signal.description_text() + ": "@
                    + cause@,
            Error::InvalidState(s) => text == "invalid coordinator state: "@ + s@,
            Error::Timeout(s) => text == "operation timed out: "@ + s@,
            Error::NoRuntime => text
                == "no async-runtime feature and no ctrlc-fallback feature enabled; enable `tokio`, `async-std`, or `ctrlc-fallback`"@,
        }
    }

    /// The error rendered as a human-readable message.
    pub fn to_string(&self) -> (r: String)
        ensures
            self.renders_as(r@),
    {
        match self {
            Error::AlreadyInstalled => String::from_str(
                "signal handlers already installed for this coordinator",
            ),
            Error::SignalRegistration { signal, source } => {
                let mut out = String::from_str("failed to register handler for ");
                out.append(signal.description());
                out.append(": ");
                let ghost prefix = out@;
                let cause = source.to_string();
                out.append(cause.as_str());
                assert(out@ == prefix + cause@);
                out
            },
            Error::InvalidState(s) => {
                let mut out = String::from_str("invalid coordinator state: ");
                out.append(s);
                out
            },
            Error::Timeout(s) => {
                let mut out = String::from_str("operation timed out: ");
                out.append(s);
                out
            },
            Error::NoRuntime => String::from_str(
                "no async-runtime feature and no ctrlc-fallback feature enabled; enable `tokio`, `async-std`, or `ctrlc-fallback`",
            ),
        }
    }

    /// The underlying OS error of a failed registration; `None` for
    /// every other variant.
    pub fn source(&self) -> (r: Option<&std::io::Error>)
        ensures
            match self {
                Error::SignalRegistration { source, .. } => r == Some(source),
                _ => r is None,
            },
    {
        match self {
            Error::SignalRegistration { source, .. } => Some(source),
            _ => None,
        }
    }
}

} // verus!
