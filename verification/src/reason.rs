//! [`ShutdownReason`] taxonomy.

use vstd::prelude::*;

use crate::signal::Signal;

verus! {

/// Why a shutdown was initiated.
///
/// Carried by a shutdown trigger, surfaced to observers through the
/// shutdown state, and handed to every hook's `run`.
#[derive(Debug, Clone, Copy, PartialEq, Eq, Structural)]
#[non_exhaustive]
pub enum ShutdownReason {
    /// Originated from a delivered OS signal.
    Signal(Signal),
    /// Programmatic shutdown request (admin endpoint, parent
    /// supervisor, fatal-error branch, etc.).
    Requested,
    /// Graceful budget elapsed; remaining hooks were skipped.
    Forced,
    /// A timed operation exceeded its deadline.
    Timeout,
    /// Shutdown driven by an internal error condition.
    Error,
}

impl ShutdownReason {
    /// The short label of the reason.
    pub open spec fn label(self) -> Seq<char> {
        match self {
            ShutdownReason::Signal(_) => "signal"@,
            ShutdownReason::Requested => "requested"@,
            ShutdownReason::Forced => "forced"@,
            ShutdownReason::Timeout => "timeout"@,
            ShutdownReason::Error => "error"@,
        }
    }

    /// The textual rendering of the reason: `Signal(<description>)`
    /// for a signal, the variant's name otherwise.
    pub open spec fn rendering(self) -> Seq<char> {
        match self {
            ShutdownReason::Signal(s) => "Signal("@ + s.description_text() + ")"@,
            ShutdownReason::Requested => "Requested"@,
            ShutdownReason::Forced => "Forced"@,
            ShutdownReason::Timeout => "Timeout"@,
            ShutdownReason::Error => "Error"@,
        }
    }

    /// Short human-readable label.
    pub fn description(self) -> (r: &'static str)
        ensures
            r@ == self.label(),
    {
        match self {
            ShutdownReason::Signal(_) => "signal",
            ShutdownReason::Requested => "requested",
            ShutdownReason::Forced => "forced",
            ShutdownReason::Timeout => "timeout",
            ShutdownReason::Error => "error",
        }
    }

    /// `true` if this reason was caused by a signal.
    pub fn is_signal(self) -> (r: bool)
        ensures
            r == (self is Signal),
    {
        match self {
            ShutdownReason::Signal(_) => true,
            _ => false,
        }
    }

    /// The reason rendered as text, e.g. `Signal(Terminate (SIGTERM /
    /// CTRL_CLOSE_EVENT))` or `Requested`.
    pub fn to_string(&self) -> (r: String)
        ensures
            r@ == self.rendering(),
    {
        match self {
            ShutdownReason::Signal(s) => {
                let mut out = String::from_str("Signal(");
                out.append(s.description());
                out.append(")");
                out
            },
            ShutdownReason::Requested => String::from_str("Requested"),
            ShutdownReason::Forced => String::from_str("Forced"),
            ShutdownReason::Timeout => String::from_str("Timeout"),
            ShutdownReason::Error => String::from_str("Error"),
        }
    }
}

/// A signal reason renders as `Signal(` followed by the signal's
/// description and a closing `)`; it starts with `Signal(`, ends with
/// `)`, and is eight characters longer than the description. Every
/// other reason renders as its variant's name.
pub proof fn law_reason_rendering(r: ShutdownReason)
    ensures
        match r {
            ShutdownReason::Signal(s) => {
                &&& r.rendering() == "Signal("@ + s.description_text() + ")"@
                &&& r.rendering().len() == s.description_text().len() + 8
                &&& r.rendering().subrange(0, 7) == "Signal("@
                &&& r.rendering().last() == ')'
            },
            ShutdownReason::Requested => r.rendering() == "Requested"@,
            ShutdownReason::Forced => r.rendering() == "Forced"@,
            ShutdownReason::Timeout => r.rendering() == "Timeout"@,
            ShutdownReason::Error => r.rendering() == "Error"@,
        },
{
    if let ShutdownReason::Signal(s) = r {
        reveal_strlit("Signal(");
        reveal_strlit(")");
        let d = s.description_text();
        assert(r.rendering().subrange(0, 7) =~= "Signal("@);
    }
}

} // verus!
