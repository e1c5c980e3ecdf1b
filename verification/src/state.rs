//! The shutdown state machine shared by observers and initiators, and
//! the install state machine of a coordinator.

use std::time::{Duration, Instant};

use vstd::prelude::*;

use crate::clock;
use crate::coord::Statistics;
use crate::error::Error;
use crate::reason::ShutdownReason;

verus! {

/// One trigger applied to the recorded reason: the reason afterwards,
/// and whether this trigger performed the transition. Only the first
/// trigger records its reason.
pub open spec fn trigger_step(current: Option<ShutdownReason>, reason: ShutdownReason) -> (
    Option<ShutdownReason>,
    bool,
) {
    match current {
        None => (Some(reason), true),
        Some(r) => (Some(r), false),
    }
}

/// The recorded reason after applying `reasons` in turn.
pub open spec fn after_triggers(current: Option<ShutdownReason>, reasons: Seq<ShutdownReason>) -> Option<
    ShutdownReason,
>
    decreases reasons.len(),
{
    if reasons.len() == 0 {
        current
    } else {
        after_triggers(trigger_step(current, reasons[0]).0, reasons.drop_first())
    }
}

/// What each trigger of `reasons`, applied in turn, returns.
pub open spec fn trigger_results(current: Option<ShutdownReason>, reasons: Seq<ShutdownReason>) -> Seq<
    bool,
>
    decreases reasons.len(),
{
    if reasons.len() == 0 {
        seq![]
    } else {
        let (next, won) = trigger_step(current, reasons[0]);
        seq![won] + trigger_results(next, reasons.drop_first())
    }
}

/// The record behind every shutdown token and trigger of one
/// coordinator: whether shutdown was initiated, why, and when.
#[derive(Debug)]
pub struct ShutdownState {
    reason: Option<ShutdownReason>,
    since: Option<Instant>,
}

/// What a blocked waiter does next.
#[derive(Debug, Clone, Copy, PartialEq, Eq, Structural)]
pub enum WaitStep {
    /// Shutdown has been initiated: stop waiting and report it.
    Observed,
    /// The budget is spent: stop waiting and report a timeout.
    Expired,
    /// Keep waiting.
    Wait,
}

impl ShutdownState {
    /// A reason is recorded exactly when a time is.
    #[verifier::type_invariant]
    spec fn consistent(self) -> bool {
        self.reason.is_some() == self.since.is_some()
    }

    /// The reason recorded by the first trigger, if any.
    pub closed spec fn recorded(&self) -> Option<ShutdownReason> {
        self.reason
    }

    /// The moment shutdown was initiated, if it was.
    pub closed spec fn started_at(&self) -> Option<Instant> {
        self.since
    }

    /// Whether shutdown has been initiated.
    pub open spec fn initiated(&self) -> bool {
        self.recorded() is Some
    }

    /// A state in which shutdown has not been initiated.
    pub fn new() -> (s: Self)
        ensures
            s.recorded() is None,
            s.started_at() is None,
    {
        ShutdownState { reason: None, since: None }
    }

    /// `true` if shutdown has been initiated.
    pub fn is_initiated(&self) -> (r: bool)
        ensures
            r == self.initiated(),
    {
        self.reason.is_some()
    }

    /// Reason for the shutdown, if one has been initiated.
    pub fn reason(&self) -> (r: Option<ShutdownReason>)
        ensures
            r == self.recorded(),
    {
        self.reason
    }

    /// Initiate shutdown with the given reason, recording the current
    /// time. Returns `true` if this call performed the transition;
    /// `false` if shutdown was already initiated, in which case the
    /// first reason stays.
    pub fn trigger(&mut self, reason: ShutdownReason) -> (r: bool)
        ensures
            (final(self).recorded(), r) == trigger_step(old(self).recorded(), reason),
            old(self).initiated() ==> final(self).started_at() == old(self).started_at(),
            final(self).started_at() is Some,
    {
        proof {
            use_type_invariant(&*self);
        }
        if self.reason.is_none() {
            let t = clock::now();
            *self = ShutdownState { reason: Some(reason), since: Some(t) };
            true
        } else {
            false
        }
    }

    /// What the elapsed time reads at the instant `now`: the time from
    /// the start of the shutdown to `now`, if it has started.
    pub open spec fn elapsed_at(&self, now: Instant) -> Option<Duration> {
        match self.started_at() {
            Some(start) => Some(clock::duration_between(now, start)),
            None => None,
        }
    }

    /// Wall-clock time since shutdown was initiated; `None` before. The
    /// current instant is read once, and the time from the start of
    /// the shutdown to it is returned.
    pub fn elapsed(&self) -> (r: Option<Duration>)
        ensures
            r is Some == self.initiated(),
            exists|now: Instant| r == #[trigger] self.elapsed_at(now),
    {
        let now = clock::now();
        self.elapsed_until(&now)
    }

    /// The elapsed time as read at the instant `now`: the time from the
    /// start of the shutdown to `now`, or `None` before the shutdown.
    pub fn elapsed_until(&self, now: &Instant) -> (r: Option<Duration>)
        ensures
            r == self.elapsed_at(*now),
            r is Some == self.initiated(),
    {
        proof {
            use_type_invariant(self);
        }
        match &self.since {
            Some(t) => Some(clock::since(now, t)),
            None => None,
        }
    }

    /// What a waiter bounded by a budget does next, given whether the
    /// budget is spent: a shutdown already initiated is reported even
    /// when the budget is spent.
    pub fn wait_step(&self, out_of_time: bool) -> (r: WaitStep)
        ensures
            r == (if self.initiated() {
                WaitStep::Observed
            } else if out_of_time {
                WaitStep::Expired
            } else {
                WaitStep::Wait
            }),
    {
        if self.reason.is_some() {
            WaitStep::Observed
        } else if out_of_time {
            WaitStep::Expired
        } else {
            WaitStep::Wait
        }
    }

    /// Snapshot of the shutdown state together with the hook counts.
    pub fn statistics(&self, hooks_registered: usize, hooks_completed: usize) -> (s: Statistics)
        ensures
            s.initiated == self.initiated(),
            s.reason == self.recorded(),
            s.hooks_registered == hooks_registered,
            s.hooks_completed == hooks_completed,
            s.elapsed is Some == self.initiated(),
            exists|now: Instant| s.elapsed == #[trigger] self.elapsed_at(now),
    {
        Statistics {
            initiated: self.is_initiated(),
            reason: self.reason(),
            hooks_registered,
            hooks_completed,
            elapsed: self.elapsed(),
        }
    }
}

/// The first of any sequence of triggers on a fresh state performs
/// the transition and records its reason; every later one returns
/// `false` and leaves that reason in place. On a state already
/// initiated, no trigger changes anything.
pub proof fn law_first_trigger_wins(current: Option<ShutdownReason>, reasons: Seq<ShutdownReason>)
    ensures
        trigger_results(current, reasons).len() == reasons.len(),
        current is None && reasons.len() > 0 ==> trigger_results(current, reasons)[0]
            && after_triggers(current, reasons) == Some(reasons[0]),
        current is Some ==> after_triggers(current, reasons) == current,
        forall|i: int|
            (current is Some && 0 <= i < reasons.len()) || (0 < i < reasons.len()) ==> !(
            #[trigger] trigger_results(current, reasons)[i]),
    decreases reasons.len(),
{
    if reasons.len() > 0 {
        let next = trigger_step(current, reasons[0]).0;
        let rest = reasons.drop_first();
        law_first_trigger_wins(next, rest);
        assert forall|i: int|
            (current is Some && 0 <= i < reasons.len()) || (0 < i < reasons.len()) implies !(
            #[trigger] trigger_results(current, reasons)[i]) by {
            if i > 0 {
                assert(trigger_results(current, reasons)[i] == trigger_results(next, rest)[i - 1]);
            }
        }
    }
}

/// Claiming an installation on a coordinator that holds one (`true`)
/// or not: whether it holds one afterwards, and whether the claim was
/// accepted.
pub open spec fn install_begin(installed: bool) -> (bool, bool) {
    (true, !installed)
}

/// Recording the outcome of an installation: a coordinator holds one
/// afterwards exactly when it succeeded.
pub open spec fn install_finish(succeeded: bool) -> bool {
    succeeded
}

/// Whether a coordinator has signal handlers installed.
#[derive(Debug)]
pub struct InstallState {
    installed: bool,
}

impl InstallState {
    /// Whether handlers are installed (or being installed).
    pub closed spec fn holds(&self) -> bool {
        self.installed
    }

    /// No handlers installed.
    pub fn new() -> (s: Self)
        ensures
            !s.holds(),
    {
        InstallState { installed: false }
    }

    /// `true` once an install has begun and has not failed.
    pub fn is_installed(&self) -> (r: bool)
        ensures
            r == self.holds(),
    {
        self.installed
    }

    /// Claim the installation. A second claim is rejected with
    /// [`Error::AlreadyInstalled`] and changes nothing.
    pub fn begin(&mut self) -> (r: Result<(), Error>)
        ensures
            (final(self).holds(), r is Ok) == install_begin(old(self).holds()),
            r is Err ==> r matches Err(Error::AlreadyInstalled),
    {
        if self.installed {
            Err(Error::AlreadyInstalled)
        } else {
            self.installed = true;
            Ok(())
        }
    }

    /// Record the outcome of the installation begun by [`begin`]:
    /// a failure releases the claim so that a later install may try
    /// again. Returns the outcome.
    ///
    /// [`begin`]: InstallState::begin
    pub fn finish(&mut self, outcome: Result<(), Error>) -> (r: Result<(), Error>)
        ensures
            final(self).holds() == install_finish(outcome is Ok),
            r == outcome,
    {
        if outcome.is_err() {
            self.installed = false;
        } else {
            self.installed = true;
        }
        outcome
    }
}

/// Installing on a coordinator that holds an installation is rejected
/// and leaves it installed; a first install is accepted. After an
/// accepted install finishes, the next install is accepted exactly
/// when the first one failed.
pub proof fn law_install_once(installed: bool, succeeded: bool)
    ensures
        installed ==> install_begin(installed) == (true, false),
        !installed ==> install_begin(installed) == (true, true),
        install_begin(install_finish(succeeded)).1 == !succeeded,
{
}

} // verus!
