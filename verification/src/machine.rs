//! The probe loop as a state machine. The loop cycles through
//! `Idle -> Probing -> Reporting -> Sleeping -> Probing` forever; each
//! step hands the caller the one action to perform next. The caller does
//! the outside work — connect, print, sleep — and drives the machine with
//! the result, so every decision here is checked and tests can stop the
//! loop deterministically.

use vstd::prelude::*;
use crate::probe::ProbeResult;

verus! {

/// Where the loop stands.
#[derive(Clone, Copy, Debug, PartialEq, Eq, Structural)]
pub enum LoopState {
    /// Not started yet.
    Idle,
    /// A probe is in flight.
    Probing,
    /// A probe finished; its outcome must be reported.
    Reporting,
    /// The report went out; the loop blocks for the interval.
    Sleeping,
}

/// What the caller must do next.
#[derive(Clone, Copy, Debug, PartialEq, Eq, Structural)]
pub enum LoopAction {
    /// Resolve the target and attempt one timed connect.
    Probe,
    /// Emit the report line for this outcome.
    Report { outcome: ProbeResult },
    /// Block for the configured interval.
    Sleep,
}

/// The probe loop's driver. It never reaches a terminal state: every
/// state has exactly one step out, and the steps cycle forever.
pub struct Prober {
    pub state: LoopState,
}

impl Prober {
    /// A fresh prober, not yet started.
    pub fn new() -> (p: Prober)
        ensures
            p.state is Idle,
    {
        Prober { state: LoopState::Idle }
    }

    /// Leave `Idle`: the first probe fires at once.
    pub fn start(&mut self) -> (a: LoopAction)
        requires
            old(self).state is Idle,
        ensures
            final(self).state is Probing,
            a is Probe,
    {
        self.state = LoopState::Probing;
        LoopAction::Probe
    }

    /// The probe in flight finished with `outcome`. The outcome is handed
    /// on unchanged: what was measured is what gets reported.
    pub fn finish_probe(&mut self, outcome: ProbeResult) -> (a: LoopAction)
        requires
            old(self).state is Probing,
        ensures
            final(self).state is Reporting,
            a == (LoopAction::Report { outcome }),
    {
        self.state = LoopState::Reporting;
        LoopAction::Report { outcome }
    }

    /// The report line went out. Every report — success or failure — is
    /// followed by a sleep, never directly by the next probe: the
    /// interval is a fixed delay after each probe completes.
    pub fn finish_report(&mut self) -> (a: LoopAction)
        requires
            old(self).state is Reporting,
        ensures
            final(self).state is Sleeping,
            a is Sleep,
    {
        self.state = LoopState::Sleeping;
        LoopAction::Sleep
    }

    /// The interval elapsed: the next probe fires immediately. No failure
    /// is fatal; the loop continues whatever the last outcome was.
    pub fn finish_sleep(&mut self) -> (a: LoopAction)
        requires
            old(self).state is Sleeping,
        ensures
            final(self).state is Probing,
            a is Probe,
    {
        self.state = LoopState::Probing;
        LoopAction::Probe
    }
}

} // verus!
