//! The two timed phases and their strict alternation.

use vstd::prelude::*;

verus! {

/// Seconds of work before the alert sounds.
pub const WORK_SECS: u64 = 1500;

/// Seconds of break before the alert sounds.
pub const BREAK_SECS: u64 = 600;

/// One of the two timed intervals the scheduler cycles through.
#[derive(Clone, Copy, Debug, PartialEq, Eq, Structural)]
pub enum Phase {
    Work,
    Break,
}

/// The sound asset a phase's end is announced with.
#[derive(Clone, Copy, Debug, PartialEq, Eq, Structural)]
pub enum AlertSound {
    WorkEnd,
    BreakEnd,
}

impl Phase {
    /// The phase that follows this one; the cycle has no terminal state.
    pub open spec fn spec_next(self) -> Phase {
        match self {
            Phase::Work => Phase::Break,
            Phase::Break => Phase::Work,
        }
    }

    /// How long this phase lasts, in seconds.
    pub open spec fn spec_duration_secs(self) -> u64 {
        match self {
            Phase::Work => WORK_SECS,
            Phase::Break => BREAK_SECS,
        }
    }

    /// The sound that announces this phase's end.
    pub open spec fn spec_alert_sound(self) -> AlertSound {
        match self {
            Phase::Work => AlertSound::WorkEnd,
            Phase::Break => AlertSound::BreakEnd,
        }
    }

    pub fn next(self) -> (r: Phase)
        ensures
            r == self.spec_next(),
    {
        match self {
            Phase::Work => Phase::Break,
            Phase::Break => Phase::Work,
        }
    }

    pub fn duration_secs(self) -> (r: u64)
        ensures
            r == self.spec_duration_secs(),
    {
        match self {
            Phase::Work => WORK_SECS,
            Phase::Break => BREAK_SECS,
        }
    }

    pub fn alert_sound(self) -> (r: AlertSound)
        ensures
            r == self.spec_alert_sound(),
    {
        match self {
            Phase::Work => AlertSound::WorkEnd,
            Phase::Break => AlertSound::BreakEnd,
        }
    }
}

/// The phase reached after `n` completed phases, starting from `start`.
pub open spec fn phase_after(start: Phase, n: nat) -> Phase
    decreases n,
{
    if n == 0 {
        start
    } else {
        phase_after(start, (n - 1) as nat).spec_next()
    }
}

/// However many phases have been completed, the next phase always differs
/// from the current one: the cycle strictly alternates work and break, with
/// no two consecutive identical phases.
pub proof fn lemma_phases_alternate(start: Phase, n: nat)
    ensures
        phase_after(start, n + 1) != phase_after(start, n),
{
}

/// Every second completed phase returns to where the cycle stood: the cycle
/// visits no state other than the two phases, forever.
pub proof fn lemma_cycle_period_two(start: Phase, n: nat)
    ensures
        phase_after(start, n + 2) == phase_after(start, n),
{
    assert(phase_after(start, n + 2) == phase_after(start, n + 1).spec_next());
    assert(phase_after(start, n + 1) == phase_after(start, n).spec_next());
}

} // verus!
