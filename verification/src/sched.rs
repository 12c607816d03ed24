//! The phase scheduler: an unbounded cycle of timed phases, each followed
//! by an alert that sounds until acknowledged.
//!
//! The scheduler itself runs on its own thread and does three things, each
//! once per polling interval: while a phase is timed it compares the clock
//! with the phase's deadline; at the deadline it raises the shared alert
//! flag (and, for a completed work phase, asks for a log record); while the
//! alert is pending it watches for the flag to fall, and only then begins
//! the next phase. There is no timeout and no early cancellation: without
//! an acknowledgment the scheduler waits forever, by design.

use vstd::prelude::*;
use crate::clock;
use crate::phase::AlertSound;
use crate::phase::Phase;
use crate::phase::WORK_SECS;

verus! {

/// `a + b`, capped at the top of the type's range. A deadline so late it
/// cannot be represented behaves as "never".
pub open spec fn spec_sat_add(a: u64, b: u64) -> u64 {
    if a + b <= u64::MAX {
        (a + b) as u64
    } else {
        u64::MAX
    }
}

fn sat_add(a: u64, b: u64) -> (r: u64)
    ensures
        r == spec_sat_add(a, b),
{
    if a <= u64::MAX - b {
        a + b
    } else {
        u64::MAX
    }
}

/// What the scheduler asks of its surroundings after one timing poll.
#[derive(Clone, Copy, Debug, PartialEq, Eq, Structural)]
pub enum TickAction {
    /// The deadline has not come: sleep one polling interval and poll
    /// again.
    KeepTiming,
    /// The deadline has come: raise the shared flag, append a log record
    /// if `log` says so, and sound `sound` until the flag falls.
    Alert { sound: AlertSound, log: bool },
}

/// What the scheduler asks of its surroundings after one look at the
/// shared flag while an alert is pending.
#[derive(Clone, Copy, Debug, PartialEq, Eq, Structural)]
pub enum WaitAction {
    /// The flag is still up: sleep one polling interval and look again.
    KeepWaiting,
    /// The flag has fallen: the next phase has begun and is being timed.
    BeginPhase,
}

/// The scheduler's whole state between two polls.
pub struct Scheduler {
    /// The phase being timed, or, while `alerting`, the phase just ended.
    pub phase: Phase,
    /// Whether the current phase has ended and its alert awaits
    /// acknowledgment.
    pub alerting: bool,
    /// The wall-clock second (since the epoch) at which the phase ends;
    /// meaningful while a phase is being timed.
    pub deadline: u64,
}

impl Scheduler {
    /// A fresh cycle: the work phase starts now and ends a work phase's
    /// length later.
    pub fn new(now: u64) -> (s: Scheduler)
        ensures
            s.phase == Phase::Work,
            !s.alerting,
            s.deadline == spec_sat_add(now, WORK_SECS),
    {
        Scheduler { phase: Phase::Work, alerting: false, deadline: sat_add(now, WORK_SECS) }
    }

    /// One timing poll at wall-clock time `now`. Before the deadline
    /// nothing changes and the scheduler keeps timing; at or past it the
    /// alert for the current phase begins — with a log record exactly when
    /// the completed phase is the work phase — and the scheduler turns to
    /// waiting for acknowledgment.
    pub fn on_tick(&mut self, now: u64) -> (a: TickAction)
        requires
            !old(self).alerting,
        ensures
            final(self).phase == old(self).phase,
            final(self).deadline == old(self).deadline,
            now >= old(self).deadline ==> final(self).alerting && a == (TickAction::Alert {
                sound: old(self).phase.spec_alert_sound(),
                log: old(self).phase == Phase::Work,
            }),
            now < old(self).deadline ==> *final(self) == *old(self) && a == TickAction::KeepTiming,
    {
        if now >= self.deadline {
            self.alerting = true;
            TickAction::Alert {
                sound: self.phase.alert_sound(),
                log: match self.phase {
                    Phase::Work => true,
                    Phase::Break => false,
                },
            }
        } else {
            TickAction::KeepTiming
        }
    }

    /// One look at the shared flag, read as `flag` at wall-clock time
    /// `now`, while an alert is pending. A raised flag changes nothing; a
    /// fallen flag means the alert was acknowledged, and the next phase
    /// begins at once with its own deadline computed from `now`.
    pub fn on_ack_wait(&mut self, flag: bool, now: u64) -> (a: WaitAction)
        requires
            old(self).alerting,
        ensures
            flag ==> *final(self) == *old(self) && a == WaitAction::KeepWaiting,
            !flag ==> {
                &&& final(self).phase == old(self).phase.spec_next()
                &&& !final(self).alerting
                &&& final(self).deadline == spec_sat_add(
                    now,
                    old(self).phase.spec_next().spec_duration_secs(),
                )
                &&& a == WaitAction::BeginPhase
            },
    {
        if flag {
            WaitAction::KeepWaiting
        } else {
            self.phase = self.phase.next();
            self.alerting = false;
            self.deadline = sat_add(now, self.phase.duration_secs());
            WaitAction::BeginPhase
        }
    }

    /// A fresh cycle started at the current wall-clock time.
    pub fn start() -> (s: Scheduler)
        ensures
            s.phase == Phase::Work,
            !s.alerting,
    {
        let now = clock::clock_secs();
        Scheduler::new(now)
    }

    /// One timing poll against the current wall-clock time. Whatever the
    /// clock read, the phase and deadline stand; the alert begins, for this
    /// phase and with its log decision, exactly when the action says so.
    pub fn tick(&mut self) -> (a: TickAction)
        requires
            !old(self).alerting,
        ensures
            final(self).phase == old(self).phase,
            final(self).deadline == old(self).deadline,
            a is KeepTiming ==> *final(self) == *old(self),
            a is Alert ==> final(self).alerting && a == (TickAction::Alert {
                sound: old(self).phase.spec_alert_sound(),
                log: old(self).phase == Phase::Work,
            }),
    {
        let now = clock::clock_secs();
        self.on_tick(now)
    }

    /// One look at the shared flag while an alert is pending, against the
    /// current wall-clock time. Whatever the clock read, a raised flag
    /// changes nothing, and a fallen one begins the next phase.
    pub fn ack_poll(&mut self, flag: bool) -> (a: WaitAction)
        requires
            old(self).alerting,
        ensures
            flag ==> *final(self) == *old(self) && a == WaitAction::KeepWaiting,
            !flag ==> {
                &&& final(self).phase == old(self).phase.spec_next()
                &&& !final(self).alerting
                &&& a == WaitAction::BeginPhase
            },
    {
        let now = clock::clock_secs();
        self.on_ack_wait(flag, now)
    }
}

} // verus!
