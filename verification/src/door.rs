//! The door strike debounce policy.
//!
//! An open signal unlocks the strike for a fixed window.  Signals
//! arriving while the window is active extend it, measured from the
//! latest signal, so rapid repeated presentations merge into one
//! continuous unlocked interval instead of the strike audibly
//! relocking and reopening.  The strike relocks only after a full
//! quiet window.

use vstd::prelude::*;

verus! {

/// How long the strike stays unlocked after the latest signal, in
/// milliseconds.
pub const UNLOCK_WINDOW_MS: u64 = 2000;

/// What the strike driver must do after an event.
#[derive(Clone, Copy, Debug, PartialEq, Eq, Structural)]
pub enum DoorAction {
    /// Drive the strike high: the door opens.
    Unlock,
    /// Drive the strike low: the door relocks.
    Relock,
    /// Leave the strike as it is.
    Hold,
}

/// The actuator state: locked, or unlocked until a deadline.
#[derive(Clone, Copy, Debug, PartialEq, Eq, Structural)]
pub enum DoorState {
    Locked,
    Unlocked { until: u64 },
}

/// The effect of an open signal at time `now`: the window always
/// restarts at `now + UNLOCK_WINDOW_MS`; the strike is driven high
/// only if it was not already open, so signals within an active
/// window produce no relock/reopen edge.
pub open spec fn spec_signal(st: DoorState, now: u64) -> (DoorState, DoorAction) {
    let deadline = (now + UNLOCK_WINDOW_MS) as u64;
    match st {
        DoorState::Locked => (DoorState::Unlocked { until: deadline }, DoorAction::Unlock),
        DoorState::Unlocked { until } => if now < until {
            (DoorState::Unlocked { until: deadline }, DoorAction::Hold)
        } else {
            (DoorState::Unlocked { until: deadline }, DoorAction::Unlock)
        },
    }
}

/// The effect of time passing to `now`: once the window has expired
/// with no further signal, the strike relocks.
pub open spec fn spec_expire(st: DoorState, now: u64) -> (DoorState, DoorAction) {
    match st {
        DoorState::Locked => (DoorState::Locked, DoorAction::Hold),
        DoorState::Unlocked { until } => if now >= until {
            (DoorState::Locked, DoorAction::Relock)
        } else {
            (st, DoorAction::Hold)
        },
    }
}

/// The state machine that the door loop runs; the loop performs the
/// returned action on the strike line.
pub struct DoorActuator {
    pub state: DoorState,
}

impl DoorActuator {
    /// A locked door.
    pub fn new() -> (d: DoorActuator)
        ensures
            d.state == DoorState::Locked,
    {
        DoorActuator { state: DoorState::Locked }
    }

    /// An open signal (authorized entry, exit button, or remote
    /// override) at time `now`.
    pub fn signal_open(&mut self, now: u64) -> (a: DoorAction)
        requires
            now + UNLOCK_WINDOW_MS <= u64::MAX,
        ensures
            (final(self).state, a) == spec_signal(old(self).state, now),
    {
        let deadline = now + UNLOCK_WINDOW_MS;
        let was_open = match self.state {
            DoorState::Locked => false,
            DoorState::Unlocked { until } => now < until,
        };
        self.state = DoorState::Unlocked { until: deadline };
        if was_open {
            DoorAction::Hold
        } else {
            DoorAction::Unlock
        }
    }

    /// The clock reaching `now` with no further signal.
    pub fn expire(&mut self, now: u64) -> (a: DoorAction)
        ensures
            (final(self).state, a) == spec_expire(old(self).state, now),
    {
        match self.state {
            DoorState::Locked => DoorAction::Hold,
            DoorState::Unlocked { until } => {
                if now >= until {
                    self.state = DoorState::Locked;
                    DoorAction::Relock
                } else {
                    DoorAction::Hold
                }
            },
        }
    }
}

/// Two open signals within one unlock window produce a single
/// continuous unlocked interval: the second signal causes no relock
/// or reopen edge, and the interval ends a full window after the
/// *last* signal, not the first.
pub proof fn lemma_debounce(t1: u64, t2: u64)
    requires
        t1 <= t2,
        t2 < t1 + UNLOCK_WINDOW_MS,
        t2 + UNLOCK_WINDOW_MS <= u64::MAX,
    ensures
        ({
            let (st1, a1) = spec_signal(DoorState::Locked, t1);
            let (st2, a2) = spec_signal(st1, t2);
            &&& a1 == DoorAction::Unlock
            &&& a2 == DoorAction::Hold
            &&& st2 == (DoorState::Unlocked { until: (t2 + UNLOCK_WINDOW_MS) as u64 })
            &&& spec_expire(st2, (t2 + UNLOCK_WINDOW_MS) as u64).1 == DoorAction::Relock
        }),
{
}

} // verus!
