//! Countdown timers for one virtual router.
//!
//! Each worker owns one pair of timers keyed by [`crate::fsm::TimerKind`]:
//! the Advertisement timer (armed in Master) and the Master_Down timer
//! (armed in Backup). Deadlines are instants on the worker's monotonic
//! clock, in ticks of 1/256 s; the worker sleeps until the nearest
//! expiry and feeds the expired kind back into the state machine.

use vstd::prelude::*;
use crate::fsm::TimerKind;

verus! {

/// The two timer slots of one virtual router; `None` means not armed.
pub struct Timers {
    pub advert: Option<u64>,
    pub master_down: Option<u64>,
}

impl Timers {
    /// Fresh timers, both disarmed.
    pub fn new() -> (r: Timers)
        ensures
            r.advert is None,
            r.master_down is None,
    {
        Timers { advert: None, master_down: None }
    }

    /// Arm (or re-arm) one timer at an absolute deadline; the other slot
    /// keeps its value.
    pub fn set(&mut self, kind: TimerKind, deadline: u64)
        ensures
            final(self).advert == (if kind is Advert { Some(deadline) } else { old(self).advert }),
            final(self).master_down == (if kind is MasterDown {
                Some(deadline)
            } else {
                old(self).master_down
            }),
    {
        match kind {
            TimerKind::Advert => {
                self.advert = Some(deadline);
            },
            TimerKind::MasterDown => {
                self.master_down = Some(deadline);
            },
        }
    }

    /// Disarm one timer; the other slot keeps its value.
    pub fn cancel(&mut self, kind: TimerKind)
        ensures
            final(self).advert == (if kind is Advert { None } else { old(self).advert }),
            final(self).master_down == (if kind is MasterDown {
                None
            } else {
                old(self).master_down
            }),
    {
        match kind {
            TimerKind::Advert => {
                self.advert = None;
            },
            TimerKind::MasterDown => {
                self.master_down = None;
            },
        }
    }

    /// The nearest armed deadline and its kind, if any; on a tie the
    /// Advertisement timer is reported first.
    pub fn next_expiry(&self) -> (r: Option<(TimerKind, u64)>)
        ensures
            r is None <==> (self.advert is None && self.master_down is None),
            r matches Some((k, d)) ==> {
                &&& (k is Advert ==> self.advert == Some(d))
                &&& (k is MasterDown ==> self.master_down == Some(d))
                &&& (self.advert matches Some(a) ==> d <= a)
                &&& (self.master_down matches Some(m) ==> d <= m)
                &&& (k is MasterDown ==> (self.advert matches Some(a) ==> d < a))
            },
    {
        match (self.advert, self.master_down) {
            (Some(a), Some(m)) => {
                if a <= m {
                    Some((TimerKind::Advert, a))
                } else {
                    Some((TimerKind::MasterDown, m))
                }
            },
            (Some(a), None) => Some((TimerKind::Advert, a)),
            (None, Some(m)) => Some((TimerKind::MasterDown, m)),
            (None, None) => None,
        }
    }
}

} // verus!
