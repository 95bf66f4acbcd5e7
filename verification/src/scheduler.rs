//! The fixed-interval refresh timer.
//!
//! Its one subtlety is the missed-tick policy: when the worker stalls past
//! one period, the next poll fires a single catch-up tick and the cadence
//! restarts from the moment of that tick — it never fires a burst of make-up
//! ticks.

use vstd::prelude::*;

use crate::intent::Intent;
use crate::queue::CommandQueue;
use crate::queue::SubmitError;

verus! {

/// What one serving of the timer did.
#[derive(Clone, Copy, PartialEq, Eq, Structural, Debug)]
pub enum TickOutcome {
    /// The period has not elapsed; nothing happened.
    Quiet,
    /// The period elapsed and a refresh intent was enqueued.
    Scheduled,
    /// The period elapsed but the queue refused the intent; it was dropped
    /// rather than letting the timer stall.
    Dropped,
}

/// Whether a timer with this deadline is due at `now`.
pub open spec fn spec_due(next_deadline: u64, now: u64) -> bool {
    now >= next_deadline
}

/// A fixed-period timer, re-armed one full period past the moment it is
/// served — the "delay" missed-tick policy.
pub struct RefreshScheduler {
    period: u64,
    next_deadline: u64,
}

impl RefreshScheduler {
    /// The fixed period, in the caller's clock units.
    pub closed spec fn spec_period(&self) -> u64 {
        self.period
    }

    /// When the timer next fires.
    pub closed spec fn spec_deadline(&self) -> u64 {
        self.next_deadline
    }

    /// A timer that first fires one period from `now`.
    pub fn new(period: u64, now: u64) -> (s: RefreshScheduler)
        requires
            0 < period,
            now + period <= u64::MAX,
        ensures
            s.spec_period() == period,
            s.spec_deadline() == now + period,
    {
        RefreshScheduler { period, next_deadline: now + period }
    }

    /// Serve the timer at time `now`. It fires exactly when the deadline has
    /// passed — however long ago — and then re-arms one full period past
    /// `now`, so a stall yields one catch-up tick, never a burst.
    pub fn poll(&mut self, now: u64) -> (fired: bool)
        requires
            now + old(self).spec_period() <= u64::MAX,
        ensures
            fired == spec_due(old(self).spec_deadline(), now),
            fired ==> final(self).spec_deadline() == now + old(self).spec_period(),
            !fired ==> final(self).spec_deadline() == old(self).spec_deadline(),
            final(self).spec_period() == old(self).spec_period(),
    {
        if now >= self.next_deadline {
            self.next_deadline = now + self.period;
            true
        } else {
            false
        }
    }

    /// Serve the timer and, when it fires, enqueue one `RefreshCurrent`
    /// intent. A refusal by the queue drops the intent — the timer is never
    /// allowed to stall on submission.
    pub fn tick(&mut self, now: u64, queue: &mut CommandQueue) -> (outcome: TickOutcome)
        requires
            now + old(self).spec_period() <= u64::MAX,
        ensures
            outcome == TickOutcome::Quiet <==> !spec_due(old(self).spec_deadline(), now),
            outcome == TickOutcome::Quiet ==> final(self).spec_deadline()
                == old(self).spec_deadline(),
            spec_due(old(self).spec_deadline(), now) ==> final(self).spec_deadline()
                == now + old(self).spec_period(),
            outcome == TickOutcome::Scheduled <==> spec_due(old(self).spec_deadline(), now)
                && !old(queue).spec_closed()
                && old(queue).spec_items().len() < old(queue).spec_capacity(),
            outcome == TickOutcome::Scheduled ==> final(queue).spec_items()
                == old(queue).spec_items().push(Intent::RefreshCurrent),
            outcome != TickOutcome::Scheduled ==> final(queue).spec_items()
                == old(queue).spec_items(),
            final(self).spec_period() == old(self).spec_period(),
            final(queue).spec_capacity() == old(queue).spec_capacity(),
            final(queue).spec_closed() == old(queue).spec_closed(),
    {
        if self.poll(now) {
            match queue.submit(Intent::RefreshCurrent) {
                Ok(()) => TickOutcome::Scheduled,
                Err(SubmitError::Full) => TickOutcome::Dropped,
                Err(SubmitError::Closed) => TickOutcome::Dropped,
            }
        } else {
            TickOutcome::Quiet
        }
    }
}

/// However late a stalled timer is served — three periods late or thirty —
/// the serving that fires re-arms one full period ahead, so nothing more
/// fires until that period has passed: exactly one catch-up tick, not a
/// burst of make-up ticks.
pub proof fn lemma_stall_yields_one_catchup(deadline: u64, period: u64, fire_time: u64, later: u64)
    requires
        spec_due(deadline, fire_time),
        fire_time + period <= u64::MAX,
        fire_time <= later < fire_time + period,
    ensures
        !spec_due((fire_time + period) as u64, later),
{
}

} // verus!
