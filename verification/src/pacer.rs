//! Pacing gate for outbound calls.
//!
//! The remote service accepts at most one call per credential within a
//! fixed minimum interval.  The pacer keeps the timestamp of the last
//! dispatched call and, for each new call, computes the earliest instant
//! at which it may go out.  The caller (which owns the clock and the
//! transport) sleeps until that instant, dispatches, and reports the
//! outcome back; a "too soon" signal from the remote resets the stamp and
//! asks for one retry of the same request.
//!
//! Timestamps are plain milliseconds on a monotonic clock owned by the
//! caller.

use vstd::prelude::*;

verus! {

/// Minimum number of milliseconds the remote service demands between two
/// consecutive calls made with one credential.
pub const MIN_INTERVAL_MS: u64 = 30000;

/// HTTP status with which the remote signals that the minimum interval
/// was not kept.
pub const STATUS_TOO_SOON: u16 = 409;

/// What the caller must do with the response it just received.
#[derive(Clone, Copy, PartialEq, Eq, Structural, Debug)]
pub enum PacerAction {
    /// The remote signalled "too soon": dispatch the same request again.
    Retry,
    /// Hand the response to the caller as it is.
    Surface,
}

/// The instant a call may be dispatched at, given the stamp of the last
/// dispatched call and the current instant: the later of `now` and
/// `last + MIN_INTERVAL_MS`.
pub open spec fn spec_next_dispatch(last: u64, now: u64) -> int {
    if now >= last + MIN_INTERVAL_MS {
        now as int
    } else {
        last + MIN_INTERVAL_MS
    }
}

/// Serializes outbound calls for one credential: remembers when the last
/// call was dispatched and refuses to dispatch the next one earlier than
/// the minimum interval after it.
pub struct Pacer {
    last_dispatch: u64,
}

impl Pacer {
    /// The stamp of the last dispatched call.
    pub closed spec fn last(&self) -> u64 {
        self.last_dispatch
    }

    /// A fresh pacer lets its first call go out immediately: the stamp is
    /// backdated one full interval from `now`.
    pub fn new(now: u64) -> (p: Pacer)
        ensures
            p.last() == if now >= MIN_INTERVAL_MS {
                (now - MIN_INTERVAL_MS) as int
            } else {
                0int
            },
    {
        let last: u64 = if now >= MIN_INTERVAL_MS {
            now - MIN_INTERVAL_MS
        } else {
            0
        };
        Pacer { last_dispatch: last }
    }

    /// Plans the next call: returns the instant to dispatch at and stamps
    /// the pacer with that instant (the deadline, not the instant the
    /// caller wakes at, so that scheduler jitter does not drift the pace).
    /// The caller must wait until the returned instant before dispatching.
    pub fn plan_dispatch(&mut self, now: u64) -> (t: u64)
        requires
            old(self).last() + MIN_INTERVAL_MS <= u64::MAX,
        ensures
            t == spec_next_dispatch(old(self).last(), now),
            final(self).last() == t,
            t >= now,
    {
        let next_allowed: u64 = self.last_dispatch + MIN_INTERVAL_MS;
        let t: u64 = if now >= next_allowed { now } else { next_allowed };
        self.last_dispatch = t;
        t
    }

    /// Classifies the status of a dispatched call: on the "too soon"
    /// status the stamp is reset to the current instant and the same
    /// request must be dispatched once more; every other status is
    /// surfaced to the caller untouched, with the pacer unchanged.
    pub fn after_dispatch(&mut self, now: u64, status: u16) -> (a: PacerAction)
        ensures
            status == STATUS_TOO_SOON ==> a == PacerAction::Retry && final(self).last() == now,
            status != STATUS_TOO_SOON ==> a == PacerAction::Surface && final(self).last() == old(self).last(),
    {
        if status == STATUS_TOO_SOON {
            self.last_dispatch = now;
            PacerAction::Retry
        } else {
            PacerAction::Surface
        }
    }
}

/// Two calls planned back to back on one pacer never dispatch closer
/// together than the minimum interval: whatever instant the second call
/// is planned at, it lies at least `MIN_INTERVAL_MS` after the first.
pub proof fn lemma_paced_calls_keep_interval(last: u64, now1: u64, now2: u64)
    requires
        spec_next_dispatch(last, now1) + MIN_INTERVAL_MS <= u64::MAX,
    ensures
        spec_next_dispatch(spec_next_dispatch(last, now1) as u64, now2)
            >= spec_next_dispatch(last, now1) + MIN_INTERVAL_MS,
{
}

} // verus!
