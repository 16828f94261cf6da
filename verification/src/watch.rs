//! Watcher behaviour: the polling clock with skip-on-missed-tick semantics,
//! and the per-tick decisions of the two watcher kinds.
//!
//! A watcher is a long-lived background task that re-issues one read-only
//! remote query on an interval and streams its results as notifications. The
//! surrounding task loop owns the timer and the network wait; the decisions —
//! when a tick is due, what a poll result means — are here.

use crate::errors::{RemoteError, ERR_CODE_NOT_FOUND};
use crate::notify::UiCommand;
use crate::registry::CorrelationId;
use crate::route::{call_shape, str_owned, Payload, RemoteCall};
use vstd::arithmetic::div_mod::{
    lemma_fundamental_div_mod, lemma_mod_bound, lemma_mod_multiples_basic,
};
use vstd::arithmetic::mul::{lemma_mul_is_commutative, lemma_mul_is_distributive_add_other_way};
use vstd::prelude::*;

verus! {

/// An interval clock with skip-on-missed-tick behaviour: ticks stay aligned
/// to the start time, a late poll fires once and the missed ticks are
/// skipped, never replayed in a burst.
pub struct TickClock {
    pub start: u64,
    pub period: u64,
    pub next: u64,
}

impl TickClock {
    /// The clock's invariant: ticks are aligned to the start time.
    pub open spec fn wf(&self) -> bool {
        &&& self.period > 0
        &&& self.next >= self.start
        &&& (self.next - self.start) % (self.period as int) == 0
    }

    /// A clock started at `now`: the first tick is due immediately.
    pub fn new(now: u64, period_ms: u64) -> (c: TickClock)
        requires
            period_ms > 0,
        ensures
            c.wf(),
            c.start == now,
            c.period == period_ms,
            c.next == now,
    {
        proof {
            lemma_mod_multiples_basic(0int, period_ms as int);
        }
        TickClock { start: now, period: period_ms, next: now }
    }

    /// One poll of the clock at time `now`: fires exactly when the deadline
    /// has been reached, and then schedules the next tick for the first
    /// aligned instant strictly after `now` — at most one period away, so
    /// missed ticks are skipped rather than queued.
    pub fn poll(&mut self, now: u64) -> (fired: bool)
        requires
            old(self).wf(),
            now <= u64::MAX - old(self).period,
        ensures
            final(self).wf(),
            final(self).start == old(self).start,
            final(self).period == old(self).period,
            fired == (now >= old(self).next),
            !fired ==> *final(self) == *old(self),
            fired ==> final(self).next > now,
            fired ==> final(self).next <= now + old(self).period,
    {
        if now < self.next {
            return false;
        }
        let elapsed = now - self.start;
        let q = elapsed / self.period;
        proof {
            lemma_fundamental_div_mod(elapsed as int, self.period as int);
            lemma_mod_bound(elapsed as int, self.period as int);
            lemma_mul_is_distributive_add_other_way(
                self.period as int,
                q as int,
                1int,
            );
            lemma_mul_is_commutative(q as int, self.period as int);
            assert((q as int + 1) * (self.period as int) == elapsed as int - (elapsed as int)
                % (self.period as int) + self.period as int);
            lemma_mod_multiples_basic(q as int + 1, self.period as int);
        }
        self.next = self.start + (q + 1) * self.period;
        true
    }
}

/// The item watcher's fixed poll call: the current state of its object.
pub fn item_poll_call<V>(node: &String, oid: &String) -> (c: RemoteCall<V>)
    ensures
        call_shape(c, *node, "eva.core"@, "item.state"@, Payload::<V>::Id(*oid)),
{
    RemoteCall {
        node: node.clone(),
        target: str_owned("eva.core"),
        method: str_owned("item.state"),
        payload: Payload::Id(oid.clone()),
    }
}

/// The action watcher's fixed poll call: the result record of its action id.
pub fn action_poll_call<V>(node: &String, action_uuid: CorrelationId) -> (c: RemoteCall<V>)
    ensures
        call_shape(c, *node, "eva.core"@, "action.result"@, Payload::<V>::Uuid(action_uuid)),
{
    RemoteCall {
        node: node.clone(),
        target: str_owned("eva.core"),
        method: str_owned("action.result"),
        payload: Payload::Uuid(action_uuid),
    }
}

/// What one watcher tick does after its poll returned.
#[derive(Debug, PartialEq)]
pub enum WatchStep<V> {
    /// Emit the notification and keep polling.
    Notify(UiCommand<V>),
    /// Emit nothing and keep polling (transient-failure tolerance).
    Silent,
    /// Emit the notification and stop the watcher.
    NotifyStop(UiCommand<V>),
}

/// The item watcher's decision on one poll result: a value is forwarded as a
/// tick notification; a failed poll is skipped and the watcher keeps polling.
pub fn item_watch_step<V>(u: CorrelationId, poll: Result<V, RemoteError>) -> (r: WatchStep<V>)
    ensures
        match poll {
            Ok(v) => r == WatchStep::Notify(UiCommand::ProcessItemWatch(u, v)),
            Err(_) => r == WatchStep::<V>::Silent,
        },
{
    match poll {
        Ok(v) => WatchStep::Notify(UiCommand::ProcessItemWatch(u, v)),
        Err(_) => WatchStep::Silent,
    }
}

/// The action watcher's decision on one poll result: a result is forwarded as
/// a tick notification; a not-found failure is the sentinel meaning the
/// action record was purged — it is forwarded as exactly one explicit void
/// notification (not as an error) and the watcher stops; any other failure is
/// skipped and the watcher keeps polling.
pub fn action_watch_step<V>(u: CorrelationId, poll: Result<V, RemoteError>) -> (r: WatchStep<V>)
    ensures
        match poll {
            Ok(v) => r == WatchStep::Notify(UiCommand::ProcessActionWatch(u, Some(v))),
            Err(e) => if e.code == ERR_CODE_NOT_FOUND {
                r == WatchStep::NotifyStop(UiCommand::<V>::ProcessActionWatch(u, None))
            } else {
                r == WatchStep::<V>::Silent
            },
        },
{
    match poll {
        Ok(v) => WatchStep::Notify(UiCommand::ProcessActionWatch(u, Some(v))),
        Err(e) => {
            if e.is_not_found() {
                WatchStep::NotifyStop(UiCommand::ProcessActionWatch(u, None))
            } else {
                WatchStep::Silent
            }
        },
    }
}

} // verus!
