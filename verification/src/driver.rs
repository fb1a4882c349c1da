//! The event-loop driver's decision core: one owned object holding the
//! timer subsystem, the surface registry and the shutdown flag.
//!
//! The embedder runs the blocking poll and owns the window objects; each
//! tick it dispatches ready platform events, then calls
//! `handle_timer_event` to drain expired timers and resolve each against
//! the registry, runs the resulting deliveries (a delivery whose surface
//! is gone comes back in `stale`, to be logged and skipped), walks
//! `handles_iter` for the per-window deferred-task pass, re-arms its wake
//! source from `next_wakeup`, and exits once `should_exit` reports that
//! `quit` was called.  Everything the driver decides is a function of
//! plain values, verified here; only the poll and the callbacks themselves
//! stay outside.

use vstd::prelude::*;

use crate::registry::SurfaceRegistry;
use crate::registry::WindowHandle;
use crate::timer::Timer;
use crate::timer::TimerQueue;
use crate::timer::TimerToken;

verus! {

/// The bound on one blocking poll, in milliseconds: liveness is re-checked
/// at least this often even when no source signals.
pub const TICK_INTERVAL_MS: u64 = 16;

/// One timer delivery: the handle of the live owning window, and the token
/// it scheduled with.
#[derive(PartialEq, Eq, Clone, Copy, Debug, Structural)]
pub struct TimerDelivery {
    pub handle: WindowHandle,
    pub token: TimerToken,
}

/// What one timer tick hands the embedder: deliveries to live windows, in
/// deadline order, and expired timers whose owning surface is no longer
/// registered -- a stale reference is logged and skipped, never fatal,
/// since windows may close with timers in flight.
#[derive(PartialEq, Eq, Clone, Debug)]
pub struct TimerDispatch {
    pub deliveries: Vec<TimerDelivery>,
    pub stale: Vec<Timer>,
}

/// The leading timers of `s` with deadline strictly before `now`.
pub open spec fn spec_expired(s: Seq<Timer>, now: u64) -> Seq<Timer>
    decreases s.len(),
{
    if s.len() == 0 {
        Seq::empty()
    } else if s.first().deadline < now {
        seq![s.first()] + spec_expired(s.drop_first(), now)
    } else {
        Seq::empty()
    }
}

/// `s` without its leading timers whose deadline is strictly before `now`.
pub open spec fn spec_after_drain(s: Seq<Timer>, now: u64) -> Seq<Timer>
    decreases s.len(),
{
    if s.len() == 0 {
        s
    } else if s.first().deadline < now {
        spec_after_drain(s.drop_first(), now)
    } else {
        s
    }
}

/// The deliveries for a drained sequence: one per expired timer whose
/// surface is live in `entries`, in drained order, each carrying the
/// owner's handle and the timer's token.
pub open spec fn spec_deliveries(e: Seq<Timer>, entries: Map<u64, u64>) -> Seq<TimerDelivery>
    decreases e.len(),
{
    if e.len() == 0 {
        Seq::empty()
    } else {
        let init = spec_deliveries(e.drop_last(), entries);
        if entries.dom().contains(e.last().id) {
            init.push(
                (TimerDelivery {
                    handle: (WindowHandle { raw: entries[e.last().id] }),
                    token: e.last().token,
                }),
            )
        } else {
            init
        }
    }
}

/// The expired timers whose surface is gone from `entries`, in drained
/// order: the stale references that are logged and skipped.
pub open spec fn spec_stale(e: Seq<Timer>, entries: Map<u64, u64>) -> Seq<Timer>
    decreases e.len(),
{
    if e.len() == 0 {
        Seq::empty()
    } else {
        let init = spec_stale(e.drop_last(), entries);
        if entries.dom().contains(e.last().id) {
            init
        } else {
            init.push(e.last())
        }
    }
}

/// A drain split of a sorted pending sequence is exactly the take-while /
/// drop-while pair at `now`.
proof fn lemma_drain_is_take_while(
    pre: Seq<Timer>,
    drained: Seq<Timer>,
    remaining: Seq<Timer>,
    now: u64,
)
    requires
        drained + remaining == pre,
        forall|i: int| 0 <= i < drained.len() ==> (#[trigger] drained[i]).deadline < now,
        forall|i: int| 0 <= i < remaining.len() ==> (#[trigger] remaining[i]).deadline >= now,
    ensures
        drained == spec_expired(pre, now),
        remaining == spec_after_drain(pre, now),
    decreases pre.len(),
{
    if drained.len() == 0 {
        assert(remaining =~= pre);
        if pre.len() > 0 {
            assert(pre.first() == remaining[0]);
        }
        assert(drained =~= spec_expired(pre, now));
    } else {
        assert(pre.len() > 0);
        assert(pre.first() == drained[0]);
        assert(drained.drop_first() + remaining =~= pre.drop_first());
        lemma_drain_is_take_while(pre.drop_first(), drained.drop_first(), remaining, now);
        assert(drained =~= seq![pre.first()] + spec_expired(pre.drop_first(), now));
    }
}

/// The single-threaded event-loop driver state: the pending timers, the
/// live surfaces with their active stack, and the cooperative shutdown
/// flag, all owned by one object that the embedder passes into its
/// callbacks -- no global singleton.
pub struct EventLoopDriver {
    timers: TimerQueue,
    registry: SurfaceRegistry,
    shutdown: bool,
}

impl EventLoopDriver {
    /// The timer subsystem's state.
    pub closed spec fn timer_state(&self) -> TimerQueue {
        self.timers
    }

    /// The surface registry's state.
    pub closed spec fn registry_state(&self) -> SurfaceRegistry {
        self.registry
    }

    /// Whether `quit` has been called.
    pub closed spec fn is_shutdown(&self) -> bool {
        self.shutdown
    }

    /// Driver invariant: both subsystems well-formed.
    pub open spec fn wf(&self) -> bool {
        &&& self.timer_state().wf()
        &&& self.registry_state().wf()
    }

    /// A fresh driver: no timers, no surfaces, not shut down.
    pub fn new() -> (r: EventLoopDriver)
        ensures
            r.wf(),
            !r.is_shutdown(),
            r.timer_state().pending() == Seq::<Timer>::empty(),
            r.timer_state().spec_next_token() == 1,
            r.registry_state().entries() == Map::<u64, u64>::empty(),
            r.registry_state().stack() == Seq::<u64>::empty(),
    {
        EventLoopDriver {
            timers: TimerQueue::new(),
            registry: SurfaceRegistry::new(),
            shutdown: false,
        }
    }

    /// Request shutdown: the loop exits at the end of the current tick.
    /// Idempotent -- calling it again changes nothing further.
    pub fn quit(&mut self)
        ensures
            final(self).is_shutdown(),
            final(self).timer_state() == old(self).timer_state(),
            final(self).registry_state() == old(self).registry_state(),
    {
        self.shutdown = true;
    }

    /// Whether the loop should exit: checked once per tick, after
    /// dispatch.
    pub fn should_exit(&self) -> (r: bool)
        ensures
            r == self.is_shutdown(),
    {
        self.shutdown
    }

    /// Whether another timer can still be scheduled: the token counter has
    /// not been exhausted.  An embedder checks this before `schedule_timer`.
    pub fn has_token_capacity(&self) -> (r: bool)
        ensures
            r == (self.timer_state().spec_next_token() < u64::MAX),
    {
        self.timers.has_token_capacity()
    }

    /// Schedule a delayed callback for surface `id` at `deadline`
    /// (milliseconds on the embedder's monotonic clock); returns the token
    /// later handed to the window's timer callback.
    pub fn schedule_timer(&mut self, id: u64, deadline: u64) -> (r: TimerToken)
        requires
            old(self).wf(),
            old(self).timer_state().spec_next_token() < u64::MAX,
        ensures
            final(self).wf(),
            final(self).registry_state() == old(self).registry_state(),
            final(self).is_shutdown() == old(self).is_shutdown(),
            r == (TimerToken { raw: old(self).timer_state().spec_next_token() }),
            final(self).timer_state().spec_next_token() == old(
                self,
            ).timer_state().spec_next_token() + 1,
            final(self).timer_state().pending() == crate::timer::spec_insert_by_deadline(
                old(self).timer_state().pending(),
                (Timer { deadline, id, token: r }),
            ),
    {
        self.timers.schedule(id, deadline)
    }

    /// Cancel the pending timer carrying `token`, if any.
    pub fn cancel_timer(&mut self, token: TimerToken) -> (r: bool)
        requires
            old(self).wf(),
        ensures
            final(self).wf(),
            final(self).registry_state() == old(self).registry_state(),
            final(self).is_shutdown() == old(self).is_shutdown(),
            final(self).timer_state().spec_next_token() == old(self).timer_state().spec_next_token(),
            r == (exists|i: int|
                0 <= i < old(self).timer_state().pending().len() && (#[trigger] old(
                    self,
                ).timer_state().pending()[i]).token == token),
            r ==> exists|i: int|
                0 <= i < old(self).timer_state().pending().len() && (#[trigger] old(
                    self,
                ).timer_state().pending()[i]).token == token && final(self).timer_state().pending()
                    == old(self).timer_state().pending().remove(i),
            !r ==> final(self).timer_state().pending() == old(self).timer_state().pending(),
    {
        self.timers.cancel(token)
    }

    /// The earliest pending timer, if any, without removing it.
    pub fn peek_earliest(&self) -> (r: Option<Timer>)
        requires
            self.wf(),
        ensures
            r == (if self.timer_state().pending().len() == 0 {
                None::<Timer>
            } else {
                Some(self.timer_state().pending()[0])
            }),
    {
        self.timers.peek_earliest()
    }

    /// Insert or replace the handle for surface `id`; called on surface
    /// creation.
    pub fn register_surface(&mut self, id: u64, handle: WindowHandle)
        requires
            old(self).wf(),
        ensures
            final(self).wf(),
            final(self).timer_state() == old(self).timer_state(),
            final(self).is_shutdown() == old(self).is_shutdown(),
            final(self).registry_state().entries() == old(self).registry_state().entries().insert(
                id,
                handle.raw,
            ),
            final(self).registry_state().stack() == old(self).registry_state().stack(),
    {
        self.registry.register(id, handle);
    }

    /// Remove surface `id` and prune it from the active stack; called on
    /// surface destruction, and a no-op for an absent identifier.
    pub fn unregister_surface(&mut self, id: u64)
        requires
            old(self).wf(),
        ensures
            final(self).wf(),
            final(self).timer_state() == old(self).timer_state(),
            final(self).is_shutdown() == old(self).is_shutdown(),
            final(self).registry_state().entries() == old(self).registry_state().entries().remove(
                id,
            ),
            final(self).registry_state().stack() == crate::registry::spec_prune(
                old(self).registry_state().stack(),
                id,
            ),
    {
        self.registry.unregister(id);
    }

    /// Make the live surface `id` the current input target.
    pub fn push_active(&mut self, id: u64)
        requires
            old(self).wf(),
            old(self).registry_state().entries().dom().contains(id),
        ensures
            final(self).wf(),
            final(self).timer_state() == old(self).timer_state(),
            final(self).is_shutdown() == old(self).is_shutdown(),
            final(self).registry_state().entries() == old(self).registry_state().entries(),
            final(self).registry_state().stack() == seq![id] + old(self).registry_state().stack(),
    {
        self.registry.push_active(id);
    }

    /// The handle registered for `id`, if the surface is live.
    pub fn lookup_surface(&self, id: u64) -> (r: Option<WindowHandle>)
        ensures
            r == self.registry_state().spec_lookup(id),
    {
        self.registry.lookup(id)
    }

    /// The window input currently routes to: the active-stack front
    /// resolved through lookup.
    pub fn acquire_current_window(&self) -> (r: Option<WindowHandle>)
        ensures
            r == self.registry_state().spec_current_active(),
    {
        self.registry.current_active()
    }

    /// A point-in-time snapshot of the live windows, identifiers
    /// ascending, for the per-window deferred-task pass: callbacks run
    /// while walking it may freely mutate the live registry.
    pub fn handles_iter(&self) -> (r: Vec<(u64, WindowHandle)>)
        ensures
            self.registry_state().is_snapshot(r@),
    {
        self.registry.snapshot()
    }

    /// The timer-expiry handler's decision step: drain every timer whose
    /// deadline has passed as of `now` and resolve each owner against the
    /// registry.  Live owners come back as deliveries in deadline order;
    /// owners no longer registered come back in `stale`, to be logged and
    /// skipped.  The queue is not kept borrowed: the embedder runs the
    /// callbacks afterwards, and they may schedule new timers reentrantly,
    /// then walk `handles_iter` for deferred tasks and re-arm from
    /// `next_wakeup`.
    pub fn handle_timer_event(&mut self, now: u64) -> (r: TimerDispatch)
        requires
            old(self).wf(),
        ensures
            final(self).wf(),
            final(self).registry_state() == old(self).registry_state(),
            final(self).is_shutdown() == old(self).is_shutdown(),
            final(self).timer_state().spec_next_token() == old(self).timer_state().spec_next_token(),
            final(self).timer_state().pending() == spec_after_drain(
                old(self).timer_state().pending(),
                now,
            ),
            r.deliveries@ == spec_deliveries(
                spec_expired(old(self).timer_state().pending(), now),
                old(self).registry_state().entries(),
            ),
            r.stale@ == spec_stale(
                spec_expired(old(self).timer_state().pending(), now),
                old(self).registry_state().entries(),
            ),
    {
        let drained = self.timers.drain_expired(now);
        proof {
            lemma_drain_is_take_while(
                old(self).timer_state().pending(),
                drained@,
                self.timers.pending(),
                now,
            );
        }
        let ghost expired = drained@;
        let ghost entries = self.registry.entries();
        let mut deliveries: Vec<TimerDelivery> = Vec::new();
        let mut stale: Vec<Timer> = Vec::new();
        let mut i: usize = 0;
        while i < drained.len()
            invariant
                i <= expired.len(),
                drained@ == expired,
                self.timers.wf(),
                self.timers.pending() == spec_after_drain(old(self).timer_state().pending(), now),
                self.timers.spec_next_token() == old(self).timer_state().spec_next_token(),
                self.registry == old(self).registry_state(),
                self.registry.wf(),
                self.shutdown == old(self).is_shutdown(),
                entries == self.registry.entries(),
                deliveries@ == spec_deliveries(expired.take(i as int), entries),
                stale@ == spec_stale(expired.take(i as int), entries),
            decreases expired.len() - i,
        {
            proof {
                assert(expired.take(i + 1).drop_last() =~= expired.take(i as int));
                assert(expired.take(i + 1).last() == expired[i as int]);
            }
            let t = drained[i];
            match self.registry.lookup(t.id) {
                Some(handle) => {
                    deliveries.push(TimerDelivery { handle, token: t.token });
                },
                None => {
                    stale.push(t);
                },
            }
            i = i + 1;
        }
        proof {
            assert(expired.take(expired.len() as int) =~= expired);
        }
        TimerDispatch { deliveries, stale }
    }

    /// What the tick's single wake-up should be after draining and
    /// callbacks: `None` when no timer is pending, so the wake source is
    /// disarmed entirely (no busy polling on an empty set); otherwise the
    /// delay in milliseconds until the earliest deadline, zero when that
    /// deadline has already passed.
    pub fn next_wakeup(&self, now: u64) -> (r: Option<u64>)
        requires
            self.wf(),
        ensures
            (r is Some) == (self.timer_state().pending().len() > 0),
            r matches Some(d) ==> {
                let dl = self.timer_state().pending()[0].deadline;
                d == (if dl >= now {
                    (dl - now) as u64
                } else {
                    0u64
                })
            },
    {
        match self.timers.peek_earliest() {
            None => None,
            Some(t) => {
                let deadline = t.deadline();
                if deadline >= now {
                    Some(deadline - now)
                } else {
                    Some(0)
                }
            },
        }
    }
}

} // verus!
