//! Timer subsystem: pending timers kept in increasing-deadline order, with
//! insertion, peek-earliest, cancellation by token, and "pop all expired
//! as of now".
//!
//! Deadlines are milliseconds on the embedder's monotonic clock.  Tokens
//! are handed out from a counter owned by the queue, so equal deadlines
//! keep their schedule order and every pending token is distinct.

use vstd::prelude::*;

verus! {

/// Opaque token identifying one scheduled timer; delivered back to the
/// owning window when the timer fires, and usable to cancel it.
#[derive(PartialEq, Eq, Clone, Copy, Debug, Hash, Structural)]
pub struct TimerToken {
    pub raw: u64,
}

/// A pending timer: when it fires, which surface owns it, and its token.
#[derive(PartialEq, Eq, Clone, Copy, Debug, Structural)]
pub struct Timer {
    /// Deadline in milliseconds on the embedder's monotonic clock.
    pub deadline: u64,
    /// Identifier of the owning surface.
    pub id: u64,
    /// Token handed back on delivery.
    pub token: TimerToken,
}

impl Timer {
    /// Pack a timer from its parts.
    pub fn new(id: u64, deadline: u64, token: TimerToken) -> (r: Timer)
        ensures
            r == (Timer { deadline, id, token }),
    {
        Timer { deadline, id, token }
    }

    /// The owning surface's identifier.
    pub fn id(self) -> (r: u64)
        ensures
            r == self.id,
    {
        self.id
    }

    /// The deadline, in milliseconds on the embedder's monotonic clock.
    pub fn deadline(&self) -> (r: u64)
        ensures
            r == self.deadline,
    {
        self.deadline
    }

    /// The timer's token.
    pub fn token(&self) -> (r: TimerToken)
        ensures
            r == self.token,
    {
        self.token
    }
}

/// The queue's strict ordering: by deadline first, and by token among
/// equal deadlines, so timers scheduled later sort later.
pub open spec fn timer_before(a: Timer, b: Timer) -> bool {
    a.deadline < b.deadline || (a.deadline == b.deadline && a.token.raw < b.token.raw)
}

/// `s` with `t` placed after every element whose deadline is at or before
/// `t`'s deadline, and before every element whose deadline is after it.
pub open spec fn spec_insert_by_deadline(s: Seq<Timer>, t: Timer) -> Seq<Timer>
    decreases s.len(),
{
    if s.len() == 0 {
        seq![t]
    } else if s.last().deadline <= t.deadline {
        s.push(t)
    } else {
        spec_insert_by_deadline(s.drop_last(), t).push(s.last())
    }
}

/// Placing a timer at the position its deadline selects is the same as
/// `Seq::insert` at that position.
proof fn lemma_insert_by_deadline_at(s: Seq<Timer>, t: Timer, i: int)
    requires
        0 <= i <= s.len(),
        forall|j: int| i <= j < s.len() ==> (#[trigger] s[j]).deadline > t.deadline,
        i > 0 ==> s[i - 1].deadline <= t.deadline,
    ensures
        spec_insert_by_deadline(s, t) == s.insert(i, t),
    decreases s.len(),
{
    if s.len() == 0 {
        assert(spec_insert_by_deadline(s, t) =~= s.insert(0, t));
    } else if i == s.len() {
        assert(s.last().deadline <= t.deadline);
        assert(spec_insert_by_deadline(s, t) =~= s.insert(i, t));
    } else {
        assert(s[s.len() - 1].deadline > t.deadline);
        lemma_insert_by_deadline_at(s.drop_last(), t, i);
        assert(spec_insert_by_deadline(s, t) == s.drop_last().insert(i, t).push(s.last()));
        assert(s.drop_last().insert(i, t).push(s.last()) =~= s.insert(i, t));
    }
}

/// An inserted timer lands somewhere, and everything in the result is the
/// new timer or one of the old ones.
proof fn lemma_insert_by_deadline_contents(s: Seq<Timer>, t: Timer)
    ensures
        spec_insert_by_deadline(s, t).len() == s.len() + 1,
        forall|k: int|
            0 <= k < spec_insert_by_deadline(s, t).len() ==> (#[trigger] spec_insert_by_deadline(
                s,
                t,
            )[k]) == t || s.contains(spec_insert_by_deadline(s, t)[k]),
    decreases s.len(),
{
    if s.len() == 0 {
    } else if s.last().deadline <= t.deadline {
        assert(forall|k: int|
            0 <= k < s.len() ==> (#[trigger] s.push(t)[k]) == s[k] && s.contains(s[k]));
    } else {
        lemma_insert_by_deadline_contents(s.drop_last(), t);
        let r = spec_insert_by_deadline(s.drop_last(), t);
        let rp = r.push(s.last());
        assert forall|k: int| 0 <= k < rp.len() implies (#[trigger] rp[k]) == t || s.contains(
            rp[k],
        ) by {
            if k < r.len() {
                if r[k] != t {
                    let m = choose|m: int| 0 <= m < s.drop_last().len() && s.drop_last()[m] == r[k];
                    assert(s[m] == r[k]);
                }
            } else {
                assert(rp[k] == s[s.len() - 1]);
            }
        }
    }
}

/// The timer subsystem: a queue of pending timers in increasing-deadline
/// order, and the counter the next token is drawn from.
pub struct TimerQueue {
    items: Vec<Timer>,
    next_token: u64,
}

impl TimerQueue {
    /// The pending timers, earliest deadline first.
    pub closed spec fn pending(&self) -> Seq<Timer> {
        self.items@
    }

    /// The token the next `schedule` call will hand out.
    pub closed spec fn spec_next_token(&self) -> u64 {
        self.next_token
    }

    /// Queue invariant: strictly ordered by (deadline, token), every
    /// pending token below the counter, and no token twice.
    pub open spec fn wf(&self) -> bool {
        &&& forall|i: int, j: int|
            0 <= i < j < self.pending().len() ==> timer_before(
                #[trigger] self.pending()[i],
                #[trigger] self.pending()[j],
            )
        &&& forall|i: int|
            0 <= i < self.pending().len() ==> (#[trigger] self.pending()[i]).token.raw
                < self.spec_next_token()
        &&& forall|i: int, j: int|
            0 <= i < j < self.pending().len() ==> (#[trigger] self.pending()[i]).token.raw != (
            #[trigger] self.pending()[j]).token.raw
    }

    /// An empty subsystem; a valid steady state.
    pub fn new() -> (r: TimerQueue)
        ensures
            r.wf(),
            r.pending() == Seq::<Timer>::empty(),
            r.spec_next_token() == 1,
    {
        TimerQueue { items: Vec::new(), next_token: 1 }
    }

    /// How many timers are pending.
    pub fn len(&self) -> (r: usize)
        ensures
            r == self.pending().len(),
    {
        self.items.len()
    }

    /// Whether another timer can still be scheduled: the token counter has
    /// not been exhausted.  An embedder checks this before `schedule`.
    pub fn has_token_capacity(&self) -> (r: bool)
        ensures
            r == (self.spec_next_token() < u64::MAX),
    {
        self.next_token < u64::MAX
    }

    /// Insert a new timer owned by surface `id`, firing at `deadline`;
    /// returns the fresh token that delivery and cancellation will refer
    /// to.  Equal deadlines keep schedule order.
    pub fn schedule(&mut self, id: u64, deadline: u64) -> (r: TimerToken)
        requires
            old(self).wf(),
            old(self).spec_next_token() < u64::MAX,
        ensures
            final(self).wf(),
            r == (TimerToken { raw: old(self).spec_next_token() }),
            final(self).spec_next_token() == old(self).spec_next_token() + 1,
            final(self).pending() == spec_insert_by_deadline(
                old(self).pending(),
                (Timer { deadline, id, token: r }),
            ),
    {
        let token = TimerToken { raw: self.next_token };
        self.next_token = self.next_token + 1;
        let t = Timer { deadline, id, token };
        let mut i: usize = self.items.len();
        while i > 0 && deadline < self.items[i - 1].deadline
            invariant
                i <= self.items.len(),
                self.items@ == old(self).pending(),
                forall|j: int|
                    i <= j < old(self).pending().len() ==> (
                    #[trigger] old(self).pending()[j]).deadline > deadline,
            decreases i,
        {
            i = i - 1;
        }
        proof {
            lemma_insert_by_deadline_at(old(self).pending(), t, i as int);
            lemma_insert_by_deadline_contents(old(self).pending(), t);
        }
        self.items.insert(i, t);
        proof {
            let pre = old(self).pending();
            let news = self.items@;
            assert(news == pre.insert(i as int, t));
            assert forall|a: int, b: int| 0 <= a < b < news.len() implies timer_before(
                #[trigger] news[a],
                #[trigger] news[b],
            ) by {
                assert(forall|x: int, y: int|
                    0 <= x < y < pre.len() ==> timer_before(
                        #[trigger] old(self).pending()[x],
                        #[trigger] old(self).pending()[y],
                    ));
                assert(forall|x: int|
                    0 <= x < pre.len() ==> (#[trigger] old(self).pending()[x]).token.raw
                        < t.token.raw);
                if b < i {
                } else if a < i && b == i {
                    assert(news[a] == pre[a]);
                    assert(news[b] == t);
                    assert(pre[i - 1].deadline <= deadline);
                    if a < i - 1 {
                        assert(timer_before(pre[a], pre[i - 1]));
                    }
                    assert(pre[a].token.raw < t.token.raw);
                } else if a < i && b > i {
                    assert(news[a] == pre[a] && news[b] == pre[b - 1]);
                    if a == b - 1 {
                        assert(pre[b - 1].deadline > deadline);
                        assert(pre[a].deadline > deadline);
                        assert(false);
                    }
                } else if a == i {
                    assert(news[a] == t && news[b] == pre[b - 1]);
                    assert(pre[b - 1].deadline > deadline);
                } else {
                    assert(news[a] == pre[a - 1] && news[b] == pre[b - 1]);
                }
            }
            assert forall|k: int| 0 <= k < news.len() implies (#[trigger] news[k]).token.raw
                < self.next_token by {
                if news[k] != t {
                    assert(spec_insert_by_deadline(pre, t)[k] == news[k]);
                    let m = choose|m: int| 0 <= m < pre.len() && pre[m] == news[k];
                    assert(old(self).pending()[m].token.raw < t.token.raw);
                }
            }
            assert forall|a: int, b: int| 0 <= a < b < news.len() implies (
            #[trigger] news[a]).token.raw != (#[trigger] news[b]).token.raw by {
                assert(timer_before(news[a], news[b]));
                if news[a].deadline != news[b].deadline {
                    if news[a] == t {
                        let m = choose|m: int| 0 <= m < pre.len() && pre[m] == news[b];
                        assert(old(self).pending()[m].token.raw < t.token.raw);
                    } else if news[b] == t {
                        let m = choose|m: int| 0 <= m < pre.len() && pre[m] == news[a];
                        assert(old(self).pending()[m].token.raw < t.token.raw);
                    } else {
                        let m = choose|m: int| 0 <= m < pre.len() && pre[m] == news[a];
                        let n = choose|n: int| 0 <= n < pre.len() && pre[n] == news[b];
                        assert(old(self).pending()[m].token.raw < t.token.raw);
                        assert(old(self).pending()[n].token.raw < t.token.raw);
                        if m < n {
                            assert(old(self).pending()[m].token.raw != old(
                                self,
                            ).pending()[n].token.raw);
                        } else if n < m {
                            assert(old(self).pending()[n].token.raw != old(
                                self,
                            ).pending()[m].token.raw);
                        }
                    }
                }
            }
        }
        token
    }

    /// The earliest pending timer, without removing it: the queue's first
    /// element, whose deadline is at or below every pending deadline.
    pub fn peek_earliest(&self) -> (r: Option<Timer>)
        requires
            self.wf(),
        ensures
            r == (if self.pending().len() == 0 {
                None::<Timer>
            } else {
                Some(self.pending()[0])
            }),
            r matches Some(t) ==> forall|i: int|
                0 <= i < self.pending().len() ==> t.deadline <= (
                #[trigger] self.pending()[i]).deadline,
    {
        if self.items.len() == 0 {
            None
        } else {
            proof {
                assert forall|i: int| 0 <= i < self.pending().len() implies self.pending()[0].deadline
                    <= (#[trigger] self.pending()[i]).deadline by {
                    if i > 0 {
                        assert(timer_before(self.pending()[0], self.pending()[i]));
                    }
                }
            }
            Some(self.items[0])
        }
    }

    /// Pop every timer whose deadline is strictly before `now`, earliest
    /// first.  What is returned is exactly the expired prefix, what stays
    /// is exactly the non-expired rest, and both keep their order, so the
    /// queue's new first element carries the minimum deadline among
    /// non-expired timers.  The drained timers are handed back by value:
    /// nothing of the queue stays borrowed, so delivery callbacks may
    /// schedule new timers reentrantly.
    pub fn drain_expired(&mut self, now: u64) -> (r: Vec<Timer>)
        requires
            old(self).wf(),
        ensures
            final(self).wf(),
            final(self).spec_next_token() == old(self).spec_next_token(),
            r@ + final(self).pending() == old(self).pending(),
            forall|i: int| 0 <= i < r@.len() ==> (#[trigger] r@[i]).deadline < now,
            forall|i: int|
                0 <= i < final(self).pending().len() ==> (
                #[trigger] final(self).pending()[i]).deadline >= now,
            forall|i: int, j: int|
                0 <= i < j < r@.len() ==> timer_before(#[trigger] r@[i], #[trigger] r@[j]),
    {
        let mut drained: Vec<Timer> = Vec::new();
        while self.items.len() > 0 && self.items[0].deadline < now
            invariant
                drained@ + self.pending() == old(self).pending(),
                self.spec_next_token() == old(self).spec_next_token(),
                self.wf(),
                forall|i: int| 0 <= i < drained@.len() ==> (#[trigger] drained@[i]).deadline < now,
                forall|i: int, j: int|
                    0 <= i < drained@.len() && 0 <= j < self.pending().len() ==> timer_before(
                        #[trigger] drained@[i],
                        #[trigger] self.pending()[j],
                    ),
                forall|i: int, j: int|
                    0 <= i < j < drained@.len() ==> timer_before(
                        #[trigger] drained@[i],
                        #[trigger] drained@[j],
                    ),
            decreases self.pending().len(),
        {
            let ghost items_before = self.pending();
            let ghost drained_before = drained@;
            let head = self.items.remove(0);
            drained.push(head);
            proof {
                assert(head == items_before[0]);
                assert(self.pending() == items_before.drop_first());
                assert(drained@ + self.pending() =~= old(self).pending());
                assert forall|i: int, j: int|
                    0 <= i < j < self.pending().len() implies timer_before(
                    #[trigger] self.pending()[i],
                    #[trigger] self.pending()[j],
                ) by {
                    assert(self.pending()[i] == items_before[i + 1]);
                    assert(self.pending()[j] == items_before[j + 1]);
                    assert(timer_before(items_before[i + 1], items_before[j + 1]));
                }
                assert forall|i: int| 0 <= i < self.pending().len() implies (
                #[trigger] self.pending()[i]).token.raw < self.spec_next_token() by {
                    assert(self.pending()[i] == items_before[i + 1]);
                }
                assert forall|i: int, j: int| 0 <= i < j < self.pending().len() implies (
                #[trigger] self.pending()[i]).token.raw != (#[trigger] self.pending()[j]).token.raw by {
                    assert(self.pending()[i] == items_before[i + 1]);
                    assert(self.pending()[j] == items_before[j + 1]);
                    assert(items_before[i + 1].token.raw != items_before[j + 1].token.raw);
                }
                assert forall|i: int, j: int|
                    0 <= i < drained@.len() && 0 <= j < self.pending().len() implies timer_before(
                    #[trigger] drained@[i],
                    #[trigger] self.pending()[j],
                ) by {
                    assert(self.pending()[j] == items_before[j + 1]);
                    if i < drained_before.len() {
                        assert(drained@[i] == drained_before[i]);
                    } else {
                        assert(drained@[i] == items_before[0]);
                        assert(timer_before(items_before[0], items_before[j + 1]));
                    }
                }
                assert forall|i: int, j: int| 0 <= i < j < drained@.len() implies timer_before(
                    #[trigger] drained@[i],
                    #[trigger] drained@[j],
                ) by {
                    if j < drained_before.len() {
                        assert(drained@[i] == drained_before[i]);
                        assert(drained@[j] == drained_before[j]);
                    } else {
                        assert(drained@[j] == items_before[0]);
                        assert(drained@[i] == drained_before[i]);
                        assert(timer_before(drained_before[i], items_before[0]));
                    }
                }
            }
        }
        proof {
            assert forall|i: int| 0 <= i < self.pending().len() implies (
            #[trigger] self.pending()[i]).deadline >= now by {
                if i > 0 {
                    assert(timer_before(self.pending()[0], self.pending()[i]));
                }
            }
        }
        drained
    }

    /// Remove the pending timer carrying `token`, if any; returns whether
    /// one was removed.  Cancelling an absent token is a no-op.
    pub fn cancel(&mut self, token: TimerToken) -> (r: bool)
        requires
            old(self).wf(),
        ensures
            final(self).wf(),
            final(self).spec_next_token() == old(self).spec_next_token(),
            r == (exists|i: int|
                0 <= i < old(self).pending().len() && (#[trigger] old(self).pending()[i]).token
                    == token),
            r ==> exists|i: int|
                0 <= i < old(self).pending().len() && (#[trigger] old(self).pending()[i]).token
                    == token && final(self).pending() == old(self).pending().remove(i),
            !r ==> final(self).pending() == old(self).pending(),
    {
        let mut i: usize = 0;
        while i < self.items.len()
            invariant
                old(self).wf(),
                i <= self.pending().len(),
                *self == *old(self),
                forall|j: int| 0 <= j < i ==> (#[trigger] old(self).pending()[j]).token != token,
            decreases self.pending().len() - i,
        {
            if self.items[i].token.raw == token.raw {
                let ghost pre = old(self).pending();
                self.items.remove(i);
                proof {
                    assert(old(self).pending()[i as int].token == token);
                    let news = self.pending();
                    assert(news == pre.remove(i as int));
                    assert forall|a: int, b: int| 0 <= a < b < news.len() implies timer_before(
                        #[trigger] news[a],
                        #[trigger] news[b],
                    ) && news[a].token.raw != news[b].token.raw by {
                        let pa: int = if a < i { a } else { a + 1 };
                        let pb: int = if b < i { b } else { b + 1 };
                        assert(news.len() + 1 == pre.len());
                        assert(0 <= pa && pa < pb && pb < pre.len());
                        assert(news[a] == pre[pa] && news[b] == pre[pb]);
                        assert(pre[pa] == old(self).pending()[pa]);
                        assert(pre[pb] == old(self).pending()[pb]);
                        assert(timer_before(old(self).pending()[pa], old(self).pending()[pb]));
                        assert(old(self).pending()[pa].token.raw != old(
                            self,
                        ).pending()[pb].token.raw);
                    }
                    assert forall|a: int| 0 <= a < news.len() implies (#[trigger] news[a]).token.raw
                        < self.spec_next_token() by {
                        let pa: int = if a < i { a } else { a + 1 };
                        assert(news[a] == pre[pa]);
                        assert(old(self).pending()[pa].token.raw < old(self).spec_next_token());
                    }
                }
                return true;
            }
            i = i + 1;
        }
        false
    }
}

/// Exactness of the drain split: if a sorted pending sequence is split
/// into an expired part and a non-expired part that concatenate back to
/// it, then the expired part is precisely the timers with deadline before
/// `now`, element for element, and the head of the rest carries the
/// minimum deadline among non-expired timers.
pub proof fn lemma_drain_split_exact(
    pre: Seq<Timer>,
    drained: Seq<Timer>,
    remaining: Seq<Timer>,
    now: u64,
)
    requires
        drained + remaining == pre,
        forall|i: int| 0 <= i < drained.len() ==> (#[trigger] drained[i]).deadline < now,
        forall|i: int| 0 <= i < remaining.len() ==> (#[trigger] remaining[i]).deadline >= now,
        forall|i: int, j: int|
            0 <= i < j < pre.len() ==> timer_before(#[trigger] pre[i], #[trigger] pre[j]),
    ensures
        forall|i: int| 0 <= i < drained.len() ==> drained[i] == pre[i],
        forall|i: int| 0 <= i < remaining.len() ==> remaining[i] == pre[i + drained.len()],
        forall|i: int| 0 <= i < pre.len() ==> ((#[trigger] pre[i]).deadline < now <==> i < drained.len()),
        remaining.len() > 0 ==> forall|i: int|
            drained.len() <= i < pre.len() ==> remaining[0].deadline <= (
            #[trigger] pre[i]).deadline,
{
    assert(pre.len() == drained.len() + remaining.len());
    assert forall|i: int| 0 <= i < drained.len() implies drained[i] == pre[i] by {
        assert(pre[i] == (drained + remaining)[i]);
    }
    assert forall|i: int| 0 <= i < remaining.len() implies remaining[i] == pre[i + drained.len()] by {
        assert(pre[i + drained.len()] == (drained + remaining)[i + drained.len()]);
    }
    if remaining.len() > 0 {
        assert forall|i: int| drained.len() <= i < pre.len() implies remaining[0].deadline <= (
        #[trigger] pre[i]).deadline by {
            if i > drained.len() {
                assert(timer_before(pre[drained.len() as int], pre[i]));
            }
        }
    }
}

} // verus!
