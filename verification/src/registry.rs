//! Surface registry: the map from platform-assigned surface identifiers to
//! live window handles, and the active-surface stack that routes input.
//!
//! The map is a persistent ordered map, so iteration works on an O(1)
//! shallow snapshot and handlers invoked mid-iteration may mutate the live
//! registry without invalidating the walk.  Entries are removed
//! synchronously on destruction, and the destroyed identifier is pruned
//! from the active stack at the same moment, so a handle is never resolved
//! after its surface is gone.

use std::collections::VecDeque;
use std::ops::Index;
use vstd::prelude::*;

verus! {

/// A shared handle to one live window.  The core carries the handle's
/// identity as a plain value; the window object itself lives with the
/// embedder, which clones the shared state on lookup.
#[derive(PartialEq, Eq, Clone, Copy, Debug, Structural)]
pub struct WindowHandle {
    pub raw: u64,
}

#[verifier::external_type_specification]
#[verifier::external_body]
#[verifier::reject_recursive_types(K)]
#[verifier::reject_recursive_types(V)]
pub struct ExOrdMap<K, V>(im::OrdMap<K, V>);

/// The ordered map the registry is backed by: surface identifier to the
/// handle's identity.
pub type SurfaceMap = im::OrdMap<u64, u64>;

/// The key-value contents of an ordered surface map.
pub uninterp spec fn ord_map_entries(m: SurfaceMap) -> Map<u64, u64>;

/// The contents of a map with no entries.
pub open spec fn no_entries() -> Map<u64, u64> {
    Map::<u64, u64>::empty()
}

/// Relies on `im::OrdMap::new`: constructs an empty map.
#[verifier::external_body]
fn ord_map_new() -> (r: SurfaceMap)
    ensures
        ord_map_entries(r) == no_entries(),
{
    im::OrdMap::new()
}

/// Relies on `im::OrdMap::insert`: maps `key` to `value`, replacing and
/// returning any previous value for `key`.
#[verifier::external_body]
fn ord_map_insert(m: &mut SurfaceMap, key: u64, value: u64) -> (r: Option<u64>)
    ensures
        ord_map_entries(*final(m)) == ord_map_entries(*old(m)).insert(key, value),
        r == (if ord_map_entries(*old(m)).dom().contains(key) {
            Some(ord_map_entries(*old(m))[key])
        } else {
            None::<u64>
        }),
{
    m.insert(key, value)
}

/// Relies on `im::OrdMap::remove`: takes the mapping for `key` out, if it
/// exists, and returns the removed value.
#[verifier::external_body]
fn ord_map_remove(m: &mut SurfaceMap, key: u64) -> (r: Option<u64>)
    ensures
        ord_map_entries(*final(m)) == ord_map_entries(*old(m)).remove(key),
        r == (if ord_map_entries(*old(m)).dom().contains(key) {
            Some(ord_map_entries(*old(m))[key])
        } else {
            None::<u64>
        }),
{
    m.remove(&key)
}

/// Relies on `im::OrdMap::get`: the value mapped to `key`, if any.
#[verifier::external_body]
fn ord_map_get(m: &SurfaceMap, key: u64) -> (r: Option<u64>)
    ensures
        r == (if ord_map_entries(*m).dom().contains(key) {
            Some(ord_map_entries(*m)[key])
        } else {
            None::<u64>
        }),
{
    m.get(&key).copied()
}

/// Relies on `im::OrdMap` cloning and iteration: a clone shares structure
/// in O(1), and iterating yields each key-value pair exactly once with
/// keys from lowest to highest.
#[verifier::external_body]
fn ord_map_to_vec(m: &SurfaceMap) -> (r: Vec<(u64, u64)>)
    ensures
        forall|i: int|
            0 <= i < r@.len() ==> ord_map_entries(*m).contains_pair(
                (#[trigger] r@[i]).0,
                r@[i].1,
            ),
        forall|i: int, j: int| 0 <= i < j < r@.len() ==> (#[trigger] r@[i]).0 < (#[trigger] r@[j]).0,
        forall|k: u64|
            #[trigger] ord_map_entries(*m).dom().contains(k) ==> exists|i: int|
                0 <= i < r@.len() && (#[trigger] r@[i]).0 == k,
{
    m.clone().into_iter().collect()
}

/// `s` with every occurrence of `id` taken out, order otherwise kept.
pub open spec fn spec_prune(s: Seq<u64>, id: u64) -> Seq<u64>
    decreases s.len(),
{
    if s.len() == 0 {
        Seq::empty()
    } else {
        let init = spec_prune(s.drop_last(), id);
        if s.last() == id {
            init
        } else {
            init.push(s.last())
        }
    }
}

/// What pruning leaves: no occurrence of `id`, and only elements that were
/// already present.
pub proof fn lemma_prune_props(s: Seq<u64>, id: u64)
    ensures
        forall|k: int|
            0 <= k < spec_prune(s, id).len() ==> (#[trigger] spec_prune(s, id)[k]) != id
                && s.contains(spec_prune(s, id)[k]),
        spec_prune(s, id).len() <= s.len(),
    decreases s.len(),
{
    if s.len() > 0 {
        lemma_prune_props(s.drop_last(), id);
        let init = spec_prune(s.drop_last(), id);
        assert forall|k: int| 0 <= k < spec_prune(s, id).len() implies (
        #[trigger] spec_prune(s, id)[k]) != id && s.contains(spec_prune(s, id)[k]) by {
            if s.last() == id || k < init.len() {
                assert(spec_prune(s, id)[k] == init[k]);
                let m = choose|m: int|
                    0 <= m < s.drop_last().len() && s.drop_last()[m] == init[k];
                assert(s[m] == init[k]);
            } else {
                assert(spec_prune(s, id)[k] == s.last());
                assert(s[s.len() - 1] == s.last());
            }
        }
    }
}

/// The registry of live surfaces, and the ordered active-surface stack
/// whose front, if any, is the delivery target for untargeted input.
pub struct SurfaceRegistry {
    handles: SurfaceMap,
    active: VecDeque<u64>,
}

impl SurfaceRegistry {
    /// The live entries: surface identifier to handle identity.
    pub closed spec fn entries(&self) -> Map<u64, u64> {
        ord_map_entries(self.handles)
    }

    /// The active-surface stack, front (current) first.
    pub closed spec fn stack(&self) -> Seq<u64> {
        self.active@
    }

    /// Registry invariant: finitely many entries, and every identifier on
    /// the active stack refers to a live entry.
    pub open spec fn wf(&self) -> bool {
        &&& self.entries().dom().finite()
        &&& forall|i: int|
            0 <= i < self.stack().len() ==> self.entries().dom().contains(
                #[trigger] self.stack()[i],
            )
    }

    /// Lookup in a given entry map: the handle for `id`, if live.
    pub open spec fn spec_lookup_in(entries: Map<u64, u64>, id: u64) -> Option<WindowHandle> {
        if entries.dom().contains(id) {
            Some((WindowHandle { raw: entries[id] }))
        } else {
            None
        }
    }

    /// The handle for `id`, if live.
    pub open spec fn spec_lookup(&self, id: u64) -> Option<WindowHandle> {
        Self::spec_lookup_in(self.entries(), id)
    }

    /// The identifier input routes to: the stack front, or nothing when
    /// no surface is active.
    pub open spec fn spec_current_id(&self) -> Option<u64> {
        if self.stack().len() > 0 {
            Some(self.stack()[0])
        } else {
            None
        }
    }

    /// The handle input routes to: `None` when the stack is empty, else
    /// the front resolved through lookup.
    pub open spec fn spec_current_active(&self) -> Option<WindowHandle> {
        match self.spec_current_id() {
            Some(id) => self.spec_lookup(id),
            None => None,
        }
    }

    /// An empty registry: no surfaces, no active stack.
    pub fn new() -> (r: SurfaceRegistry)
        ensures
            r.wf(),
            r.entries() == Map::<u64, u64>::empty(),
            r.stack() == Seq::<u64>::empty(),
    {
        let r = SurfaceRegistry { handles: ord_map_new(), active: VecDeque::new() };
        proof {
            assert(r.entries().dom() =~= Set::<u64>::empty());
        }
        r
    }

    /// Insert or replace the handle for surface `id`; called on surface
    /// creation.  The active stack is untouched.
    pub fn register(&mut self, id: u64, handle: WindowHandle)
        requires
            old(self).wf(),
        ensures
            final(self).wf(),
            final(self).entries() == old(self).entries().insert(id, handle.raw),
            final(self).stack() == old(self).stack(),
    {
        ord_map_insert(&mut self.handles, id, handle.raw);
        proof {
            assert(self.entries().dom() =~= old(self).entries().dom().insert(id));
            vstd::set::axiom_set_insert_finite(old(self).entries().dom(), id);
            assert forall|i: int| 0 <= i < self.stack().len() implies self.entries().dom().contains(
                #[trigger] self.stack()[i],
            ) by {
                assert(old(self).entries().dom().contains(old(self).stack()[i]));
            }
        }
    }

    /// Remove the entry for `id` and prune `id` from the active stack
    /// wherever it appears; called on surface destruction.  Removing an
    /// absent identifier is a no-op on the entries, so the call is
    /// idempotent.
    pub fn unregister(&mut self, id: u64)
        requires
            old(self).wf(),
        ensures
            final(self).wf(),
            final(self).entries() == old(self).entries().remove(id),
            final(self).stack() == spec_prune(old(self).stack(), id),
    {
        ord_map_remove(&mut self.handles, id);
        let mut kept: VecDeque<u64> = VecDeque::new();
        let mut i: usize = 0;
        while i < self.active.len()
            invariant
                i <= self.active@.len(),
                self.active@ == old(self).stack(),
                kept@ == spec_prune(old(self).stack().take(i as int), id),
            decreases self.active@.len() - i,
        {
            let x = *self.active.index(i);
            proof {
                let s = old(self).stack();
                assert(s.take(i + 1).drop_last() =~= s.take(i as int));
                assert(s.take(i + 1).last() == s[i as int]);
            }
            if x != id {
                kept.push_back(x);
            }
            i = i + 1;
        }
        proof {
            assert(old(self).stack().take(old(self).stack().len() as int) =~= old(self).stack());
        }
        self.active = kept;
        proof {
            assert(self.entries().dom() =~= old(self).entries().dom().remove(id));
            lemma_prune_props(old(self).stack(), id);
            assert forall|k: int| 0 <= k < self.stack().len() implies self.entries().dom().contains(
                #[trigger] self.stack()[k],
            ) by {
                let m = choose|m: int|
                    0 <= m < old(self).stack().len() && old(self).stack()[m] == self.stack()[k];
                assert(old(self).entries().dom().contains(old(self).stack()[m]));
            }
        }
    }

    /// The handle registered for `id`, cloned on read; `None` once the
    /// surface is unregistered or if it never was.
    pub fn lookup(&self, id: u64) -> (r: Option<WindowHandle>)
        ensures
            r == self.spec_lookup(id),
    {
        match ord_map_get(&self.handles, id) {
            Some(raw) => Some(WindowHandle { raw }),
            None => None,
        }
    }

    /// Make `id` the current input target by pushing it onto the stack
    /// front.  The surface must be live, which keeps the stack invariant.
    pub fn push_active(&mut self, id: u64)
        requires
            old(self).wf(),
            old(self).entries().dom().contains(id),
        ensures
            final(self).wf(),
            final(self).entries() == old(self).entries(),
            final(self).stack() == seq![id] + old(self).stack(),
    {
        self.active.push_front(id);
        proof {
            assert forall|i: int| 0 <= i < self.stack().len() implies self.entries().dom().contains(
                #[trigger] self.stack()[i],
            ) by {
                if i > 0 {
                    assert(self.stack()[i] == old(self).stack()[i - 1]);
                    assert(old(self).entries().dom().contains(old(self).stack()[i - 1]));
                }
            }
        }
    }

    /// The identifier input currently routes to: the stack front, or
    /// `None` when no surface is active.
    pub fn current_window_id(&self) -> (r: Option<u64>)
        ensures
            r == self.spec_current_id(),
    {
        if self.active.len() > 0 {
            Some(*self.active.index(0))
        } else {
            None
        }
    }

    /// Resolve the stack front through `lookup`: the handle input routes
    /// to, or `None` when the stack is empty or its front is stale.
    pub fn current_active(&self) -> (r: Option<WindowHandle>)
        ensures
            r == self.spec_current_active(),
    {
        match self.current_window_id() {
            Some(id) => self.lookup(id),
            None => None,
        }
    }

    /// Whether a sequence of pairs is a faithful point-in-time snapshot of
    /// the entries, keys ascending.
    pub open spec fn is_snapshot(&self, s: Seq<(u64, WindowHandle)>) -> bool {
        &&& forall|i: int|
            0 <= i < s.len() ==> self.entries().contains_pair(
                (#[trigger] s[i]).0,
                s[i].1.raw,
            )
        &&& forall|i: int, j: int| 0 <= i < j < s.len() ==> (#[trigger] s[i]).0 < (#[trigger] s[j]).0
        &&& forall|k: u64|
            #[trigger] self.entries().dom().contains(k) ==> exists|i: int|
                0 <= i < s.len() && (#[trigger] s[i]).0 == k
    }

    /// A point-in-time shallow copy of the entries, keys ascending, for
    /// iteration: handlers invoked while walking it may freely mutate the
    /// live registry.
    pub fn snapshot(&self) -> (r: Vec<(u64, WindowHandle)>)
        ensures
            self.is_snapshot(r@),
    {
        let pairs = ord_map_to_vec(&self.handles);
        let mut out: Vec<(u64, WindowHandle)> = Vec::new();
        let mut i: usize = 0;
        while i < pairs.len()
            invariant
                i <= pairs@.len(),
                out@.len() == i,
                forall|j: int|
                    0 <= j < i ==> (#[trigger] out@[j]).0 == pairs@[j].0 && out@[j].1.raw
                        == pairs@[j].1,
            decreases pairs@.len() - i,
        {
            let (k, v) = pairs[i];
            out.push((k, WindowHandle { raw: v }));
            i = i + 1;
        }
        proof {
            assert forall|k: int| 0 <= k < out@.len() implies self.entries().contains_pair(
                (#[trigger] out@[k]).0,
                out@[k].1.raw,
            ) by {
                assert(ord_map_entries(self.handles).contains_pair(pairs@[k].0, pairs@[k].1));
            }
            assert forall|k: u64| #[trigger]
                self.entries().dom().contains(k) implies exists|i: int|
                0 <= i < out@.len() && (#[trigger] out@[i]).0 == k by {
                let m = choose|m: int| 0 <= m < pairs@.len() && (#[trigger] pairs@[m]).0 == k;
                assert(out@[m].0 == k);
            }
        }
        out
    }
}

/// Lookup laws: registering a handle for `id` makes `id` resolve to that
/// very handle, and unregistering `id` makes it resolve to nothing,
/// unconditionally, also when `id` was never registered.
pub proof fn lemma_register_then_lookup(entries: Map<u64, u64>, id: u64, h: WindowHandle)
    ensures
        SurfaceRegistry::spec_lookup_in(entries.insert(id, h.raw), id) == Some(h),
        SurfaceRegistry::spec_lookup_in(entries.remove(id), id) == None::<WindowHandle>,
{
}

/// Active-surface pruning law: after `unregister(id)`, the current-active
/// resolution never yields a handle for `id` -- `id` is gone from the
/// stack and from the entries.  If the pruned stack is empty, nothing
/// resolves at all; otherwise the new front differs from `id` and
/// current-active is that front's handle.
pub proof fn lemma_unregister_prunes_active(pre: SurfaceRegistry, post: SurfaceRegistry, id: u64)
    requires
        pre.wf(),
        post.entries() == pre.entries().remove(id),
        post.stack() == spec_prune(pre.stack(), id),
    ensures
        !post.entries().dom().contains(id),
        forall|i: int| 0 <= i < post.stack().len() ==> (#[trigger] post.stack()[i]) != id,
        post.stack().len() == 0 ==> post.spec_current_active() is None,
        post.stack().len() > 0 ==> post.spec_current_id() == Some(post.stack()[0])
            && post.stack()[0] != id && post.spec_current_active() == post.spec_lookup(
            post.stack()[0],
        ),
{
    lemma_prune_props(pre.stack(), id);
}

} // verus!
