//! Registry of per-window state: one accessibility-backend adapter per
//! live window, plus the shared association-list core that the action
//! queue registry reuses.
//!
//! The backend connection type is opaque to the synchronization core, so
//! the registry is generic over the adapter value it owns. Lookups that
//! require the primary adapter report absence rather than failing:
//! accessibility support is best-effort and a missing window must never
//! abort the host.

use vstd::prelude::*;

use crate::PRIMARY_WINDOW;

verus! {

/// An association list from window identifiers to owned values, with
/// unique keys. Insertion order is kept, which makes every walk over the
/// entries deterministic within a cycle.
pub struct WindowMap<V> {
    pub entries: Vec<(u128, V)>,
}

impl<V> WindowMap<V> {
    /// Keys are unique: each window owns at most one value.
    pub open spec fn wf(self) -> bool {
        forall|i: int, j: int|
            0 <= i < j < self.entries@.len() ==> self.entries@[i].0 != self.entries@[j].0
    }

    /// Whether some value is registered for the window `w`.
    pub open spec fn spec_contains(self, w: u128) -> bool {
        exists|i: int| 0 <= i < self.entries@.len() && self.entries@[i].0 == w
    }

    /// The value registered for the window `w`.
    pub open spec fn spec_get(self, w: u128) -> V
        recommends
            self.spec_contains(w),
    {
        self.entries@[choose|i: int|
            0 <= i < self.entries@.len() && self.entries@[i].0 == w].1
    }

    /// With unique keys, the value at any index whose key is `w` is the
    /// registered value for `w`.
    pub proof fn lemma_get_at(self, w: u128, i: int)
        requires
            self.wf(),
            0 <= i < self.entries@.len(),
            self.entries@[i].0 == w,
        ensures
            self.spec_contains(w),
            self.spec_get(w) == self.entries@[i].1,
    {
        assert(self.spec_contains(w));
        let j = choose|j: int| 0 <= j < self.entries@.len() && self.entries@[j].0 == w;
        if i < j {
            assert(self.entries@[i].0 != self.entries@[j].0);
        } else if j < i {
            assert(self.entries@[j].0 != self.entries@[i].0);
        }
    }

    /// An empty registry.
    pub fn new() -> (r: WindowMap<V>)
        ensures
            r.wf(),
            r.entries@.len() == 0,
    {
        WindowMap { entries: Vec::new() }
    }

    /// The index of the entry for `w`, if one is registered.
    fn index_of(&self, w: u128) -> (r: Option<usize>)
        ensures
            match r {
                Some(i) => i < self.entries@.len() && self.entries@[i as int].0 == w,
                None => !self.spec_contains(w),
            },
    {
        let n = self.entries.len();
        let mut i: usize = 0;
        while i < n
            invariant
                n == self.entries@.len(),
                i <= n,
                forall|k: int| 0 <= k < i ==> self.entries@[k].0 != w,
            decreases n - i,
        {
            if self.entries[i].0 == w {
                return Some(i);
            }
            i = i + 1;
        }
        None
    }

    /// Evict the entry for the window `w`, dropping its value — and with
    /// it any backend resources the value owns — synchronously. A no-op
    /// when no entry is registered for `w`. Every other entry is kept,
    /// in its old order.
    pub fn remove(&mut self, w: u128)
        requires
            old(self).wf(),
        ensures
            final(self).wf(),
            !final(self).spec_contains(w),
            forall|w2: u128|
                w2 != w ==> final(self).spec_contains(w2) == old(self).spec_contains(w2),
            forall|w2: u128|
                w2 != w && old(self).spec_contains(w2) ==> final(self).spec_get(w2)
                    == old(self).spec_get(w2),
            !old(self).spec_contains(w) ==> final(self).entries@ == old(self).entries@,
            old(self).spec_contains(w) ==> exists|i: int|
                0 <= i < old(self).entries@.len() && old(self).entries@[i].0 == w
                    && final(self).entries@ == old(self).entries@.remove(i),
    {
        match self.index_of(w) {
            None => {},
            Some(i) => {
                let ghost pre = self.entries@;
                self.entries.remove(i);
                proof {
                    assert((i as int) < pre.len() && pre[i as int].0 == w && self.entries@
                        == pre.remove(i as int));
                    assert(final(self).wf());
                    assert forall|w2: u128| w2 != w && old(self).spec_contains(w2)
                        implies final(self).spec_contains(w2) && final(self).spec_get(w2)
                        == old(self).spec_get(w2) by {
                        let k = choose|k: int|
                            0 <= k < pre.len() && pre[k].0 == w2;
                        let k2: int = if k < i { k } else { k - 1 };
                        assert(self.entries@[k2].0 == w2 && self.entries@[k2].1 == pre[k].1);
                        self.lemma_get_at(w2, k2);
                        old(self).lemma_get_at(w2, k);
                    }
                    assert forall|w2: u128| w2 != w && final(self).spec_contains(w2)
                        implies old(self).spec_contains(w2) by {
                        let k2 = choose|k2: int|
                            0 <= k2 < self.entries@.len() && self.entries@[k2].0 == w2;
                        let k: int = if k2 < i { k2 } else { k2 + 1 };
                        assert(pre[k].0 == w2);
                    }
                    assert forall|k2: int| 0 <= k2 < self.entries@.len()
                        implies self.entries@[k2].0 != w by {
                        let k: int = if k2 < i { k2 } else { k2 + 1 };
                        assert(self.entries@[k2] == pre[k]);
                    }
                }
            },
        }
    }

    /// Register `value` for the window `w`, replacing any value already
    /// registered for it. Every other entry is kept.
    pub fn register(&mut self, w: u128, value: V)
        requires
            old(self).wf(),
        ensures
            final(self).wf(),
            final(self).spec_contains(w),
            final(self).spec_get(w) == value,
            forall|w2: u128|
                w2 != w ==> final(self).spec_contains(w2) == old(self).spec_contains(w2),
            forall|w2: u128|
                w2 != w && old(self).spec_contains(w2) ==> final(self).spec_get(w2)
                    == old(self).spec_get(w2),
            !old(self).spec_contains(w) ==> final(self).entries@ == old(self).entries@.push(
                (w, value),
            ),
    {
        self.remove(w);
        let ghost mid = *self;
        self.entries.push((w, value));
        proof {
            let n = self.entries@.len() - 1;
            assert(self.entries@[n] == (w, value));
            assert(final(self).wf());
            self.lemma_get_at(w, n);
            assert forall|w2: u128| w2 != w && mid.spec_contains(w2)
                implies final(self).spec_contains(w2) && final(self).spec_get(w2)
                == mid.spec_get(w2) by {
                let k = choose|k: int| 0 <= k < mid.entries@.len() && mid.entries@[k].0 == w2;
                assert(self.entries@[k] == mid.entries@[k]);
                self.lemma_get_at(w2, k);
                mid.lemma_get_at(w2, k);
            }
            assert forall|w2: u128| w2 != w && final(self).spec_contains(w2)
                implies mid.spec_contains(w2) by {
                let k = choose|k: int|
                    0 <= k < self.entries@.len() && self.entries@[k].0 == w2;
                assert(k < n ==> mid.entries@[k].0 == w2);
            }
        }
    }

    /// A shared borrow of the value registered for the window `w`, or
    /// absent when no value is registered.
    pub fn get(&self, w: u128) -> (r: Option<&V>)
        requires
            self.wf(),
        ensures
            r is Some <==> self.spec_contains(w),
            r matches Some(v) ==> *v == self.spec_get(w),
    {
        match self.index_of(w) {
            None => None,
            Some(i) => {
                proof {
                    self.lemma_get_at(w, i as int);
                }
                Some(&self.entries[i].1)
            },
        }
    }
}

/// One accessibility-backend connection per live window. The adapter
/// type is the backend's own and is opaque here; the host constructs an
/// adapter when a window is first observed and this registry owns it
/// until the window closes.
pub struct Adapters<A> {
    pub map: WindowMap<A>,
}

impl<A> Adapters<A> {
    /// Each window owns at most one adapter.
    pub open spec fn wf(self) -> bool {
        self.map.wf()
    }

    /// Whether the window `w` has a registered adapter.
    pub open spec fn spec_contains(self, w: u128) -> bool {
        self.map.spec_contains(w)
    }

    /// The adapter registered for the window `w`.
    pub open spec fn spec_get(self, w: u128) -> A
        recommends
            self.spec_contains(w),
    {
        self.map.spec_get(w)
    }

    /// An empty registry: no window has an adapter yet.
    pub fn new() -> (r: Adapters<A>)
        ensures
            r.wf(),
            forall|w: u128| !r.spec_contains(w),
    {
        Adapters { map: WindowMap::new() }
    }

    /// Register `adapter` for the window `w`, replacing any adapter the
    /// window already had.
    pub fn register(&mut self, w: u128, adapter: A)
        requires
            old(self).wf(),
        ensures
            final(self).wf(),
            final(self).spec_contains(w),
            final(self).spec_get(w) == adapter,
            forall|w2: u128|
                w2 != w ==> final(self).spec_contains(w2) == old(self).spec_contains(w2),
            forall|w2: u128|
                w2 != w && old(self).spec_contains(w2) ==> final(self).spec_get(w2)
                    == old(self).spec_get(w2),
    {
        self.map.register(w, adapter);
    }

    /// Evict the adapter of the window `w` and drop its connection
    /// synchronously; a no-op when `w` has none.
    pub fn remove(&mut self, w: u128)
        requires
            old(self).wf(),
        ensures
            final(self).wf(),
            !final(self).spec_contains(w),
            forall|w2: u128|
                w2 != w ==> final(self).spec_contains(w2) == old(self).spec_contains(w2),
            forall|w2: u128|
                w2 != w && old(self).spec_contains(w2) ==> final(self).spec_get(w2)
                    == old(self).spec_get(w2),
    {
        self.map.remove(w);
    }

    /// The adapter of the designated primary window, or absent when that
    /// window has no registered adapter (not yet created, or closed).
    pub fn get_primary_adapter(&self) -> (r: Option<&A>)
        requires
            self.wf(),
        ensures
            r is Some <==> self.spec_contains(PRIMARY_WINDOW),
            r matches Some(a) ==> *a == self.spec_get(PRIMARY_WINDOW),
    {
        self.map.get(PRIMARY_WINDOW)
    }
}

} // verus!
