//! Per-window action queues: unbounded FIFO buffers that receive action
//! requests from the accessibility backend and are drained into the
//! application's event stream once per cycle.
//!
//! The request type is the backend protocol's and is opaque here. The
//! backend pushes from its own execution context; the host therefore
//! shares each queue behind a mutex whose critical sections hold only
//! the push or the drain below — never a blocking call. The FIFO
//! discipline itself is what this module states and proves: no request
//! is reordered, duplicated, or silently dropped by a drain.

use vstd::prelude::*;

use std::collections::VecDeque;

use crate::registry::{Adapters, WindowMap};

verus! {

/// The inbound action queue of one window: requests appended by the
/// backend's callback, drained once per cycle by the synchronization
/// thread.
pub struct WinitActionHandler<R> {
    pub queue: VecDeque<R>,
}

impl<R> View for WinitActionHandler<R> {
    type V = Seq<R>;

    open spec fn view(&self) -> Seq<R> {
        self.queue@
    }
}

impl<R> WinitActionHandler<R> {
    /// An empty queue.
    pub fn new() -> (r: WinitActionHandler<R>)
        ensures
            r@.len() == 0,
    {
        WinitActionHandler { queue: VecDeque::new() }
    }

    /// Append `request` at the tail. Never drops a request.
    pub fn do_action(&mut self, request: R)
        ensures
            final(self)@ == old(self)@.push(request),
    {
        self.queue.push_back(request);
    }

    /// Pop every queued request, in FIFO order, leaving the queue empty.
    pub fn drain_all(&mut self) -> (r: Vec<R>)
        ensures
            r@ == old(self)@,
            final(self)@.len() == 0,
    {
        let mut out: Vec<R> = Vec::new();
        while self.queue.len() > 0
            invariant
                out@ + self.queue@ == old(self)@,
            decreases self.queue@.len(),
        {
            let x = self.queue.pop_front().unwrap();
            out.push(x);
        }
        proof {
            assert(out@ =~= old(self)@);
        }
        out
    }
}

/// One action queue per live window, created and destroyed with the
/// window's adapter.
pub struct Handlers<R> {
    pub map: WindowMap<WinitActionHandler<R>>,
}

impl<R> Handlers<R> {
    /// Each window owns at most one queue.
    pub open spec fn wf(self) -> bool {
        self.map.wf()
    }

    /// Whether the window `w` has a registered queue.
    pub open spec fn spec_contains(self, w: u128) -> bool {
        self.map.spec_contains(w)
    }

    /// The queue registered for the window `w`.
    pub open spec fn spec_get(self, w: u128) -> WinitActionHandler<R>
        recommends
            self.spec_contains(w),
    {
        self.map.spec_get(w)
    }

    /// An empty registry: no window has a queue yet.
    pub fn new() -> (r: Handlers<R>)
        ensures
            r.wf(),
            r.map.entries@.len() == 0,
            forall|w: u128| !r.spec_contains(w),
    {
        Handlers { map: WindowMap::new() }
    }

    /// Register `queue` for the window `w`, replacing any queue the
    /// window already had.
    pub fn register(&mut self, w: u128, queue: WinitActionHandler<R>)
        requires
            old(self).wf(),
        ensures
            final(self).wf(),
            final(self).spec_contains(w),
            final(self).spec_get(w) == queue,
            forall|w2: u128|
                w2 != w ==> final(self).spec_contains(w2) == old(self).spec_contains(w2),
            forall|w2: u128|
                w2 != w && old(self).spec_contains(w2) ==> final(self).spec_get(w2)
                    == old(self).spec_get(w2),
            !old(self).spec_contains(w) ==> final(self).map.entries@
                == old(self).map.entries@.push((w, queue)),
    {
        self.map.register(w, queue);
    }

    /// Destroy the queue of the window `w`; requests still queued are
    /// lost with the window, which is acceptable once it is gone.
    pub fn remove(&mut self, w: u128)
        requires
            old(self).wf(),
        ensures
            final(self).wf(),
            !final(self).spec_contains(w),
            forall|w2: u128|
                w2 != w ==> final(self).spec_contains(w2) == old(self).spec_contains(w2),
            forall|w2: u128|
                w2 != w && old(self).spec_contains(w2) ==> final(self).spec_get(w2)
                    == old(self).spec_get(w2),
    {
        self.map.remove(w);
    }
}

/// The requests drained from the first `k` queues of `entries`, in
/// registry order, each queue in FIFO order.
pub open spec fn spec_drained<R>(entries: Seq<(u128, WinitActionHandler<R>)>, k: int) -> Seq<R>
    decreases k,
{
    if k <= 0 {
        Seq::empty()
    } else {
        spec_drained(entries, k - 1) + entries[k - 1].1@
    }
}

/// Drain every window's queue into one sequence of requests for the
/// application's event stream: queues in registry order, each queue's
/// requests in the exact order received, each request exactly once.
/// Every queue is left registered and empty.
pub fn poll_receivers<R>(handlers: &mut Handlers<R>) -> (r: Vec<R>)
    requires
        old(handlers).wf(),
    ensures
        final(handlers).wf(),
        r@ == spec_drained(
            old(handlers).map.entries@,
            old(handlers).map.entries@.len() as int,
        ),
        final(handlers).map.entries@.len() == old(handlers).map.entries@.len(),
        forall|k: int|
            0 <= k < final(handlers).map.entries@.len() ==> final(handlers).map.entries@[k].0
                == old(handlers).map.entries@[k].0 && final(handlers).map.entries@[k].1@.len()
                == 0,
{
    let mut out: Vec<R> = Vec::new();
    let mut remaining: Vec<(u128, WinitActionHandler<R>)> = Vec::new();
    core::mem::swap(&mut remaining, &mut handlers.map.entries);
    let ghost pre = remaining@;
    let mut done: Vec<(u128, WinitActionHandler<R>)> = Vec::new();
    while remaining.len() > 0
        invariant
            done@.len() + remaining@.len() == pre.len(),
            remaining@ == pre.subrange(done@.len() as int, pre.len() as int),
            out@ == spec_drained(pre, done@.len() as int),
            forall|k: int|
                0 <= k < done@.len() ==> done@[k].0 == pre[k].0 && done@[k].1@.len() == 0,
        decreases remaining@.len(),
    {
        let ghost i = done@.len() as int;
        let (w, mut q) = remaining.remove(0);
        proof {
            assert(w == pre[i].0 && q == pre[i].1);
            assert(remaining@ =~= pre.subrange(i + 1, pre.len() as int));
        }
        let mut drained = q.drain_all();
        out.append(&mut drained);
        done.push((w, q));
    }
    core::mem::swap(&mut handlers.map.entries, &mut done);
    proof {
        assert forall|i: int, j: int|
            0 <= i < j < handlers.map.entries@.len() implies handlers.map.entries@[i].0
            != handlers.map.entries@[j].0 by {
            assert(handlers.map.entries@[i].0 == pre[i].0);
            assert(handlers.map.entries@[j].0 == pre[j].0);
            assert(old(handlers).map.entries@[i].0 != old(handlers).map.entries@[j].0);
        }
    }
    out
}

/// Whether `w` is among the first `i` identifiers of `closed`.
pub open spec fn spec_in_prefix(closed: Seq<u128>, i: int, w: u128) -> bool {
    exists|k: int| 0 <= k < i && closed[k] == w
}

/// Handle this cycle's window-closed events, in arrival order: for each
/// closed window, evict its adapter — releasing the backend connection
/// synchronously, before the window counts as fully closed — and destroy
/// its action queue. Afterwards a closed window has neither, and every
/// other window keeps both untouched.
pub fn window_closed<A, R>(
    adapters: &mut Adapters<A>,
    handlers: &mut Handlers<R>,
    closed: &Vec<u128>,
)
    requires
        old(adapters).wf(),
        old(handlers).wf(),
    ensures
        final(adapters).wf(),
        final(handlers).wf(),
        forall|w: u128|
            closed@.contains(w) ==> !final(adapters).spec_contains(w)
                && !final(handlers).spec_contains(w),
        forall|w: u128|
            !closed@.contains(w) ==> final(adapters).spec_contains(w)
                == old(adapters).spec_contains(w) && final(handlers).spec_contains(w)
                == old(handlers).spec_contains(w),
        forall|w: u128|
            !closed@.contains(w) && old(adapters).spec_contains(w) ==> final(adapters).spec_get(w)
                == old(adapters).spec_get(w),
        forall|w: u128|
            !closed@.contains(w) && old(handlers).spec_contains(w) ==> final(handlers).spec_get(w)
                == old(handlers).spec_get(w),
{
    let n = closed.len();
    let mut i: usize = 0;
    while i < n
        invariant
            n == closed@.len(),
            i <= n,
            adapters.wf(),
            handlers.wf(),
            forall|w: u128|
                spec_in_prefix(closed@, i as int, w) ==> !adapters.spec_contains(w)
                    && !handlers.spec_contains(w),
            forall|w: u128|
                !spec_in_prefix(closed@, i as int, w) ==> adapters.spec_contains(w) == old(
                    adapters,
                ).spec_contains(w) && handlers.spec_contains(w) == old(handlers).spec_contains(w),
            forall|w: u128|
                !spec_in_prefix(closed@, i as int, w) && old(adapters).spec_contains(w)
                    ==> adapters.spec_get(w) == old(adapters).spec_get(w),
            forall|w: u128|
                !spec_in_prefix(closed@, i as int, w) && old(handlers).spec_contains(w)
                    ==> handlers.spec_get(w) == old(handlers).spec_get(w),
        decreases n - i,
    {
        let w = closed[i];
        adapters.remove(w);
        handlers.remove(w);
        proof {
            assert forall|w2: u128| spec_in_prefix(closed@, i as int + 1, w2)
                implies !adapters.spec_contains(w2) && !handlers.spec_contains(w2) by {
                if w2 != w {
                    assert(spec_in_prefix(closed@, i as int, w2));
                }
            }
            assert forall|w2: u128| !spec_in_prefix(closed@, i as int + 1, w2)
                implies !spec_in_prefix(closed@, i as int, w2) && w2 != w by {
                assert(closed@[i as int] == w);
            }
        }
        i = i + 1;
    }
    proof {
        assert forall|w: u128| closed@.contains(w) implies spec_in_prefix(
            closed@,
            closed@.len() as int,
            w,
        ) by {}
        assert forall|w: u128| !closed@.contains(w) implies !spec_in_prefix(
            closed@,
            closed@.len() as int,
            w,
        ) by {}
    }
}

} // verus!
