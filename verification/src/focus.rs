//! Focus tracker: remembers the last-known focused external node
//! identifier across cycles and reconciles it with window-focus
//! transitions.
//!
//! The remembered identifier is always one that an entity handle encodes
//! to, so it can always be decoded back. When a focus-gained event
//! arrives with nothing remembered, the fallback target is the synthetic
//! root of the primary window: the window itself is focusable by
//! default.

use vstd::prelude::*;

use crate::PRIMARY_WINDOW;
use crate::codec::{from_node_id, root_node_id, spec_node_id, spec_root_node_id, valid_node_id};
use crate::registry::Adapters;

verus! {

/// The last external node identifier known to be focused, or absent.
/// Initialized empty at startup, persists across cycles, cleared when
/// the focused node is removed.
pub struct LastFocus(pub Option<u128>);

impl LastFocus {
    /// Any remembered identifier is one an entity handle encodes to.
    pub open spec fn wf(self) -> bool {
        match self.0 {
            Some(id) => valid_node_id(id),
            None => true,
        }
    }

    /// Remember the focus as the encoding of `entity`, or as unset.
    pub fn from_entity(&mut self, entity: Option<u64>)
        ensures
            final(self).wf(),
            match entity {
                Some(h) => final(self).0 == Some(spec_node_id(h)),
                None => final(self).0 is None,
            },
    {
        match entity {
            Some(h) => {
                self.0 = Some(crate::codec::to_node_id(h));
            },
            None => {
                self.0 = None;
            },
        }
    }

    /// The entity handle whose encoding is the remembered focus, or
    /// absent when no focus is remembered.
    pub fn entity(&self) -> (r: Option<u64>)
        requires
            self.wf(),
        ensures
            r is Some <==> self.0 is Some,
            r matches Some(h) ==> self.0 == Some(spec_node_id(h)),
    {
        match self.0 {
            None => None,
            Some(id) => match from_node_id(id) {
                Ok(h) => Some(h),
                Err(_) => None,
            },
        }
    }

    /// Remember an explicitly observed focus change.
    pub fn note_focus(&mut self, id: u128)
        requires
            valid_node_id(id),
        ensures
            final(self).wf(),
            final(self).0 == Some(id),
    {
        self.0 = Some(id);
    }
}

impl Default for LastFocus {
    /// At startup nothing is remembered as focused.
    fn default() -> (r: LastFocus)
        ensures
            r.wf(),
            r.0 is None,
    {
        LastFocus(None)
    }
}

/// The focus target declared on a focus-gained transition: the
/// remembered focus, or — when none was ever remembered — the synthetic
/// root of the primary window.
pub open spec fn spec_focus_target(last: LastFocus) -> u128 {
    match last.0 {
        Some(id) => id,
        None => spec_root_node_id(PRIMARY_WINDOW),
    }
}

/// The focus updates owed for the window-focus transitions `events`, in
/// event order: one per transition of the primary window — the focus
/// target on a gain, no focused node on a loss — and none for any other
/// window.
pub open spec fn spec_focus_updates(
    last: LastFocus,
    events: Seq<(u128, bool)>,
) -> Seq<Option<u128>>
    decreases events.len(),
{
    if events.len() == 0 {
        Seq::empty()
    } else {
        let rest = spec_focus_updates(last, events.drop_last());
        let e = events.last();
        if e.0 == PRIMARY_WINDOW {
            rest.push(
                if e.1 {
                    Some(spec_focus_target(last))
                } else {
                    None
                },
            )
        } else {
            rest
        }
    }
}

/// Handle this cycle's window-focus transitions, in event order: each
/// event pairs a window identifier with whether that window gained
/// focus. For each transition of the primary window, the tree update to
/// emit declares the focus target on a gain and no focused node on a
/// loss; other windows' transitions are ignored, and with no primary
/// adapter registered nothing is emitted at all.
pub fn handle_focus<A>(
    last_focus: &LastFocus,
    adapters: &Adapters<A>,
    events: &Vec<(u128, bool)>,
) -> (r: Vec<Option<u128>>)
    requires
        adapters.wf(),
    ensures
        !adapters.spec_contains(PRIMARY_WINDOW) ==> r@.len() == 0,
        adapters.spec_contains(PRIMARY_WINDOW) ==> r@ == spec_focus_updates(
            *last_focus,
            events@,
        ),
{
    let focus_id: u128 = match last_focus.0 {
        Some(id) => id,
        None => root_node_id(PRIMARY_WINDOW),
    };
    let mut out: Vec<Option<u128>> = Vec::new();
    if adapters.get_primary_adapter().is_none() {
        return out;
    }
    let n = events.len();
    let mut i: usize = 0;
    while i < n
        invariant
            n == events@.len(),
            i <= n,
            focus_id == spec_focus_target(*last_focus),
            out@ == spec_focus_updates(*last_focus, events@.subrange(0, i as int)),
        decreases n - i,
    {
        let (window_id, gained) = events[i];
        if window_id == PRIMARY_WINDOW {
            if gained {
                out.push(Some(focus_id));
            } else {
                out.push(None);
            }
        }
        proof {
            let pre = events@.subrange(0, i as int);
            let cur = events@.subrange(0, i as int + 1);
            assert(cur.drop_last() =~= pre);
            assert(cur.last() == events@[i as int]);
        }
        i = i + 1;
    }
    proof {
        assert(events@.subrange(0, n as int) =~= events@);
    }
    out
}

} // verus!
