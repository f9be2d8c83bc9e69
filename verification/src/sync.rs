//! Tree synchronizer: decides, cycle by cycle, which tree updates the
//! accessibility backend receives.
//!
//! The update pass runs early in a cycle, once entity mutations are
//! visible: it batches every changed semantic node behind a freshly
//! rebuilt synthetic root whose child list names *all* live nodes, and
//! emits nothing when nothing changed. The removal pass runs late, after
//! removals are visible: it reconciles the tracked focus with the
//! removed set and emits a root-only update whose child list reflects
//! the post-removal membership and whose focus target is always defined.

use vstd::prelude::*;

use crate::PRIMARY_WINDOW;
use crate::codec::{root_node_id, spec_node_id, spec_root_node_id, to_node_id};
use crate::focus::LastFocus;
use crate::registry::Adapters;

verus! {

/// The semantic-node record attached to one live entity. Its protocol
/// content `N` (role, name, bounds, relationships) is created by
/// application logic and is opaque to this core, which only pairs it
/// with identifiers and forwards it.
#[derive(Clone, Debug, PartialEq, Eq)]
pub struct AccessibilityNode<N>(pub N);

impl<N> From<N> for AccessibilityNode<N> {
    fn from(node: N) -> (r: Self) {
        AccessibilityNode(node)
    }
}

impl<N> vstd::std_specs::convert::FromSpecImpl<N> for AccessibilityNode<N> {
    open spec fn obeys_from_spec() -> bool {
        true
    }

    open spec fn from_spec(node: N) -> Self {
        AccessibilityNode(node)
    }
}

/// One entry of a tree-update batch: the synthetic root node, carrying
/// the external identifiers of its children, or the content of one
/// semantic node.
#[derive(Clone, Debug, PartialEq, Eq)]
pub enum NodePayload<N> {
    /// The per-window virtual node representing the window itself.
    WindowRoot { children: Vec<u128> },
    /// An application-provided semantic node.
    Content(AccessibilityNode<N>),
}

/// A tree update for the backend: `(identifier, node)` entries — the
/// root entry first whenever one is present, as backends require parents
/// before children — and an optional focus target.
#[derive(Clone, Debug, PartialEq, Eq)]
pub struct TreeUpdateBatch<N> {
    pub nodes: Vec<(u128, NodePayload<N>)>,
    pub focus: Option<u128>,
}

/// The external identifiers of the entities in `live`, in order.
pub open spec fn spec_children(live: Seq<u64>) -> Seq<u128> {
    live.map_values(|h: u64| spec_node_id(h))
}

/// Whether `e` is the root entry of the window `window_id` whose child
/// list names exactly the entities in `live`, in order.
pub open spec fn spec_root_entry<N>(
    e: (u128, NodePayload<N>),
    window_id: u128,
    live: Seq<u64>,
) -> bool {
    &&& e.0 == spec_root_node_id(window_id)
    &&& match e.1 {
        NodePayload::WindowRoot { children } => children@ == spec_children(live),
        NodePayload::Content(_) => false,
    }
}

/// Encode every entity in `live` to its external identifier, in order.
fn encode_all(live: &Vec<u64>) -> (r: Vec<u128>)
    ensures
        r@ == spec_children(live@),
{
    let mut r: Vec<u128> = Vec::new();
    let n = live.len();
    let mut i: usize = 0;
    while i < n
        invariant
            n == live@.len(),
            i <= n,
            r@.len() == i,
            forall|k: int| 0 <= k < i ==> r@[k] == spec_node_id(live@[k]),
        decreases n - i,
    {
        r.push(to_node_id(live[i]));
        i = i + 1;
    }
    proof {
        assert(r@ =~= spec_children(live@));
    }
    r
}

/// The update pass. `changed` pairs every entity whose semantic node was
/// added or mutated since the previous pass with that node's content;
/// `live` is every entity currently holding a semantic node, in the
/// store's stable enumeration order. Returns the batch to send to the
/// primary adapter: the rebuilt root first — its children are *all* of
/// `live`, not just the changed subset — then one entry per changed
/// node, in `changed` order. Returns nothing exactly when nothing
/// changed or no primary adapter is registered.
pub fn update_accessibility_nodes<A, N>(
    adapters: &Adapters<A>,
    changed: Vec<(u64, AccessibilityNode<N>)>,
    live: &Vec<u64>,
) -> (r: Option<TreeUpdateBatch<N>>)
    requires
        adapters.wf(),
    ensures
        r is Some <==> (changed@.len() > 0 && adapters.spec_contains(PRIMARY_WINDOW)),
        r matches Some(b) ==> {
            &&& b.focus is None
            &&& b.nodes@.len() == changed@.len() + 1
            &&& spec_root_entry(b.nodes@[0], PRIMARY_WINDOW, live@)
            &&& forall|k: int|
                0 <= k < changed@.len() ==> b.nodes@[k + 1].0 == spec_node_id(changed@[k].0)
                    && b.nodes@[k + 1].1 == NodePayload::Content(changed@[k].1)
        },
{
    let ghost changed0 = changed@;
    if changed.len() == 0 {
        return None;
    }
    if adapters.get_primary_adapter().is_none() {
        return None;
    }
    let root_id = root_node_id(PRIMARY_WINDOW);
    let children = encode_all(live);
    let mut nodes: Vec<(u128, NodePayload<N>)> = Vec::new();
    nodes.push((root_id, NodePayload::WindowRoot { children }));
    let mut rest = changed;
    while rest.len() > 0
        invariant
            rest@.len() <= changed0.len(),
            rest@ == changed0.subrange(
                changed0.len() - rest@.len(),
                changed0.len() as int,
            ),
            nodes@.len() == 1 + changed0.len() - rest@.len(),
            spec_root_entry(nodes@[0], PRIMARY_WINDOW, live@),
            forall|k: int|
                0 <= k < changed0.len() - rest@.len() ==> nodes@[k + 1].0 == spec_node_id(
                    changed0[k].0,
                ) && nodes@[k + 1].1 == NodePayload::Content(changed0[k].1),
        decreases rest@.len(),
    {
        let ghost done = changed0.len() - rest@.len();
        let (h, node) = rest.remove(0);
        proof {
            assert(h == changed0[done].0 && node == changed0[done].1);
            assert(rest@ =~= changed0.subrange(done + 1, changed0.len() as int));
        }
        nodes.push((to_node_id(h), NodePayload::Content(node)));
    }
    Some(TreeUpdateBatch { nodes, focus: None })
}

/// Whether the remembered focus `last` is the encoding of some entity in
/// `removed`.
pub open spec fn spec_focus_hits_removed(last: Option<u128>, removed: Seq<u64>) -> bool {
    match last {
        Some(id) => exists|i: int| 0 <= i < removed.len() && spec_node_id(removed[i]) == id,
        None => false,
    }
}

/// The focus target a removal-pass update declares: the remembered
/// focus, or the primary root as the fallback when none is remembered.
pub open spec fn spec_removal_focus(last: Option<u128>) -> u128 {
    match last {
        Some(id) => id,
        None => spec_root_node_id(PRIMARY_WINDOW),
    }
}

/// Whether `removed` holds the handle `h`.
fn contains_handle(removed: &Vec<u64>, h: u64) -> (r: bool)
    ensures
        r == exists|i: int| 0 <= i < removed@.len() && removed@[i] == h,
{
    let n = removed.len();
    let mut i: usize = 0;
    while i < n
        invariant
            n == removed@.len(),
            i <= n,
            forall|k: int| 0 <= k < i ==> removed@[k] != h,
        decreases n - i,
    {
        if removed[i] == h {
            return true;
        }
        i = i + 1;
    }
    false
}

/// The removal pass. `removed` is every entity whose semantic node was
/// removed since the previous pass; `remaining` is every entity still
/// holding one (the post-removal membership). When `removed` is
/// non-empty: the tracked focus is cleared exactly when it was the
/// encoding of a removed entity, and — with a primary adapter present —
/// a root-only update is emitted whose child list is the remaining
/// membership and whose focus is the (reconciled) tracked focus, falling
/// back to the root's own identifier. So the backend never receives a
/// dangling child or an undefined focus target after a removal.
pub fn remove_accessibility_nodes<A, N>(
    adapters: &Adapters<A>,
    last_focus: &mut LastFocus,
    removed: &Vec<u64>,
    remaining: &Vec<u64>,
) -> (r: Option<TreeUpdateBatch<N>>)
    requires
        adapters.wf(),
        old(last_focus).wf(),
    ensures
        final(last_focus).wf(),
        final(last_focus).0 == (if removed@.len() > 0 && spec_focus_hits_removed(
            old(last_focus).0,
            removed@,
        ) {
            None::<u128>
        } else {
            old(last_focus).0
        }),
        r is Some <==> (removed@.len() > 0 && adapters.spec_contains(PRIMARY_WINDOW)),
        r matches Some(b) ==> {
            &&& b.nodes@.len() == 1
            &&& spec_root_entry(b.nodes@[0], PRIMARY_WINDOW, remaining@)
            &&& b.focus == Some(spec_removal_focus(final(last_focus).0))
        },
        // When the focused entity itself was removed, the emitted focus
        // falls back to the root's own identifier.
        r matches Some(b) ==> (spec_focus_hits_removed(old(last_focus).0, removed@) ==> b.focus
            == Some(spec_root_node_id(PRIMARY_WINDOW))),
        // When the focused entity was not removed, the emitted focus is
        // the remembered one, unchanged.
        r matches Some(b) ==> ((!spec_focus_hits_removed(old(last_focus).0, removed@) && old(
            last_focus,
        ).0 is Some) ==> b.focus == old(last_focus).0),
{
    if removed.len() == 0 {
        return None;
    }
    match last_focus.entity() {
        Some(fh) => {
            if contains_handle(removed, fh) {
                last_focus.0 = None;
            }
            proof {
                if exists|i: int| 0 <= i < removed@.len() && removed@[i] == fh {
                    let i = choose|i: int| 0 <= i < removed@.len() && removed@[i] == fh;
                    assert(spec_node_id(removed@[i]) == spec_node_id(fh));
                }
                if spec_focus_hits_removed(old(last_focus).0, removed@) {
                    let i = choose|i: int|
                        0 <= i < removed@.len() && spec_node_id(removed@[i]) == spec_node_id(fh);
                    assert(removed@[i] == fh);
                }
            }
        },
        None => {},
    }
    match adapters.get_primary_adapter() {
        None => None,
        Some(_adapter) => {
            let root_id = root_node_id(PRIMARY_WINDOW);
            let children = encode_all(remaining);
            let mut nodes: Vec<(u128, NodePayload<N>)> = Vec::new();
            nodes.push((root_id, NodePayload::WindowRoot { children }));
            let focus: u128 = match last_focus.0 {
                Some(id) => id,
                None => root_id,
            };
            Some(TreeUpdateBatch { nodes, focus: Some(focus) })
        },
    }
}

/// Law: the synthetic root of the primary window never appears in a
/// child list — children are entity-derived identifiers, and the primary
/// window's identifier lies above their range.
pub proof fn lemma_root_never_a_child(live: Seq<u64>)
    ensures
        !spec_children(live).contains(spec_root_node_id(PRIMARY_WINDOW)),
{
    if spec_children(live).contains(spec_root_node_id(PRIMARY_WINDOW)) {
        let j = choose|j: int|
            0 <= j < spec_children(live).len() && spec_children(live)[j] == spec_root_node_id(
                PRIMARY_WINDOW,
            );
        assert(spec_children(live)[j] == spec_node_id(live[j]));
        crate::codec::lemma_root_disjoint_from_entities(live[j]);
        assert(false);
    }
}

/// Law: a removal-pass child list holds no identifier of a removed
/// entity. The list is built from the remaining membership, which shares
/// no handle with the removed set, and encoding is injective.
pub proof fn lemma_removal_children_exclude_removed(removed: Seq<u64>, remaining: Seq<u64>)
    requires
        forall|i: int, j: int|
            0 <= i < removed.len() && 0 <= j < remaining.len() ==> removed[i] != remaining[j],
    ensures
        forall|i: int|
            0 <= i < removed.len() ==> !spec_children(remaining).contains(spec_node_id(removed[i])),
{
    assert forall|i: int| 0 <= i < removed.len() implies !spec_children(remaining).contains(
        spec_node_id(removed[i]),
    ) by {
        if spec_children(remaining).contains(spec_node_id(removed[i])) {
            let j = choose|j: int|
                0 <= j < spec_children(remaining).len() && spec_children(remaining)[j]
                    == spec_node_id(removed[i]);
            assert(spec_children(remaining)[j] == spec_node_id(remaining[j]));
            assert(removed[i] == remaining[j]);
            assert(false);
        }
    }
}

} // verus!
