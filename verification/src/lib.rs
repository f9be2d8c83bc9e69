//! Synchronization core for an externally-facing accessibility tree.
//!
//! The library keeps a hierarchy of semantic UI nodes, consumed by a
//! platform accessibility backend, in step with a per-cycle-updated
//! entity graph. It translates between two identifier spaces (64-bit
//! entity handles and 128-bit non-zero node identifiers), tracks the
//! last-known focus, owns one backend adapter and one action queue per
//! window, and decides, cycle by cycle, which tree updates are emitted.
//! The host's event loop performs the actual backend calls with the
//! batches computed here.

use vstd::prelude::*;

pub mod codec;
pub mod focus;
pub mod queue;
pub mod registry;
pub mod sync;

verus! {

/// The identifier of the designated primary window: the single window
/// whose adapter receives tree updates. Window identifiers are non-zero
/// 128-bit values assigned by the host's windowing layer, kept above the
/// range that entity handles encode into so that a window's synthetic
/// root never collides with an entity-derived identifier; this one
/// starts the window range at two to the ninety-sixth power.
pub const PRIMARY_WINDOW: u128 = 0x1000000000000000000000000;

/// A failure surfaced to callers of this library.
#[derive(Clone, Copy, Debug, PartialEq, Eq, Structural)]
pub enum AccessError {
    /// An external node identifier was zero or outside the image of the
    /// handle domain, so no entity handle corresponds to it.
    InvalidIdentifier,
}

/// One pass of the per-cycle pipeline, named for the host's scheduler.
#[derive(Clone, Copy, Debug, PartialEq, Eq, Structural)]
pub enum Stage {
    /// Window-focus transitions of the primary window.
    HandleFocus,
    /// Eviction of adapters and action queues of closed windows.
    WindowClosed,
    /// Drain of the action queues into the application's event stream.
    PollReceivers,
    /// The tree-update pass over changed semantic nodes.
    UpdateNodes,
    /// The removal pass, after the cycle's entity mutations are final.
    RemoveNodes,
}

/// The mandatory per-cycle order of the passes. The first four run early
/// in the cycle, in this order; the removal pass runs late, once every
/// entity mutation of the cycle is visible, so the root's child list is
/// never stale while a removal is in flight.
pub open spec fn pipeline_order() -> Seq<Stage> {
    seq![
        Stage::HandleFocus,
        Stage::WindowClosed,
        Stage::PollReceivers,
        Stage::UpdateNodes,
        Stage::RemoveNodes,
    ]
}

/// Glue the host registers once at startup: it owns the adapter and
/// queue registries and the focus tracker, and schedules the library's
/// passes as an ordered pipeline.
pub struct AccessibilityPlugin;

impl AccessibilityPlugin {
    /// The passes the host must run each cycle, in mandatory order.
    pub fn schedule(&self) -> (r: Vec<Stage>)
        ensures
            r@ == pipeline_order(),
    {
        let r = vec![
            Stage::HandleFocus,
            Stage::WindowClosed,
            Stage::PollReceivers,
            Stage::UpdateNodes,
            Stage::RemoveNodes,
        ];
        proof {
            assert(r@ =~= pipeline_order());
        }
        r
    }
}

} // verus!
