//! Bidirectional, lossless mapping between internal entity handles and
//! the external node identifiers required by the accessibility protocol.
//!
//! An entity handle `h` encodes to the external identifier `h + 1`, over
//! the unsigned 128-bit domain, so that the handle `0` maps to `1` and
//! zero — reserved by the protocol — is never produced. Decoding rejects
//! zero and every value above the image of the handle domain.

use vstd::prelude::*;

use crate::{AccessError, PRIMARY_WINDOW};

verus! {

/// The external identifier that the entity handle `handle` encodes to.
pub open spec fn spec_node_id(handle: u64) -> u128 {
    (handle + 1) as u128
}

/// The external identifier of the synthetic root node for the window
/// with identifier `window_id`: the window's own identifier. The host
/// must keep window identifiers non-zero and out of the range that
/// entity handles encode into — as [`PRIMARY_WINDOW`] is — so that the
/// root never collides with an entity-derived identifier.
pub open spec fn spec_root_node_id(window_id: u128) -> u128 {
    window_id
}

/// Whether `id` is a decodable external node identifier: non-zero and
/// within the image of the handle domain under encoding.
pub open spec fn valid_node_id(id: u128) -> bool {
    1 <= id <= u64::MAX as u128 + 1
}

/// Encode an entity handle as an external node identifier. Total,
/// pure, and never returns the reserved value zero.
pub fn to_node_id(handle: u64) -> (id: u128)
    ensures
        id == spec_node_id(handle),
        id != 0,
{
    handle as u128 + 1
}

/// Decode an external node identifier back to the entity handle that
/// encodes to it. Fails with [`AccessError::InvalidIdentifier`] exactly
/// when `id` is zero or above the image of the handle domain.
pub fn from_node_id(id: u128) -> (r: Result<u64, AccessError>)
    ensures
        r is Ok <==> valid_node_id(id),
        r matches Ok(handle) ==> id == spec_node_id(handle),
        r is Err ==> r == Err::<u64, AccessError>(AccessError::InvalidIdentifier),
{
    if id == 0 || id > u64::MAX as u128 + 1 {
        Err(AccessError::InvalidIdentifier)
    } else {
        Ok((id - 1) as u64)
    }
}

/// The external node identifier of the synthetic root node for the
/// window `window_id`. The windowing layer never assigns the reserved
/// identifier zero.
pub fn root_node_id(window_id: u128) -> (id: u128)
    requires
        window_id != 0,
    ensures
        id == spec_root_node_id(window_id),
        id != 0,
{
    window_id
}

/// Law: the identifier mapping is a bijection between the handle domain
/// and the valid identifiers — every encoded handle is a valid
/// identifier, decoding it recovers exactly that handle, and every valid
/// identifier is the encoding of some handle.
pub proof fn lemma_codec_round_trip(handle: u64, id: u128)
    ensures
        valid_node_id(spec_node_id(handle)),
        spec_node_id(handle) == spec_node_id(id as u64) ==> handle == id as u64,
        valid_node_id(id) ==> exists|h: u64| spec_node_id(h) == id,
{
    if valid_node_id(id) {
        assert(spec_node_id((id - 1) as u64) == id);
    }
}

/// Law: encoding is injective — distinct handles encode to distinct
/// external identifiers.
pub proof fn lemma_encode_injective(a: u64, b: u64)
    ensures
        spec_node_id(a) == spec_node_id(b) ==> a == b,
{
}

/// Law: the primary window's identifier lies above the image of the
/// handle domain, so its synthetic root's identifier never collides with
/// an entity-derived identifier and never decodes to an entity handle.
pub proof fn lemma_root_disjoint_from_entities(handle: u64)
    ensures
        spec_root_node_id(PRIMARY_WINDOW) != spec_node_id(handle),
        !valid_node_id(spec_root_node_id(PRIMARY_WINDOW)),
{
}

} // verus!
