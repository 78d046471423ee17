//! The wire unit of the protocol: a 4-byte unsigned length field followed by
//! exactly that many payload bytes.
//!
//! The length field uses the byte order of the host processor, with no
//! normalization; this implementation targets little-endian hosts, where that
//! order is little-endian.

use vstd::bytes::{
    lemma_auto_spec_u32_to_from_le_bytes, spec_u32_from_le_bytes, spec_u32_to_le_bytes,
    u32_from_le_bytes, u32_to_le_bytes,
};
use vstd::prelude::*;

verus! {

/// The number of bytes in the length field of a frame.
pub const LEN_FIELD_BYTES: usize = 4;

/// The bytes of one complete frame carrying `payload`.
///
/// Meaningful only when `payload.len()` fits in the 4-byte length field.
pub open spec fn spec_frame(payload: Seq<u8>) -> Seq<u8> {
    spec_u32_to_le_bytes(payload.len() as u32) + payload
}

/// Builds the frame that carries `payload`: the payload's length as a 4-byte
/// field, then the payload itself.
///
/// Returns `None` when the payload is too long for the length field; such a
/// payload cannot be framed at all, and the caller must treat this as a
/// broken output channel.
pub fn encode_frame(payload: &Vec<u8>) -> (r: Option<Vec<u8>>)
    ensures
        payload@.len() <= u32::MAX ==> (r matches Some(f) && f@ == spec_frame(payload@)),
        payload@.len() > u32::MAX ==> r is None,
{
    if payload.len() > u32::MAX as usize {
        return None;
    }
    let len: u32 = payload.len() as u32;
    let mut f = u32_to_le_bytes(len);
    f.extend_from_slice(payload.as_slice());
    Some(f)
}

/// Reads the length field of a frame: the number of payload bytes that
/// follow the 4-byte prefix.
pub fn frame_len(prefix: &[u8]) -> (n: u32)
    requires
        prefix@.len() == LEN_FIELD_BYTES,
    ensures
        n == spec_u32_from_le_bytes(prefix@),
{
    u32_from_le_bytes(prefix)
}

/// Round-trip framing: for every payload that fits in the length field, the
/// frame that carries it starts with a length field that decodes to exactly
/// the payload's byte length, and the rest of the frame is the payload
/// itself.
pub proof fn lemma_frame_round_trip(payload: Seq<u8>)
    requires
        payload.len() <= u32::MAX,
    ensures
        spec_frame(payload).len() == LEN_FIELD_BYTES + payload.len(),
        spec_u32_from_le_bytes(spec_frame(payload).subrange(0, LEN_FIELD_BYTES as int))
            == payload.len(),
        spec_frame(payload).skip(LEN_FIELD_BYTES as int) == payload,
{
    lemma_auto_spec_u32_to_from_le_bytes();
    assert(spec_frame(payload).subrange(0, 4) =~= spec_u32_to_le_bytes(payload.len() as u32));
    assert(spec_frame(payload).skip(4) =~= payload);
}

} // verus!
