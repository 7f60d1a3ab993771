//! Key codec: an object id as a fixed-width big-endian storage key.
//!
//! A storage key is exactly [`KEY_WIDTH`] bytes. Decoding rejects a key of any
//! other width, and rejects the reserved null id, rather than truncating or
//! guessing: such a record is corrupt or foreign and is skipped by the loader.

use vstd::prelude::*;

verus! {

/// Width in bytes of every storage key.
pub const KEY_WIDTH: usize = 4;

/// Reserved id that never names a live object; a key decoding to it is rejected.
pub const NULL_ID: u32 = 0xffff_ffff;

/// The big-endian byte image of an object id.
pub open spec fn key_bytes_of(id: u32) -> Seq<u8> {
    seq![
        ((id >> 24) & 0xff) as u8,
        ((id >> 16) & 0xff) as u8,
        ((id >> 8) & 0xff) as u8,
        (id & 0xff) as u8,
    ]
}

/// The id whose big-endian image a 4-byte sequence is.
pub open spec fn be_value_of(b: Seq<u8>) -> u32
    recommends
        b.len() == KEY_WIDTH,
{
    (((b[0] as u32) << 24) | ((b[1] as u32) << 16) | ((b[2] as u32) << 8) | (b[3] as u32)) as u32
}

/// What decoding a candidate key yields: the id, or nothing for a key of the
/// wrong width or one naming the reserved null id.
pub open spec fn spec_decode(b: Seq<u8>) -> Option<u32> {
    if b.len() == KEY_WIDTH && be_value_of(b) != NULL_ID {
        Some(be_value_of(b))
    } else {
        None
    }
}

/// Encode an object id as its fixed-width big-endian storage key.
pub fn encode_key(id: u32) -> (r: Vec<u8>)
    ensures
        r@ == key_bytes_of(id),
        r.len() == KEY_WIDTH,
{
    let mut r: Vec<u8> = Vec::new();
    r.push(((id >> 24) & 0xff) as u8);
    r.push(((id >> 16) & 0xff) as u8);
    r.push(((id >> 8) & 0xff) as u8);
    r.push((id & 0xff) as u8);
    assert(r@ =~= key_bytes_of(id));
    r
}

/// Decode a candidate storage key. Returns the id it encodes, or `None` for a
/// key whose width is not exactly [`KEY_WIDTH`] or whose value is the reserved
/// null id.
pub fn decode_key(b: &[u8]) -> (r: Option<u32>)
    ensures
        r == spec_decode(b@),
{
    if b.len() != KEY_WIDTH {
        return None;
    }
    let v: u32 = ((b[0] as u32) << 24) | ((b[1] as u32) << 16) | ((b[2] as u32) << 8) | (b[3]
        as u32);
    if v == NULL_ID {
        None
    } else {
        Some(v)
    }
}

/// Every id other than the reserved null id survives an encode/decode round
/// trip: its key decodes back to it.
pub proof fn lemma_key_round_trip(id: u32)
    requires
        id != NULL_ID,
    ensures
        spec_decode(key_bytes_of(id)) == Some(id),
{
    let b = key_bytes_of(id);
    assert(be_value_of(b) == id) by {
        assert(((((((id >> 24) & 0xff) as u8) as u32) << 24) | (((((id >> 16) & 0xff) as u8)
            as u32) << 16) | (((((id >> 8) & 0xff) as u8) as u32) << 8) | ((((id & 0xff) as u8)
            as u32))) == id) by (bit_vector);
    }
}

/// Decoding is the inverse of encoding: a key that decodes to an id is exactly
/// that id's key image.
pub proof fn lemma_decode_then_encode(b: Seq<u8>, id: u32)
    requires
        spec_decode(b) == Some(id),
    ensures
        b =~= key_bytes_of(id),
{
    let b0 = b[0];
    let b1 = b[1];
    let b2 = b[2];
    let b3 = b[3];
    let v = be_value_of(b);
    assert(((((((b0 as u32) << 24) | ((b1 as u32) << 16) | ((b2 as u32) << 8) | (b3 as u32)) as u32)
        >> 24) & 0xff) as u8 == b0) by (bit_vector);
    assert(((((((b0 as u32) << 24) | ((b1 as u32) << 16) | ((b2 as u32) << 8) | (b3 as u32)) as u32)
        >> 16) & 0xff) as u8 == b1) by (bit_vector);
    assert(((((((b0 as u32) << 24) | ((b1 as u32) << 16) | ((b2 as u32) << 8) | (b3 as u32)) as u32)
        >> 8) & 0xff) as u8 == b2) by (bit_vector);
    assert((((((b0 as u32) << 24) | ((b1 as u32) << 16) | ((b2 as u32) << 8) | (b3 as u32)) as u32)
        & 0xff) as u8 == b3) by (bit_vector);
}

} // verus!
