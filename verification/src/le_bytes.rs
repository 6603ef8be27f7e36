//! The 4-byte little-endian encoding of an unsigned 32-bit integer, used
//! both by the instruction codec (payload arguments) and by the persisted
//! account record.
use vstd::prelude::*;

verus! {

use vstd::slice::slice_index_get;

/// The value a 4-byte little-endian sequence stands for.
pub open spec fn spec_u32_from_le(s: Seq<u8>) -> u32
    recommends
        s.len() == 4,
{
    ((s[0] as int) + 0x100 * (s[1] as int) + 0x1_0000 * (s[2] as int) + 0x100_0000 * (
    s[3] as int)) as u32
}

/// The 4-byte little-endian sequence standing for a value.
pub open spec fn spec_u32_to_le(x: u32) -> Seq<u8> {
    seq![
        (x % 0x100) as u8,
        ((x / 0x100) % 0x100) as u8,
        ((x / 0x1_0000) % 0x100) as u8,
        ((x / 0x100_0000) % 0x100) as u8,
    ]
}

/// Read one unsigned 32-bit integer from 4 little-endian bytes.
pub fn u32_from_le(bytes: &[u8]) -> (r: u32)
    requires
        bytes@.len() == 4,
    ensures
        r == spec_u32_from_le(bytes@),
{
    let b0 = *slice_index_get(bytes, 0);
    let b1 = *slice_index_get(bytes, 1);
    let b2 = *slice_index_get(bytes, 2);
    let b3 = *slice_index_get(bytes, 3);
    (b0 as u32) + 0x100 * (b1 as u32) + 0x1_0000 * (b2 as u32) + 0x100_0000 * (b3 as u32)
}

/// Write one unsigned 32-bit integer as 4 little-endian bytes.
pub fn u32_to_le(x: u32) -> (r: Vec<u8>)
    ensures
        r@ == spec_u32_to_le(x),
        r@.len() == 4,
{
    let mut r: Vec<u8> = Vec::new();
    r.push((x % 0x100) as u8);
    r.push(((x / 0x100) % 0x100) as u8);
    r.push(((x / 0x1_0000) % 0x100) as u8);
    r.push(((x / 0x100_0000) % 0x100) as u8);
    proof {
        assert(r@ =~= spec_u32_to_le(x));
    }
    r
}

/// Encoding a value and reading the bytes back yields the value again.
pub proof fn lemma_u32_le_roundtrip(x: u32)
    ensures
        spec_u32_from_le(spec_u32_to_le(x)) == x,
{
    assert(x % 0x100 + 0x100 * ((x / 0x100) % 0x100) + 0x1_0000 * ((x / 0x1_0000) % 0x100)
        + 0x100_0000 * ((x / 0x100_0000) % 0x100) == x) by (bit_vector);
}

} // verus!
