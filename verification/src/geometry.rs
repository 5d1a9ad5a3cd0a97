//! The fixed quad geometry: one full-viewport quad drawn as two
//! triangles over four vertices, described by a constant index list. The
//! vertex data itself (positions and texture coordinates) lives with the
//! GPU plumbing; the index list and its byte form are fixed here.

use vstd::prelude::*;

verus! {

/// The constant index list describing the two triangles of the
/// full-viewport quad over its four vertices.
pub fn quad_indices() -> (r: Vec<u16>)
    ensures
        r@ == seq![0u16, 1u16, 2u16, 3u16, 2u16, 1u16],
        forall|j: int| 0 <= j < r@.len() ==> r@[j] < 4,
{
    let mut v: Vec<u16> = Vec::new();
    v.push(0);
    v.push(1);
    v.push(2);
    v.push(3);
    v.push(2);
    v.push(1);
    proof {
        assert(v@ =~= seq![0u16, 1u16, 2u16, 3u16, 2u16, 1u16]);
    }
    v
}

/// The two-byte little-endian form of each element in order: low byte
/// first, then high byte — the layout the GPU's 16-bit index format
/// consumes.
pub open spec fn bytes_of_u16s(s: Seq<u16>) -> Seq<u8> {
    Seq::new(
        2 * s.len(),
        |i: int|
            if i % 2 == 0 {
                (s[i / 2] % 256) as u8
            } else {
                (s[i / 2] / 256) as u8
            },
    )
}

/// Serializes 16-bit values as little-endian bytes, two per element.
pub fn u16s_to_le_bytes(v: &Vec<u16>) -> (r: Vec<u8>)
    ensures
        r@ == bytes_of_u16s(v@),
        r@.len() == 2 * v@.len(),
{
    let mut r: Vec<u8> = Vec::new();
    let mut i: usize = 0;
    while i < v.len()
        invariant
            i <= v@.len(),
            r@.len() == 2 * i,
            forall|j: int| 0 <= j < r@.len() ==> r@[j] == bytes_of_u16s(v@)[j],
        decreases v@.len() - i,
    {
        let x: u16 = v[i];
        r.push((x % 256) as u8);
        r.push((x / 256) as u8);
        i = i + 1;
    }
    proof {
        assert(r@ =~= bytes_of_u16s(v@));
    }
    r
}

/// The quad's index list as the raw bytes of the GPU index buffer: the
/// six indices as little-endian 16-bit values, twelve bytes.
pub fn quad_index_bytes() -> (r: Vec<u8>)
    ensures
        r@ == bytes_of_u16s(seq![0u16, 1u16, 2u16, 3u16, 2u16, 1u16]),
        r@ == seq![0u8, 0u8, 1u8, 0u8, 2u8, 0u8, 3u8, 0u8, 2u8, 0u8, 1u8, 0u8],
{
    let idx = quad_indices();
    let r = u16s_to_le_bytes(&idx);
    proof {
        assert(r@ =~= seq![0u8, 0u8, 1u8, 0u8, 2u8, 0u8, 3u8, 0u8, 2u8, 0u8, 1u8, 0u8]);
    }
    r
}

} // verus!
