//! The vertex records read from a document and the buffers built from them.
use vstd::prelude::*;

verus! {

/// Three single-precision coordinates, each held as its IEEE 754 bit pattern.
#[derive(Clone, Copy, Debug, PartialEq, Eq, Structural)]
pub struct BitTriple {
    pub x: u32,
    pub y: u32,
    pub z: u32,
}

/// Two single-precision coordinates, each held as its IEEE 754 bit pattern.
#[derive(Clone, Copy, Debug, PartialEq, Eq, Structural)]
pub struct BitPair {
    pub u: u32,
    pub v: u32,
}

/// The bit pattern of the single-precision value `+0.0`.
pub const ZERO_BITS: u32 = 0;

/// The texture coordinate given to every vertex: `(0.0, 0.0)`.
pub open spec fn placeholder_tex_coord() -> BitPair {
    BitPair { u: ZERO_BITS, v: ZERO_BITS }
}

/// One vertex as the OBJ reader resolves it: a position and a normal.
#[derive(Clone, Copy, Debug, PartialEq, Eq, Structural)]
pub struct ParsedVertex {
    pub position: BitTriple,
    pub normal: BitTriple,
}

impl ParsedVertex {
    /// Builds a vertex from the bit patterns of its position and normal.
    pub fn from_bits(position: [u32; 3], normal: [u32; 3]) -> (r: ParsedVertex)
        ensures
            r.position == (BitTriple { x: position[0], y: position[1], z: position[2] }),
            r.normal == (BitTriple { x: normal[0], y: normal[1], z: normal[2] }),
    {
        ParsedVertex {
            position: BitTriple { x: position[0], y: position[1], z: position[2] },
            normal: BitTriple { x: normal[0], y: normal[1], z: normal[2] },
        }
    }
}

/// Three parallel vertex buffers: entry `i` of each describes vertex `i`.
#[derive(Debug)]
pub struct MeshBuffers {
    pub positions: Vec<BitTriple>,
    pub normals: Vec<BitTriple>,
    pub tex_coords: Vec<BitPair>,
}

impl MeshBuffers {
    /// The three buffers have one entry per vertex each.
    pub open spec fn well_formed(&self) -> bool {
        &&& self.positions@.len() == self.normals@.len()
        &&& self.normals@.len() == self.tex_coords@.len()
    }

    /// The buffers hold exactly the given vertices, in order: each position and
    /// normal as it was read, and the placeholder texture coordinate.
    pub open spec fn describes(&self, vertices: Seq<ParsedVertex>) -> bool {
        &&& self.positions@ == vertices.map_values(|v: ParsedVertex| v.position)
        &&& self.normals@ == vertices.map_values(|v: ParsedVertex| v.normal)
        &&& self.tex_coords@ == Seq::new(vertices.len(), |i: int| placeholder_tex_coord())
    }

    /// The number of vertices that the buffers describe.
    pub fn vertex_count(&self) -> (r: usize)
        requires
            self.well_formed(),
        ensures
            r == self.positions@.len(),
    {
        self.positions.len()
    }
}

/// Builds the three buffers from the vertices that the reader resolved: the
/// position and normal of each vertex unchanged, and the texture coordinate
/// `(0.0, 0.0)`, in the order of the vertices.
pub fn build_buffers(vertices: &Vec<ParsedVertex>) -> (r: MeshBuffers)
    ensures
        r.well_formed(),
        r.describes(vertices@),
{
    let n = vertices.len();
    let mut positions: Vec<BitTriple> = Vec::with_capacity(n);
    let mut normals: Vec<BitTriple> = Vec::with_capacity(n);
    let mut tex_coords: Vec<BitPair> = Vec::with_capacity(n);
    let mut i: usize = 0;
    while i < n
        invariant
            n == vertices@.len(),
            i <= n,
            positions@ == vertices@.subrange(0, i as int).map_values(|v: ParsedVertex| v.position),
            normals@ == vertices@.subrange(0, i as int).map_values(|v: ParsedVertex| v.normal),
            tex_coords@ == Seq::new(i as nat, |k: int| placeholder_tex_coord()),
        decreases n - i,
    {
        let v = vertices[i];
        positions.push(v.position);
        normals.push(v.normal);
        tex_coords.push(BitPair { u: ZERO_BITS, v: ZERO_BITS });
        proof {
            assert(vertices@.subrange(0, i + 1) == vertices@.subrange(0, i as int).push(v));
        }
        i = i + 1;
        proof {
            assert(positions@ =~= vertices@.subrange(0, i as int).map_values(|v: ParsedVertex| v.position));
            assert(normals@ =~= vertices@.subrange(0, i as int).map_values(|v: ParsedVertex| v.normal));
            assert(tex_coords@ =~= Seq::new(i as nat, |k: int| placeholder_tex_coord()));
        }
    }
    assert(vertices@.subrange(0, n as int) == vertices@);
    MeshBuffers { positions, normals, tex_coords }
}

} // verus!
