//! The mesh that is drawn: a tetrahedron, uploaded once and never changed.
//!
//! A coordinate is held as the bit pattern of a 32-bit IEEE-754 number, so
//! that the bytes handed to the device are those of the number itself.

use vstd::prelude::*;

verus! {

/// The bit pattern of the 32-bit floating-point number zero.
pub const COORD_ZERO: u32 = 0x0000_0000;

/// The bit pattern of the 32-bit floating-point number one.
pub const COORD_ONE: u32 = 0x3F80_0000;

/// The byte of `word` at position `k`, counted from the least significant.
pub open spec fn byte_of(word: u32, k: int) -> u8 {
    if k == 0 {
        (word % 256) as u8
    } else if k == 1 {
        ((word / 0x100) % 256) as u8
    } else if k == 2 {
        ((word / 0x1_0000) % 256) as u8
    } else {
        ((word / 0x100_0000) % 256) as u8
    }
}

/// The bytes of a run of word triples laid out one after the other, each word
/// in four bytes, least significant first or most significant first.
pub open spec fn byte_image(words: Seq<[u32; 3]>, big_endian: bool) -> Seq<u8> {
    Seq::new(
        12 * words.len(),
        |i: int|
            {
                let word = words[i / 12][(i % 12) / 4];
                let k = i % 4;
                byte_of(
                    word,
                    if big_endian {
                        3 - k
                    } else {
                        k
                    },
                )
            },
    )
}

/// Whether `bytes` is how some machine lays `words` out in memory.
pub open spec fn is_memory_image(bytes: Seq<u8>, words: Seq<[u32; 3]>) -> bool {
    bytes == byte_image(words, false) || bytes == byte_image(words, true)
}

/// The four corners of the tetrahedron: the origin and the unit points of the
/// three axes.
pub open spec fn tetrahedron_vertices() -> Seq<[u32; 3]> {
    seq![
        [COORD_ZERO, COORD_ZERO, COORD_ZERO],
        [COORD_ONE, COORD_ZERO, COORD_ZERO],
        [COORD_ZERO, COORD_ONE, COORD_ZERO],
        [COORD_ZERO, COORD_ZERO, COORD_ONE],
    ]
}

/// The four faces of the tetrahedron, each counter-clockwise when seen from
/// outside.
pub open spec fn tetrahedron_indices() -> Seq<[u32; 3]> {
    seq![[0u32, 2u32, 1u32], [0u32, 3u32, 2u32], [0u32, 1u32, 3u32], [1u32, 2u32, 3u32]]
}

/// Whether every corner of the triangle names one of `vertex_count` vertices.
pub open spec fn triangle_in_range(triangle: [u32; 3], vertex_count: nat) -> bool {
    triangle[0] < vertex_count && triangle[1] < vertex_count && triangle[2] < vertex_count
}

/// Vertex positions and the triangles over them.
pub struct MeshModel3D {
    /// One position per vertex: x, y and z as bit patterns.
    pub vertices: Vec<[u32; 3]>,
    /// One entry per triangle: the indices of its three corners.
    pub indices: Vec<[u32; 3]>,
}

impl MeshModel3D {
    /// Every index names a vertex of the mesh.
    pub open spec fn well_formed(&self) -> bool {
        forall|t: int|
            0 <= t < self.indices@.len() ==> triangle_in_range(
                #[trigger] self.indices@[t],
                self.vertices@.len(),
            )
    }

    /// The tetrahedron.
    pub fn new() -> (mesh: MeshModel3D)
        ensures
            mesh.vertices@ == tetrahedron_vertices(),
            mesh.indices@ == tetrahedron_indices(),
            mesh.well_formed(),
    {
        let mut vertices: Vec<[u32; 3]> = Vec::new();
        vertices.push([COORD_ZERO, COORD_ZERO, COORD_ZERO]);
        vertices.push([COORD_ONE, COORD_ZERO, COORD_ZERO]);
        vertices.push([COORD_ZERO, COORD_ONE, COORD_ZERO]);
        vertices.push([COORD_ZERO, COORD_ZERO, COORD_ONE]);

        let mut indices: Vec<[u32; 3]> = Vec::new();
        indices.push([0, 2, 1]);
        indices.push([0, 3, 2]);
        indices.push([0, 1, 3]);
        indices.push([1, 2, 3]);

        assert(vertices@ =~= tetrahedron_vertices());
        assert(indices@ =~= tetrahedron_indices());
        MeshModel3D { vertices, indices }
    }

    /// Tells whether every index names a vertex of the mesh.
    pub fn is_well_formed(&self) -> (ok: bool)
        ensures
            ok == self.well_formed(),
    {
        let vertex_count: usize = self.vertices.len();
        let mut t: usize = 0;
        while t < self.indices.len()
            invariant
                t <= self.indices@.len(),
                vertex_count == self.vertices@.len(),
                forall|s: int|
                    0 <= s < t ==> triangle_in_range(
                        #[trigger] self.indices@[s],
                        self.vertices@.len(),
                    ),
            decreases self.indices@.len() - t,
        {
            let triangle: [u32; 3] = self.indices[t];
            if !(corner_in_range(triangle[0], vertex_count) && corner_in_range(
                triangle[1],
                vertex_count,
            ) && corner_in_range(triangle[2], vertex_count)) {
                assert(!triangle_in_range(self.indices@[t as int], self.vertices@.len()));
                return false;
            }
            t += 1;
        }
        true
    }

    /// The number of indices that one draw of the whole mesh covers: three
    /// for each triangle. `None` where that number does not fit in 32 bits.
    pub fn index_count(&self) -> (count: Option<u32>)
        ensures
            3 * self.indices@.len() <= u32::MAX ==> count == Some(
                (3 * self.indices@.len()) as u32,
            ),
            3 * self.indices@.len() > u32::MAX ==> count.is_none(),
    {
        let triangles: usize = self.indices.len();
        if triangles <= 0x5555_5555 {
            Some((triangles * 3) as u32)
        } else {
            None
        }
    }

    /// The vertex positions as the bytes that are uploaded to the device.
    pub fn vertex_bytes(&self) -> (bytes: Vec<u8>)
        ensures
            is_memory_image(bytes@, self.vertices@),
            bytes@.len() == 12 * self.vertices@.len(),
    {
        triples_as_bytes(&self.vertices)
    }

    /// The triangle indices as the bytes that are uploaded to the device.
    pub fn index_bytes(&self) -> (bytes: Vec<u8>)
        ensures
            is_memory_image(bytes@, self.indices@),
            bytes@.len() == 12 * self.indices@.len(),
    {
        triples_as_bytes(&self.indices)
    }
}

/// Whether an index names one of `vertex_count` vertices.
fn corner_in_range(corner: u32, vertex_count: usize) -> (ok: bool)
    ensures
        ok == (corner < vertex_count),
{
    (corner as usize) < vertex_count
}

/// Calls `bytemuck::cast_slice` from triples of 32-bit words to bytes and
/// copies what it returns. The cast reads the same memory as bytes, so the
/// contract claims twelve bytes for each triple, each word in the byte order
/// of the machine, one of the two. To bytes the cast cannot fail: a byte has
/// no alignment and divides every length.
#[verifier::external_body]
fn triples_as_bytes(words: &Vec<[u32; 3]>) -> (bytes: Vec<u8>)
    ensures
        is_memory_image(bytes@, words@),
{
    bytemuck::cast_slice::<[u32; 3], u8>(words.as_slice()).to_vec()
}

} // verus!
