use vstd::prelude::*;
use crate::geometry::IndexFormat;
use crate::geometry::Vertex;
use crate::geometry::encode_indices;
use crate::geometry::encode_vertices;
use crate::geometry::indices_le_bytes;
use crate::geometry::vertices_le_bytes;
use crate::geometry::lemma_indices_le_bytes_len;

verus! {

/// Bit pattern of the 32-bit value one half below zero.
pub const NEG_HALF_BITS: u32 = 0xBF00_0000;

/// Bit pattern of the 32-bit value one half above zero.
pub const POS_HALF_BITS: u32 = 0x3F00_0000;

/// Bit pattern of the 32-bit zero value.
pub const ZERO_BITS: u32 = 0x0000_0000;

/// The mesh a frame draws: the exact bytes its immutable GPU buffers are
/// created from, the recorded index count, and the index element format.
/// The vertex buffer may be absent in the degenerate zero-vertex case.
#[derive(Debug, PartialEq, Eq)]
pub struct Model {
    pub num_indices: u32,
    pub vertex_data: Option<Vec<u8>>,
    pub index_data: Vec<u8>,
    pub index_format: IndexFormat,
}

impl Model {
    /// The recorded index count never exceeds the number of index elements
    /// whose bytes are actually stored under the recorded format.
    pub open spec fn wf(self) -> bool {
        self.num_indices * self.index_format.width() <= self.index_data@.len()
    }

    /// Build a model from fixed in-memory vertex and index arrays. Both
    /// buffers hold exactly the arrays' byte images; the index format is
    /// always full-width on this path.
    pub fn from_literal(vertices: &Vec<Vertex>, indices: &Vec<u32>) -> (m: Model)
        requires
            indices@.len() <= u32::MAX,
        ensures
            m.num_indices == indices@.len(),
            m.index_format == IndexFormat::Full,
            m.index_data@ == indices_le_bytes(indices@),
            m.vertex_data matches Some(vb) && vb@ == vertices_le_bytes(vertices@),
            m.wf(),
    {
        let vertex_data = encode_vertices(vertices);
        let index_data = encode_indices(indices);
        proof {
            lemma_indices_le_bytes_len(indices@);
            assert((indices@.len() as u32) * IndexFormat::Full.width() <= index_data@.len());
        }
        Model {
            num_indices: indices.len() as u32,
            vertex_data: Some(vertex_data),
            index_data,
            index_format: IndexFormat::Full,
        }
    }

    /// The vertices of the built-in triangle, in order.
    pub open spec fn triangle_vertices() -> Seq<Vertex> {
        seq![
            Vertex { x_bits: NEG_HALF_BITS, y_bits: NEG_HALF_BITS, z_bits: ZERO_BITS },
            Vertex { x_bits: ZERO_BITS, y_bits: POS_HALF_BITS, z_bits: ZERO_BITS },
            Vertex { x_bits: POS_HALF_BITS, y_bits: NEG_HALF_BITS, z_bits: ZERO_BITS },
        ]
    }

    /// The built-in literal geometry: one centered triangle in normalized
    /// device coordinates, indexed 0, 1, 2 with full-width indices.
    pub fn default_triangle() -> (m: Model)
        ensures
            m.num_indices == 3,
            m.index_format == IndexFormat::Full,
            m.index_data@ == indices_le_bytes(seq![0u32, 1u32, 2u32]),
            m.vertex_data matches Some(vb) && vb@ == vertices_le_bytes(Self::triangle_vertices()),
            m.wf(),
    {
        let mut vertices: Vec<Vertex> = Vec::new();
        vertices.push(Vertex { x_bits: NEG_HALF_BITS, y_bits: NEG_HALF_BITS, z_bits: ZERO_BITS });
        vertices.push(Vertex { x_bits: ZERO_BITS, y_bits: POS_HALF_BITS, z_bits: ZERO_BITS });
        vertices.push(Vertex { x_bits: POS_HALF_BITS, y_bits: NEG_HALF_BITS, z_bits: ZERO_BITS });
        let mut indices: Vec<u32> = Vec::new();
        indices.push(0);
        indices.push(1);
        indices.push(2);
        proof {
            assert(vertices@ =~= Self::triangle_vertices());
            assert(indices@ =~= seq![0u32, 1u32, 2u32]);
        }
        Model::from_literal(&vertices, &indices)
    }
}

} // verus!
