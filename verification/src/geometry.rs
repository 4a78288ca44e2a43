use vstd::prelude::*;
use vstd::bytes::spec_u32_to_le_bytes;
use vstd::bytes::u32_to_le_bytes;

verus! {

/// Size in bytes of one vertex record: three 32-bit components.
pub const VERTEX_STRIDE: u32 = 12;

/// A position-only vertex. Each component is a 32-bit value carried as its
/// raw bit pattern, so the verified core states byte layouts exactly while
/// never computing with floating point itself; the shell reinterprets the
/// bits when it talks to the GPU.
#[derive(Clone, Copy, Debug, PartialEq, Eq, Structural)]
pub struct Vertex {
    pub x_bits: u32,
    pub y_bits: u32,
    pub z_bits: u32,
}

/// The element width of an index buffer: half-width (16-bit unsigned) or
/// full-width (32-bit unsigned) elements.
#[derive(Clone, Copy, Debug, PartialEq, Eq, Structural)]
pub enum IndexFormat {
    Half,
    Full,
}

impl IndexFormat {
    /// Bytes per index element under this format.
    pub open spec fn width(self) -> nat {
        match self {
            IndexFormat::Half => 2,
            IndexFormat::Full => 4,
        }
    }

    pub fn byte_width(&self) -> (w: u32)
        ensures
            w == self.width(),
    {
        match self {
            IndexFormat::Half => 2,
            IndexFormat::Full => 4,
        }
    }
}

/// The twelve bytes of one vertex record: the three components in order,
/// each little-endian.
pub open spec fn vertex_le_bytes(v: Vertex) -> Seq<u8> {
    spec_u32_to_le_bytes(v.x_bits) + spec_u32_to_le_bytes(v.y_bits) + spec_u32_to_le_bytes(v.z_bits)
}

/// The byte image of a whole vertex array, records in order.
pub open spec fn vertices_le_bytes(vs: Seq<Vertex>) -> Seq<u8>
    decreases vs.len(),
{
    if vs.len() == 0 {
        Seq::empty()
    } else {
        vertices_le_bytes(vs.drop_last()) + vertex_le_bytes(vs.last())
    }
}

/// The byte image of a full-width index array, elements in order,
/// each little-endian.
pub open spec fn indices_le_bytes(xs: Seq<u32>) -> Seq<u8>
    decreases xs.len(),
{
    if xs.len() == 0 {
        Seq::empty()
    } else {
        indices_le_bytes(xs.drop_last()) + spec_u32_to_le_bytes(xs.last())
    }
}

pub proof fn lemma_vertices_le_bytes_push(vs: Seq<Vertex>, v: Vertex)
    ensures
        vertices_le_bytes(vs.push(v)) == vertices_le_bytes(vs) + vertex_le_bytes(v),
{
    assert(vs.push(v).drop_last() =~= vs);
    assert(vs.push(v).last() == v);
}

pub proof fn lemma_indices_le_bytes_push(xs: Seq<u32>, x: u32)
    ensures
        indices_le_bytes(xs.push(x)) == indices_le_bytes(xs) + spec_u32_to_le_bytes(x),
{
    assert(xs.push(x).drop_last() =~= xs);
    assert(xs.push(x).last() == x);
}

pub proof fn lemma_vertices_le_bytes_len(vs: Seq<Vertex>)
    ensures
        vertices_le_bytes(vs).len() == 12 * vs.len(),
    decreases vs.len(),
{
    vstd::bytes::lemma_auto_spec_u32_to_from_le_bytes();
    if vs.len() > 0 {
        lemma_vertices_le_bytes_len(vs.drop_last());
    }
}

pub proof fn lemma_indices_le_bytes_len(xs: Seq<u32>)
    ensures
        indices_le_bytes(xs).len() == 4 * xs.len(),
    decreases xs.len(),
{
    vstd::bytes::lemma_auto_spec_u32_to_from_le_bytes();
    if xs.len() > 0 {
        lemma_indices_le_bytes_len(xs.drop_last());
    }
}

/// Serialize a vertex array into the exact bytes an immutable GPU vertex
/// buffer is created from.
pub fn encode_vertices(vs: &Vec<Vertex>) -> (out: Vec<u8>)
    ensures
        out@ == vertices_le_bytes(vs@),
        out@.len() == 12 * vs@.len(),
{
    let mut out: Vec<u8> = Vec::new();
    let mut i: usize = 0;
    while i < vs.len()
        invariant
            i <= vs@.len(),
            out@ == vertices_le_bytes(vs@.take(i as int)),
        decreases vs@.len() - i,
    {
        let v = vs[i];
        let mut xb = u32_to_le_bytes(v.x_bits);
        let mut yb = u32_to_le_bytes(v.y_bits);
        let mut zb = u32_to_le_bytes(v.z_bits);
        out.append(&mut xb);
        out.append(&mut yb);
        out.append(&mut zb);
        proof {
            assert(vs@.take(i + 1) =~= vs@.take(i as int).push(vs@[i as int]));
            lemma_vertices_le_bytes_push(vs@.take(i as int), vs@[i as int]);
        }
        i = i + 1;
    }
    proof {
        assert(vs@.take(vs@.len() as int) =~= vs@);
        lemma_vertices_le_bytes_len(vs@);
    }
    out
}

/// Serialize a full-width index array into the exact bytes an immutable GPU
/// index buffer is created from.
pub fn encode_indices(xs: &Vec<u32>) -> (out: Vec<u8>)
    ensures
        out@ == indices_le_bytes(xs@),
        out@.len() == 4 * xs@.len(),
{
    let mut out: Vec<u8> = Vec::new();
    let mut i: usize = 0;
    while i < xs.len()
        invariant
            i <= xs@.len(),
            out@ == indices_le_bytes(xs@.take(i as int)),
        decreases xs@.len() - i,
    {
        let mut b = u32_to_le_bytes(xs[i]);
        out.append(&mut b);
        proof {
            assert(xs@.take(i + 1) =~= xs@.take(i as int).push(xs@[i as int]));
            lemma_indices_le_bytes_push(xs@.take(i as int), xs@[i as int]);
        }
        i = i + 1;
    }
    proof {
        assert(xs@.take(xs@.len() as int) =~= xs@);
        lemma_indices_le_bytes_len(xs@);
    }
    out
}

} // verus!
