use vstd::prelude::*;

verus! {

/// The declared element type of an accessor in a mesh-interchange document.
#[derive(Clone, Copy, Debug, PartialEq, Eq, Structural)]
pub enum DataType {
    I8,
    U8,
    I16,
    U16,
    U32,
    F32,
}

/// A named vertex attribute channel. Only `Positions` is implemented; the
/// others are recognized so that their presence fails loudly instead of
/// silently dropping geometry data.
#[derive(Clone, Copy, Debug, PartialEq, Eq, Structural)]
pub enum Semantic {
    Positions,
    Normals,
    Tangents,
    Colors(u32),
    TexCoords(u32),
    Joints(u32),
    Weights(u32),
}

/// A byte range within one of the document's binary buffers.
#[derive(Clone, Copy, Debug, PartialEq, Eq, Structural)]
pub struct BufferView {
    /// Index into `Document::buffers`.
    pub buffer: usize,
    /// Byte offset of the view within that buffer.
    pub offset: usize,
    /// Byte length of the view.
    pub length: usize,
}

/// A typed, counted window over a buffer view.
#[derive(Clone, Copy, Debug, PartialEq, Eq)]
pub struct Accessor {
    /// Index into `Document::views`; absent for sparse storage, which the
    /// loader treats as malformed.
    pub view: Option<usize>,
    /// Additional byte offset of the accessor within its view.
    pub offset: usize,
    /// Number of elements.
    pub count: usize,
    /// Declared element type.
    pub data_type: DataType,
}

/// One geometric primitive of a mesh: an optional index accessor and the
/// vertex attribute channels, each naming an accessor.
#[derive(Debug)]
pub struct Primitive {
    pub indices: Option<usize>,
    pub attributes: Vec<(Semantic, usize)>,
}

/// A mesh: a list of primitives.
#[derive(Debug)]
pub struct Mesh {
    pub primitives: Vec<Primitive>,
}

/// A scene node, optionally carrying a mesh (index into `Document::meshes`).
#[derive(Clone, Copy, Debug, PartialEq, Eq)]
pub struct Node {
    pub mesh: Option<usize>,
}

/// A scene: the indices of its root nodes.
#[derive(Debug)]
pub struct Scene {
    pub nodes: Vec<usize>,
}

/// A mesh-interchange document reduced to the plain values the loader
/// reads: scenes over nodes over meshes over primitives, accessors and
/// buffer views over raw binary buffers.
#[derive(Debug)]
pub struct Document {
    pub scenes: Vec<Scene>,
    pub nodes: Vec<Node>,
    pub meshes: Vec<Mesh>,
    pub accessors: Vec<Accessor>,
    pub views: Vec<BufferView>,
    pub buffers: Vec<Vec<u8>>,
}

} // verus!
