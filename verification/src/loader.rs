use vstd::prelude::*;
use vstd::slice::slice_to_vec;
use crate::document::DataType;
use crate::document::Document;
use crate::document::Primitive;
use crate::document::Semantic;
use crate::error::Error;
use crate::geometry::IndexFormat;
use crate::model::Model;

verus! {

/// The index half of a partially assembled model, in mathematical form.
pub struct IndexPart {
    pub count: u32,
    pub format: IndexFormat,
    pub bytes: Seq<u8>,
}

/// The loader's running state while it walks the first scene: the index
/// and vertex data found so far. A later find replaces an earlier one.
pub struct LoadState {
    pub index_part: Option<IndexPart>,
    pub vertex_part: Option<Seq<u8>>,
}

impl LoadState {
    /// The state before any primitive has been visited.
    pub open spec fn init() -> LoadState {
        LoadState { index_part: None, vertex_part: None }
    }

    /// Any recorded index count fits the bytes recorded with it.
    pub open spec fn wf(self) -> bool {
        self.index_part matches Some(ip) ==> ip.count * ip.format.width() <= ip.bytes.len()
    }
}

/// What a loaded model promises: count, format, and the exact buffer bytes.
pub struct ModelSpec {
    pub num_indices: u32,
    pub index_format: IndexFormat,
    pub index_bytes: Seq<u8>,
    pub vertex_bytes: Option<Seq<u8>>,
}

impl View for Model {
    type V = ModelSpec;

    open spec fn view(&self) -> ModelSpec {
        ModelSpec {
            num_indices: self.num_indices,
            index_format: self.index_format,
            index_bytes: self.index_data@,
            vertex_bytes: match self.vertex_data {
                Some(v) => Some(v@),
                None => None,
            },
        }
    }
}

/// The GPU index format declared by an accessor element type: 16-bit
/// unsigned maps to the half-width format, 32-bit unsigned to the
/// full-width one, and nothing else is supported.
pub open spec fn index_format_of(t: DataType) -> Option<IndexFormat> {
    match t {
        DataType::U16 => Some(IndexFormat::Half),
        DataType::U32 => Some(IndexFormat::Full),
        _ => None,
    }
}

/// The index data an index accessor yields: its element count, the format
/// inferred from its declared type, and the raw bytes of its whole buffer
/// view starting at the accessor's offset. Dangling references, a missing
/// view, an oversized count, a byte window past the end of the buffer, or
/// a count that needs more bytes than the view holds are malformed; an
/// element type with no index format is unsupported.
pub open spec fn index_part_of(doc: Document, acc_id: usize) -> Result<IndexPart, Error> {
    if acc_id >= doc.accessors@.len() {
        Err(Error::MalformedDocument)
    } else {
        let acc = doc.accessors@[acc_id as int];
        match acc.view {
            None => Err(Error::MalformedDocument),
            Some(vid) => if vid >= doc.views@.len() {
                Err(Error::MalformedDocument)
            } else {
                let view = doc.views@[vid as int];
                if view.buffer >= doc.buffers@.len() {
                    Err(Error::MalformedDocument)
                } else if acc.count > u32::MAX {
                    Err(Error::MalformedDocument)
                } else {
                    match index_format_of(acc.data_type) {
                        None => Err(Error::UnsupportedFormat),
                        Some(fmt) => {
                            let data = doc.buffers@[view.buffer as int]@;
                            if view.offset + acc.offset + view.length > data.len() {
                                Err(Error::MalformedDocument)
                            } else if acc.count * fmt.width() > view.length {
                                Err(Error::MalformedDocument)
                            } else {
                                Ok(IndexPart {
                                    count: acc.count as u32,
                                    format: fmt,
                                    bytes: data.subrange(
                                        view.offset + acc.offset,
                                        view.offset + acc.offset + view.length,
                                    ),
                                })
                            }
                        },
                    }
                }
            },
        }
    }
}

/// The vertex data a position accessor yields: the raw bytes of its whole
/// buffer view starting at the accessor's offset.
pub open spec fn vertex_part_of(doc: Document, acc_id: usize) -> Result<Seq<u8>, Error> {
    if acc_id >= doc.accessors@.len() {
        Err(Error::MalformedDocument)
    } else {
        let acc = doc.accessors@[acc_id as int];
        match acc.view {
            None => Err(Error::MalformedDocument),
            Some(vid) => if vid >= doc.views@.len() {
                Err(Error::MalformedDocument)
            } else {
                let view = doc.views@[vid as int];
                if view.buffer >= doc.buffers@.len() {
                    Err(Error::MalformedDocument)
                } else {
                    let data = doc.buffers@[view.buffer as int]@;
                    if view.offset + acc.offset + view.length > data.len() {
                        Err(Error::MalformedDocument)
                    } else {
                        Ok(data.subrange(
                            view.offset + acc.offset,
                            view.offset + acc.offset + view.length,
                        ))
                    }
                }
            },
        }
    }
}

/// One attribute channel applied to the running state: positions replace
/// the vertex data found so far, every other channel is unsupported.
pub open spec fn apply_attribute(
    doc: Document,
    sem: Semantic,
    acc_id: usize,
    st: LoadState,
) -> Result<LoadState, Error> {
    match sem {
        Semantic::Positions => match vertex_part_of(doc, acc_id) {
            Err(e) => Err(e),
            Ok(b) => Ok(LoadState { index_part: st.index_part, vertex_part: Some(b) }),
        },
        _ => Err(Error::UnsupportedFormat),
    }
}

/// A primitive's attribute channels applied in order.
pub open spec fn apply_attributes(
    doc: Document,
    attrs: Seq<(Semantic, usize)>,
    st: LoadState,
) -> Result<LoadState, Error>
    decreases attrs.len(),
{
    if attrs.len() == 0 {
        Ok(st)
    } else {
        match apply_attribute(doc, attrs[0].0, attrs[0].1, st) {
            Err(e) => Err(e),
            Ok(s2) => apply_attributes(doc, attrs.drop_first(), s2),
        }
    }
}

/// One primitive applied to the running state: its index accessor first,
/// if it declares one, then its attribute channels in order.
pub open spec fn apply_primitive(doc: Document, prim: Primitive, st: LoadState) -> Result<
    LoadState,
    Error,
> {
    match prim.indices {
        None => apply_attributes(doc, prim.attributes@, st),
        Some(acc_id) => match index_part_of(doc, acc_id) {
            Err(e) => Err(e),
            Ok(ip) => apply_attributes(
                doc,
                prim.attributes@,
                LoadState { index_part: Some(ip), vertex_part: st.vertex_part },
            ),
        },
    }
}

/// A mesh's primitives applied in order.
pub open spec fn apply_primitives(
    doc: Document,
    prims: Seq<Primitive>,
    st: LoadState,
) -> Result<LoadState, Error>
    decreases prims.len(),
{
    if prims.len() == 0 {
        Ok(st)
    } else {
        match apply_primitive(doc, prims[0], st) {
            Err(e) => Err(e),
            Ok(s2) => apply_primitives(doc, prims.drop_first(), s2),
        }
    }
}

/// One scene node applied to the running state: a node without a mesh
/// changes nothing; one with a mesh applies that mesh's primitives.
pub open spec fn apply_node(doc: Document, node_id: usize, st: LoadState) -> Result<
    LoadState,
    Error,
> {
    if node_id >= doc.nodes@.len() {
        Err(Error::MalformedDocument)
    } else {
        match doc.nodes@[node_id as int].mesh {
            None => Ok(st),
            Some(mid) => if mid >= doc.meshes@.len() {
                Err(Error::MalformedDocument)
            } else {
                apply_primitives(doc, doc.meshes@[mid as int].primitives@, st)
            },
        }
    }
}

/// A scene's nodes applied in order.
pub open spec fn apply_nodes(doc: Document, ids: Seq<usize>, st: LoadState) -> Result<
    LoadState,
    Error,
>
    decreases ids.len(),
{
    if ids.len() == 0 {
        Ok(st)
    } else {
        match apply_node(doc, ids[0], st) {
            Err(e) => Err(e),
            Ok(s2) => apply_nodes(doc, ids.drop_first(), s2),
        }
    }
}

/// The index half of a partially assembled model, in executable form.
pub struct IndexBuf {
    pub count: u32,
    pub format: IndexFormat,
    pub bytes: Vec<u8>,
}

/// The loader's running state, in executable form.
pub struct PartialModel {
    pub index: Option<IndexBuf>,
    pub vertex: Option<Vec<u8>>,
}

/// The mathematical reading of an executable index part.
pub open spec fn ipart_of(ib: IndexBuf) -> IndexPart {
    IndexPart { count: ib.count, format: ib.format, bytes: ib.bytes@ }
}

/// The mathematical reading of the loader's executable state.
pub open spec fn st_of(pm: PartialModel) -> LoadState {
    LoadState {
        index_part: match pm.index {
            Some(ib) => Some(ipart_of(ib)),
            None => None,
        },
        vertex_part: match pm.vertex {
            Some(v) => Some(v@),
            None => None,
        },
    }
}

fn index_format_exec(t: DataType) -> (r: Option<IndexFormat>)
    ensures
        r == index_format_of(t),
{
    match t {
        DataType::U16 => Some(IndexFormat::Half),
        DataType::U32 => Some(IndexFormat::Full),
        _ => None,
    }
}

fn load_index_part(doc: &Document, acc_id: usize) -> (r: Result<IndexBuf, Error>)
    ensures
        match r {
            Ok(ib) => index_part_of(*doc, acc_id) == Ok::<IndexPart, Error>(ipart_of(ib))
                && ib.count * ib.format.width() <= ib.bytes@.len(),
            Err(e) => index_part_of(*doc, acc_id) == Err::<IndexPart, Error>(e),
        },
{
    if acc_id >= doc.accessors.len() {
        return Err(Error::MalformedDocument);
    }
    let acc = doc.accessors[acc_id];
    let vid = match acc.view {
        None => {
            return Err(Error::MalformedDocument);
        },
        Some(v) => v,
    };
    if vid >= doc.views.len() {
        return Err(Error::MalformedDocument);
    }
    let view = doc.views[vid];
    if view.buffer >= doc.buffers.len() {
        return Err(Error::MalformedDocument);
    }
    if acc.count > u32::MAX as usize {
        return Err(Error::MalformedDocument);
    }
    let fmt = match index_format_exec(acc.data_type) {
        None => {
            return Err(Error::UnsupportedFormat);
        },
        Some(f) => f,
    };
    let data = &doc.buffers[view.buffer];
    if view.offset > data.len() || acc.offset > data.len() - view.offset || view.length > data.len()
        - view.offset - acc.offset {
        return Err(Error::MalformedDocument);
    }
    let needed: u64 = match fmt {
        IndexFormat::Half => (acc.count as u64) * 2,
        IndexFormat::Full => (acc.count as u64) * 4,
    };
    if needed > view.length as u64 {
        return Err(Error::MalformedDocument);
    }
    let start = view.offset + acc.offset;
    let bytes = slice_to_vec(&data.as_slice()[start..start + view.length]);
    Ok(IndexBuf { count: acc.count as u32, format: fmt, bytes })
}

fn load_vertex_part(doc: &Document, acc_id: usize) -> (r: Result<Vec<u8>, Error>)
    ensures
        match r {
            Ok(v) => vertex_part_of(*doc, acc_id) == Ok::<Seq<u8>, Error>(v@),
            Err(e) => vertex_part_of(*doc, acc_id) == Err::<Seq<u8>, Error>(e),
        },
{
    if acc_id >= doc.accessors.len() {
        return Err(Error::MalformedDocument);
    }
    let acc = doc.accessors[acc_id];
    let vid = match acc.view {
        None => {
            return Err(Error::MalformedDocument);
        },
        Some(v) => v,
    };
    if vid >= doc.views.len() {
        return Err(Error::MalformedDocument);
    }
    let view = doc.views[vid];
    if view.buffer >= doc.buffers.len() {
        return Err(Error::MalformedDocument);
    }
    let data = &doc.buffers[view.buffer];
    if view.offset > data.len() || acc.offset > data.len() - view.offset || view.length > data.len()
        - view.offset - acc.offset {
        return Err(Error::MalformedDocument);
    }
    let start = view.offset + acc.offset;
    let bytes = slice_to_vec(&data.as_slice()[start..start + view.length]);
    Ok(bytes)
}

#[verifier::loop_isolation(false)]
fn process_primitive(doc: &Document, prim: &Primitive, st: PartialModel) -> (r: Result<
    PartialModel,
    Error,
>)
    requires
        st_of(st).wf(),
    ensures
        match r {
            Ok(st2) => apply_primitive(*doc, *prim, st_of(st)) == Ok::<LoadState, Error>(
                st_of(st2),
            ) && st_of(st2).wf(),
            Err(e) => apply_primitive(*doc, *prim, st_of(st)) == Err::<LoadState, Error>(e),
        },
{
    let ghost st0 = st_of(st);
    let mut cur = st;
    match prim.indices {
        None => {
        },
        Some(acc_id) => {
            match load_index_part(doc, acc_id) {
                Ok(ib) => {
                    cur = PartialModel { index: Some(ib), vertex: cur.vertex };
                    proof {
                        assert(st_of(cur) == LoadState {
                            index_part: st_of(cur).index_part,
                            vertex_part: st0.vertex_part,
                        });
                    }
                },
                Err(e) => {
                    return Err(e);
                },
            }
        },
    }
    proof {
        assert(prim.attributes@.skip(0) =~= prim.attributes@);
    }
    let mut k: usize = 0;
    while k < prim.attributes.len()
        invariant
            k <= prim.attributes@.len(),
            st_of(cur).wf(),
            apply_primitive(*doc, *prim, st0) == apply_attributes(
                *doc,
                prim.attributes@.skip(k as int),
                st_of(cur),
            ),
        decreases prim.attributes@.len() - k,
    {
        let pair = &prim.attributes[k];
        proof {
            assert(prim.attributes@.skip(k as int).len() == prim.attributes@.len() - k);
            assert(prim.attributes@.skip(k as int)[0] == prim.attributes@[k as int]);
        }
        match pair.0 {
            Semantic::Positions => {
                match load_vertex_part(doc, pair.1) {
                    Ok(vbytes) => {
                        let ghost prev = st_of(cur);
                        proof {
                            assert(prim.attributes@.skip(k as int).drop_first()
                                =~= prim.attributes@.skip(k + 1));
                        }
                        cur = PartialModel { index: cur.index, vertex: Some(vbytes) };
                        proof {
                            assert(st_of(cur) == LoadState {
                                index_part: prev.index_part,
                                vertex_part: st_of(cur).vertex_part,
                            });
                        }
                    },
                    Err(e) => {
                        return Err(e);
                    },
                }
            },
            _ => {
                return Err(Error::UnsupportedFormat);
            },
        }
        k = k + 1;
    }
    proof {
        assert(prim.attributes@.skip(prim.attributes@.len() as int) =~= Seq::<(
            Semantic,
            usize,
        )>::empty());
    }
    Ok(cur)
}

#[verifier::loop_isolation(false)]
fn process_node(doc: &Document, node_id: usize, st: PartialModel) -> (r: Result<
    PartialModel,
    Error,
>)
    requires
        st_of(st).wf(),
    ensures
        match r {
            Ok(st2) => apply_node(*doc, node_id, st_of(st)) == Ok::<LoadState, Error>(st_of(st2))
                && st_of(st2).wf(),
            Err(e) => apply_node(*doc, node_id, st_of(st)) == Err::<LoadState, Error>(e),
        },
{
    let ghost st0 = st_of(st);
    if node_id >= doc.nodes.len() {
        return Err(Error::MalformedDocument);
    }
    let node = &doc.nodes[node_id];
    match node.mesh {
        None => Ok(st),
        Some(mid) => {
            if mid >= doc.meshes.len() {
                return Err(Error::MalformedDocument);
            }
            let mesh = &doc.meshes[mid];
            let mut cur = st;
            proof {
                assert(mesh.primitives@.skip(0) =~= mesh.primitives@);
            }
            let mut j: usize = 0;
            while j < mesh.primitives.len()
                invariant
                    j <= mesh.primitives@.len(),
                    st_of(cur).wf(),
                    node_id < doc.nodes@.len(),
                    doc.nodes@[node_id as int].mesh == Some(mid),
                    mid < doc.meshes@.len(),
                    *mesh == doc.meshes@[mid as int],
                    apply_node(*doc, node_id, st0) == apply_primitives(
                        *doc,
                        mesh.primitives@.skip(j as int),
                        st_of(cur),
                    ),
                decreases mesh.primitives@.len() - j,
            {
                let prim = &mesh.primitives[j];
                proof {
                    assert(mesh.primitives@.skip(j as int).len() == mesh.primitives@.len() - j);
                    assert(mesh.primitives@.skip(j as int)[0] == mesh.primitives@[j as int]);
                }
                match process_primitive(doc, prim, cur) {
                    Ok(st2) => {
                        proof {
                            assert(mesh.primitives@.skip(j as int).drop_first()
                                =~= mesh.primitives@.skip(j + 1));
                        }
                        cur = st2;
                    },
                    Err(e) => {
                        return Err(e);
                    },
                }
                j = j + 1;
            }
            proof {
                assert(mesh.primitives@.skip(mesh.primitives@.len() as int)
                    =~= Seq::<Primitive>::empty());
            }
            Ok(cur)
        },
    }
}

/// Load a model from a mesh-interchange document: visit the first scene's
/// nodes once, in order, extract index and vertex buffer bytes from the
/// primitives found, infer the index format from the index accessor's
/// declared element type, and fail on anything malformed or unsupported
/// exactly as `load_spec` says.
#[verifier::loop_isolation(false)]
pub fn from_document(doc: &Document) -> (r: Result<Model, Error>)
    ensures
        match r {
            Ok(m) => load_spec(*doc) == Ok::<ModelSpec, Error>(m@) && m.wf(),
            Err(e) => load_spec(*doc) == Err::<ModelSpec, Error>(e),
        },
{
    if doc.scenes.len() == 0 {
        return Err(Error::MalformedDocument);
    }
    let scene = &doc.scenes[0];
    let ghost ids = doc.scenes@[0].nodes@;
    let mut cur = PartialModel { index: None, vertex: None };
    proof {
        assert(st_of(cur) == LoadState::init());
        assert(ids.skip(0) =~= ids);
    }
    let mut i: usize = 0;
    while i < scene.nodes.len()
        invariant
            doc.scenes@.len() > 0,
            *scene == doc.scenes@[0],
            ids == doc.scenes@[0].nodes@,
            i <= ids.len(),
            st_of(cur).wf(),
            apply_nodes(*doc, ids, LoadState::init()) == apply_nodes(
                *doc,
                ids.skip(i as int),
                st_of(cur),
            ),
        decreases ids.len() - i,
    {
        let node_id = scene.nodes[i];
        proof {
            assert(ids.skip(i as int).len() == ids.len() - i);
            assert(ids.skip(i as int)[0] == ids[i as int]);
        }
        match process_node(doc, node_id, cur) {
            Ok(st2) => {
                proof {
                    assert(ids.skip(i as int).drop_first() =~= ids.skip(i + 1));
                }
                cur = st2;
            },
            Err(e) => {
                return Err(e);
            },
        }
        i = i + 1;
    }
    proof {
        assert(ids.skip(ids.len() as int) =~= Seq::<usize>::empty());
    }
    let PartialModel { index, vertex } = cur;
    match index {
        None => Err(Error::MalformedDocument),
        Some(ib) => {
            let m = Model {
                num_indices: ib.count,
                vertex_data: vertex,
                index_data: ib.bytes,
                index_format: ib.format,
            };
            Ok(m)
        },
    }
}

/// What loading a document yields: the first scene's nodes are visited
/// once, in order, and the model is the index and vertex data standing at
/// the end. A document with no scene, or whose first scene yields no index
/// data, is malformed.
pub open spec fn load_spec(doc: Document) -> Result<ModelSpec, Error> {
    if doc.scenes@.len() == 0 {
        Err(Error::MalformedDocument)
    } else {
        match apply_nodes(doc, doc.scenes@[0].nodes@, LoadState::init()) {
            Err(e) => Err(e),
            Ok(st) => match st.index_part {
                None => Err(Error::MalformedDocument),
                Some(ip) => Ok(
                    ModelSpec {
                        num_indices: ip.count,
                        index_format: ip.format,
                        index_bytes: ip.bytes,
                        vertex_bytes: st.vertex_part,
                    },
                ),
            },
        }
    }
}

/// For a document of one scene over one node, one mesh and one primitive
/// whose index accessor (accessor 0 over view 0 over buffer 0) declares a
/// supported element type and consistent storage, loading succeeds, the
/// model records the accessor's element count, and its index format is the
/// one the element type declares: half-width for 16-bit unsigned,
/// full-width for 32-bit unsigned.
pub proof fn lemma_single_primitive_index_format(doc: Document, fmt: IndexFormat)
    requires
        doc.scenes@.len() > 0,
        doc.scenes@[0].nodes@ == seq![0usize],
        doc.nodes@.len() == 1,
        doc.nodes@[0].mesh == Some(0usize),
        doc.meshes@.len() == 1,
        doc.meshes@[0].primitives@.len() == 1,
        doc.meshes@[0].primitives@[0].indices == Some(0usize),
        doc.meshes@[0].primitives@[0].attributes@.len() == 0,
        doc.accessors@.len() == 1,
        doc.accessors@[0].view == Some(0usize),
        doc.views@.len() == 1,
        doc.views@[0].buffer == 0,
        doc.buffers@.len() == 1,
        doc.accessors@[0].count <= u32::MAX,
        index_format_of(doc.accessors@[0].data_type) == Some(fmt),
        doc.views@[0].offset + doc.accessors@[0].offset + doc.views@[0].length
            <= doc.buffers@[0]@.len(),
        doc.accessors@[0].count * fmt.width() <= doc.views@[0].length,
    ensures
        load_spec(doc) matches Ok(m) && m.index_format == fmt && m.num_indices
            == doc.accessors@[0].count,
        doc.accessors@[0].data_type == DataType::U16 ==> fmt == IndexFormat::Half,
        doc.accessors@[0].data_type == DataType::U32 ==> fmt == IndexFormat::Full,
{
    let st0 = LoadState::init();
    let ids = doc.scenes@[0].nodes@;
    let prims = doc.meshes@[0].primitives@;
    let prim = prims[0];
    assert(index_part_of(doc, 0usize) matches Ok(ip) && ip.format == fmt && ip.count
        == doc.accessors@[0].count);
    let ip = index_part_of(doc, 0usize)->Ok_0;
    let st1 = LoadState { index_part: Some(ip), vertex_part: st0.vertex_part };
    assert(apply_attributes(doc, prim.attributes@, st1) == Ok::<LoadState, Error>(st1));
    assert(apply_primitive(doc, prim, st0) == Ok::<LoadState, Error>(st1));
    assert(prims.drop_first() =~= Seq::<Primitive>::empty());
    assert(apply_primitives(doc, Seq::<Primitive>::empty(), st1) == Ok::<LoadState, Error>(st1));
    assert(apply_primitives(doc, prims, st0) == Ok::<LoadState, Error>(st1));
    assert(apply_node(doc, 0usize, st0) == Ok::<LoadState, Error>(st1));
    assert(ids[0] == 0usize);
    assert(ids.drop_first() =~= Seq::<usize>::empty());
    assert(apply_nodes(doc, Seq::<usize>::empty(), st1) == Ok::<LoadState, Error>(st1));
    assert(apply_nodes(doc, ids, st0) == Ok::<LoadState, Error>(st1));
}

/// For a document of the same single-primitive shape whose index accessor
/// declares any element type other than 16-bit or 32-bit unsigned,
/// loading fails with the unsupported-format error.
pub proof fn lemma_single_primitive_unsupported_index_type(doc: Document)
    requires
        doc.scenes@.len() > 0,
        doc.scenes@[0].nodes@ == seq![0usize],
        doc.nodes@.len() == 1,
        doc.nodes@[0].mesh == Some(0usize),
        doc.meshes@.len() == 1,
        doc.meshes@[0].primitives@.len() == 1,
        doc.meshes@[0].primitives@[0].indices == Some(0usize),
        doc.accessors@.len() == 1,
        doc.accessors@[0].view == Some(0usize),
        doc.views@.len() == 1,
        doc.views@[0].buffer == 0,
        doc.buffers@.len() == 1,
        doc.accessors@[0].count <= u32::MAX,
        doc.accessors@[0].data_type != DataType::U16,
        doc.accessors@[0].data_type != DataType::U32,
    ensures
        load_spec(doc) == Err::<ModelSpec, Error>(Error::UnsupportedFormat),
{
    let st0 = LoadState::init();
    let ids = doc.scenes@[0].nodes@;
    let prims = doc.meshes@[0].primitives@;
    let prim = prims[0];
    assert(index_format_of(doc.accessors@[0].data_type) is None);
    assert(index_part_of(doc, 0usize) == Err::<IndexPart, Error>(Error::UnsupportedFormat));
    assert(apply_primitive(doc, prim, st0) == Err::<LoadState, Error>(Error::UnsupportedFormat));
    assert(apply_primitives(doc, prims, st0) == Err::<LoadState, Error>(
        Error::UnsupportedFormat,
    ));
    assert(apply_node(doc, 0usize, st0) == Err::<LoadState, Error>(Error::UnsupportedFormat));
    assert(ids[0] == 0usize);
    assert(apply_nodes(doc, ids, st0) == Err::<LoadState, Error>(Error::UnsupportedFormat));
}

/// An attribute list holds a channel other than positions.
pub open spec fn has_unsupported_attribute(attrs: Seq<(Semantic, usize)>) -> bool {
    exists|j: int| 0 <= j < attrs.len() && !(attrs[j].0 is Positions)
}

/// A node reached by the traversal carries a mesh one of whose primitives
/// names an attribute channel other than positions.
pub open spec fn node_yields_unsupported(doc: Document, node_id: usize) -> bool {
    &&& node_id < doc.nodes@.len()
    &&& doc.nodes@[node_id as int].mesh matches Some(mid)
    &&& doc.nodes@[node_id as int].mesh->0 < doc.meshes@.len()
    &&& exists|p: int|
        0 <= p < doc.meshes@[doc.nodes@[node_id as int].mesh->0 as int].primitives@.len()
            && #[trigger] has_unsupported_attribute(
            doc.meshes@[doc.nodes@[node_id as int].mesh->0 as int].primitives@[p].attributes@,
        )
}

proof fn lemma_attributes_reject(doc: Document, attrs: Seq<(Semantic, usize)>, st: LoadState)
    requires
        has_unsupported_attribute(attrs),
    ensures
        apply_attributes(doc, attrs, st) is Err,
    decreases attrs.len(),
{
    if !(attrs[0].0 is Positions) {
        assert(apply_attribute(doc, attrs[0].0, attrs[0].1, st) is Err);
    } else {
        match apply_attribute(doc, attrs[0].0, attrs[0].1, st) {
            Err(_) => {
            },
            Ok(s2) => {
                assert(has_unsupported_attribute(attrs.drop_first())) by {
                    let j = choose|j: int|
                        0 <= j < attrs.len() && !(attrs[j].0 is Positions);
                    assert(attrs.drop_first()[j - 1] == attrs[j]);
                }
                lemma_attributes_reject(doc, attrs.drop_first(), s2);
            },
        }
    }
}

proof fn lemma_primitive_rejects(doc: Document, prim: Primitive, st: LoadState)
    requires
        has_unsupported_attribute(prim.attributes@),
    ensures
        apply_primitive(doc, prim, st) is Err,
{
    match prim.indices {
        None => {
            lemma_attributes_reject(doc, prim.attributes@, st);
        },
        Some(acc_id) => {
            match index_part_of(doc, acc_id) {
                Err(_) => {
                },
                Ok(ip) => {
                    lemma_attributes_reject(
                        doc,
                        prim.attributes@,
                        LoadState { index_part: Some(ip), vertex_part: st.vertex_part },
                    );
                },
            }
        },
    }
}

proof fn lemma_primitives_reject(doc: Document, prims: Seq<Primitive>, st: LoadState)
    requires
        exists|p: int| 0 <= p < prims.len() && has_unsupported_attribute(prims[p].attributes@),
    ensures
        apply_primitives(doc, prims, st) is Err,
    decreases prims.len(),
{
    if has_unsupported_attribute(prims[0].attributes@) {
        lemma_primitive_rejects(doc, prims[0], st);
    } else {
        match apply_primitive(doc, prims[0], st) {
            Err(_) => {
            },
            Ok(s2) => {
                assert(exists|p: int|
                    0 <= p < prims.drop_first().len() && has_unsupported_attribute(
                        prims.drop_first()[p].attributes@,
                    )) by {
                    let p = choose|p: int|
                        0 <= p < prims.len() && has_unsupported_attribute(prims[p].attributes@);
                    assert(prims.drop_first()[p - 1] == prims[p]);
                }
                lemma_primitives_reject(doc, prims.drop_first(), s2);
            },
        }
    }
}

proof fn lemma_node_rejects(doc: Document, node_id: usize, st: LoadState)
    requires
        node_yields_unsupported(doc, node_id),
    ensures
        apply_node(doc, node_id, st) is Err,
{
    let mid = doc.nodes@[node_id as int].mesh->0;
    lemma_primitives_reject(doc, doc.meshes@[mid as int].primitives@, st);
}

proof fn lemma_nodes_reject(doc: Document, ids: Seq<usize>, st: LoadState)
    requires
        exists|i: int| 0 <= i < ids.len() && node_yields_unsupported(doc, ids[i]),
    ensures
        apply_nodes(doc, ids, st) is Err,
    decreases ids.len(),
{
    if node_yields_unsupported(doc, ids[0]) {
        lemma_node_rejects(doc, ids[0], st);
    } else {
        match apply_node(doc, ids[0], st) {
            Err(_) => {
            },
            Ok(s2) => {
                assert(exists|i: int|
                    0 <= i < ids.drop_first().len() && node_yields_unsupported(
                        doc,
                        ids.drop_first()[i],
                    )) by {
                    let i = choose|i: int|
                        0 <= i < ids.len() && node_yields_unsupported(doc, ids[i]);
                    assert(ids.drop_first()[i - 1] == ids[i]);
                }
                lemma_nodes_reject(doc, ids.drop_first(), s2);
            },
        }
    }
}

/// A document whose first scene reaches a primitive with a non-position
/// attribute channel never loads: the channel is not silently dropped,
/// the whole load fails.
pub proof fn lemma_load_rejects_unsupported_attribute(doc: Document)
    requires
        doc.scenes@.len() > 0,
        exists|i: int|
            0 <= i < doc.scenes@[0].nodes@.len() && node_yields_unsupported(
                doc,
                doc.scenes@[0].nodes@[i],
            ),
    ensures
        load_spec(doc) is Err,
{
    lemma_nodes_reject(doc, doc.scenes@[0].nodes@, LoadState::init());
}

} // verus!
