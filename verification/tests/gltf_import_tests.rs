//! Loads a real interchange document with the gltf crate, flattens it into
//! the library's document model the same way the application shell does,
//! and checks that the verified loader extracts exactly the declared
//! buffer ranges.

use render_core::Accessor;
use render_core::BufferView;
use render_core::DataType;
use render_core::Document;
use render_core::IndexFormat;
use render_core::Mesh;
use render_core::Node;
use render_core::Primitive;
use render_core::Scene;
use render_core::Semantic;
use render_core::from_document;

const TRIANGLE_GLTF: &str = r#"{
  "asset": { "version": "2.0" },
  "scene": 0,
  "scenes": [ { "nodes": [0] } ],
  "nodes": [ { "mesh": 0 } ],
  "meshes": [ { "primitives": [ { "attributes": { "POSITION": 0 }, "indices": 1 } ] } ],
  "accessors": [
    {
      "bufferView": 0,
      "componentType": 5126,
      "count": 3,
      "type": "VEC3",
      "min": [-0.5, -0.5, 0.0],
      "max": [0.5, 0.5, 0.0]
    },
    { "bufferView": 1, "componentType": 5123, "count": 3, "type": "SCALAR" }
  ],
  "bufferViews": [
    { "buffer": 0, "byteOffset": 0, "byteLength": 36 },
    { "buffer": 0, "byteOffset": 36, "byteLength": 6 }
  ],
  "buffers": [
    {
      "byteLength": 42,
      "uri": "data:application/octet-stream;base64,AAAAvwAAAL8AAAAAAAAAAAAAAD8AAAAAAAAAPwAAAL8AAAAAAAABAAIA"
    }
  ]
}"#;

fn data_type(t: gltf::accessor::DataType) -> DataType {
    match t {
        gltf::accessor::DataType::I8 => DataType::I8,
        gltf::accessor::DataType::U8 => DataType::U8,
        gltf::accessor::DataType::I16 => DataType::I16,
        gltf::accessor::DataType::U16 => DataType::U16,
        gltf::accessor::DataType::U32 => DataType::U32,
        gltf::accessor::DataType::F32 => DataType::F32,
    }
}

fn semantic(s: &gltf::Semantic) -> Semantic {
    match s {
        gltf::Semantic::Positions => Semantic::Positions,
        gltf::Semantic::Normals => Semantic::Normals,
        gltf::Semantic::Tangents => Semantic::Tangents,
        gltf::Semantic::Colors(n) => Semantic::Colors(*n),
        gltf::Semantic::TexCoords(n) => Semantic::TexCoords(*n),
        gltf::Semantic::Joints(n) => Semantic::Joints(*n),
        gltf::Semantic::Weights(n) => Semantic::Weights(*n),
    }
}

fn flatten(doc: &gltf::Document, buffers: Vec<gltf::buffer::Data>) -> Document {
    Document {
        scenes: doc
            .scenes()
            .map(|s| Scene { nodes: s.nodes().map(|n| n.index()).collect() })
            .collect(),
        nodes: doc
            .nodes()
            .map(|n| Node { mesh: n.mesh().map(|m| m.index()) })
            .collect(),
        meshes: doc
            .meshes()
            .map(|m| Mesh {
                primitives: m
                    .primitives()
                    .map(|p| Primitive {
                        indices: p.indices().map(|a| a.index()),
                        attributes: p
                            .attributes()
                            .map(|(sem, acc)| (semantic(&sem), acc.index()))
                            .collect(),
                    })
                    .collect(),
            })
            .collect(),
        accessors: doc
            .accessors()
            .map(|a| Accessor {
                view: a.view().map(|v| v.index()),
                offset: a.offset(),
                count: a.count(),
                data_type: data_type(a.data_type()),
            })
            .collect(),
        views: doc
            .views()
            .map(|v| BufferView {
                buffer: v.buffer().index(),
                offset: v.offset(),
                length: v.length(),
            })
            .collect(),
        buffers: buffers.into_iter().map(|b| b.0).collect(),
    }
}

#[test]
fn triangle_document_loads_through_real_parser() {
    let (doc, buffers, _images) =
        gltf::import_slice(TRIANGLE_GLTF.as_bytes()).expect("triangle document parses");
    let flat = flatten(&doc, buffers);
    let m = from_document(&flat).expect("triangle document loads");
    assert_eq!(m.num_indices, 3);
    assert_eq!(m.index_format, IndexFormat::Half);
    assert_eq!(m.index_data, vec![0, 0, 1, 0, 2, 0]);
    let vb = m.vertex_data.expect("positions channel present");
    let mut expected = Vec::new();
    for v in [-0.5f32, -0.5, 0.0, 0.0, 0.5, 0.0, 0.5, -0.5, 0.0] {
        expected.extend_from_slice(&v.to_le_bytes());
    }
    assert_eq!(vb, expected);
}
