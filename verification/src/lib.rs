//! Verified core of a single-mesh immediate-mode renderer.
//!
//! The library holds the logic worth proving: mesh ingestion from an
//! interchange document into raw GPU buffer bytes, index-format inference,
//! device-resource descriptor derivation and all-or-nothing assembly, and
//! the per-frame render command sequence. The unverified shell around it
//! performs the actual GPU and window-system calls.

mod device;
mod document;
mod error;
mod frame;
mod geometry;
mod loader;
mod model;

pub use device::AlphaMode;
pub use device::DEFAULT_HEIGHT;
pub use device::DEFAULT_WIDTH;
pub use device::DepthBufferConfig;
pub use device::DeviceRequest;
pub use device::DeviceResources;
pub use device::InputElementConfig;
pub use device::InputSemantic;
pub use device::PixelFormat;
pub use device::ScalingMode;
pub use device::SwapEffect;
pub use device::SwapchainConfig;
pub use device::ViewportConfig;
pub use device::depth_buffer_config;
pub use device::device_request;
pub use device::first_missing_part;
pub use device::input_element_config;
pub use device::spec_depth_buffer_config;
pub use device::spec_device_request;
pub use device::spec_input_element_config;
pub use device::spec_swapchain_config;
pub use device::spec_viewport_config;
pub use device::swapchain_config;
pub use device::viewport_config;
pub use document::Accessor;
pub use document::BufferView;
pub use document::DataType;
pub use document::Document;
pub use document::Mesh;
pub use document::Node;
pub use document::Primitive;
pub use document::Scene;
pub use document::Semantic;
pub use error::Error;
pub use error::ResourceKind;
pub use frame::ESCAPE_CODE;
pub use frame::EventResponse;
pub use frame::ONE_BITS;
pub use frame::Phase;
pub use frame::RenderCommand;
pub use frame::Topology;
pub use frame::WindowEvent;
pub use frame::check_present;
pub use frame::handle_event;
pub use frame::lemma_paint_sequence_shape;
pub use frame::paint_commands;
pub use frame::paint_sequence;
pub use geometry::IndexFormat;
pub use geometry::VERTEX_STRIDE;
pub use geometry::Vertex;
pub use geometry::encode_indices;
pub use geometry::encode_vertices;
pub use geometry::indices_le_bytes;
pub use geometry::vertex_le_bytes;
pub use geometry::vertices_le_bytes;
pub use loader::IndexPart;
pub use loader::LoadState;
pub use loader::ModelSpec;
pub use loader::apply_attribute;
pub use loader::apply_attributes;
pub use loader::apply_node;
pub use loader::apply_nodes;
pub use loader::apply_primitive;
pub use loader::apply_primitives;
pub use loader::from_document;
pub use loader::has_unsupported_attribute;
pub use loader::index_format_of;
pub use loader::index_part_of;
pub use loader::lemma_load_rejects_unsupported_attribute;
pub use loader::lemma_single_primitive_index_format;
pub use loader::lemma_single_primitive_unsupported_index_type;
pub use loader::load_spec;
pub use loader::node_yields_unsupported;
pub use loader::vertex_part_of;
pub use model::Model;
pub use model::NEG_HALF_BITS;
pub use model::POS_HALF_BITS;
pub use model::ZERO_BITS;
