//! A glTF 2.0 scene document and its export as JSON text.
//!
//! A document is assembled from plain records, each made by its `new` and then
//! changed field by field. [`write_gltf`] turns it into indented JSON text in a
//! buffer of exactly the text's size. Which fields of a record are written and
//! which are left out at their default is stated by the `entries` of each
//! record.

pub mod accessor;
pub mod asset;
pub mod buffer;
pub mod channel;
pub mod encode;
pub mod export;
pub mod gltf;
pub mod json;
pub mod laws;
pub mod material;
pub mod mesh;
pub mod node;
pub mod number;
pub mod prelude;
pub mod scene;
pub mod sink;

pub use accessor::{is_default_byte_offset, is_default_normalized, Accessor, ComponentType, Type};
pub use asset::Asset;
pub use buffer::{Buffer, BufferView, Target};
pub use channel::{ChannelState, ExportChannel};
pub use encode::ToJson;
pub use export::{confirm, measure, outcome, settle, write_gltf, ErrorCode};
pub use gltf::GLTF;
pub use json::Json;
pub use material::{
    is_default_alpha_cutoff, is_default_alpha_mode, is_default_double_sided,
    is_default_emissive_factor, is_default_metallic_factor, is_default_roughness_factor, AlphaMode,
    Color4, Material, PBRMetallicRoughness,
};
pub use mesh::{is_default_mode, Attributes, Mesh, MeshPrimitive, Mode};
pub use node::{Node, Rotation, Scale, Translation};
pub use number::Real;
pub use scene::Scene;
pub use sink::DryRunWriter;
