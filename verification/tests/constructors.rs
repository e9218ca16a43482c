use paragen::prelude::{ErrorCode, Node, Scene, GLTF};
use paragen::{
    Accessor, AlphaMode, Asset, Attributes, Buffer, BufferView, Color4, ComponentType, Material,
    Mesh, MeshPrimitive, Mode, PBRMetallicRoughness, Rotation, Scale, Translation, Type,
};

#[test]
fn asset_starts_as_version_two_made_here() {
    let asset = Asset::new();
    assert_eq!(asset.copyright, "");
    assert_eq!(asset.generator, "Paragen v0.1.0");
    assert_eq!(asset.version, "2.0");
    assert_eq!(asset.min_version, "2.0");
}

#[test]
fn document_starts_with_the_default_asset_and_nothing_else() {
    let document = GLTF::new();
    assert_eq!(document.asset.generator, "Paragen v0.1.0");
    assert_eq!(document.asset.version, "2.0");
    assert_eq!(document.scene, None);
    assert!(document.scenes.is_empty());
    assert!(document.nodes.is_empty());
    assert!(document.materials.is_empty());
    assert!(document.meshes.is_empty());
    assert!(document.accessors.is_empty());
    assert!(document.buffer_views.is_empty());
    assert!(document.buffers.is_empty());
}

#[test]
fn scene_starts_empty() {
    let scene = Scene::new();
    assert_eq!(scene.name, "");
    assert!(scene.nodes.is_empty());
}

#[test]
fn transforms_start_at_their_defaults() {
    let t = Translation::new();
    assert_eq!(
        [t.x.to_bits(), t.y.to_bits(), t.z.to_bits()],
        [0.0f64.to_bits(), 0.0f64.to_bits(), 0.0f64.to_bits()]
    );
    let r = Rotation::new();
    assert_eq!(
        [r.x.to_bits(), r.y.to_bits(), r.z.to_bits(), r.w.to_bits()],
        [0.0f64.to_bits(), 0.0f64.to_bits(), 0.0f64.to_bits(), 1.0f64.to_bits()]
    );
    let s = Scale::new();
    assert_eq!(
        [s.x.to_bits(), s.y.to_bits(), s.z.to_bits()],
        [1.0f64.to_bits(), 1.0f64.to_bits(), 1.0f64.to_bits()]
    );
    assert!(t.is_default() && r.is_default() && s.is_default());
}

#[test]
fn node_starts_plain() {
    let node = Node::new();
    assert_eq!(node.name, "");
    assert_eq!(node.mesh, None);
    assert!(node.t.is_default());
    assert!(node.r.is_default());
    assert!(node.s.is_default());
    assert!(node.children.is_empty());
}

#[test]
fn color_starts_white() {
    let c = Color4::new();
    assert_eq!(
        [c.r.to_bits(), c.g.to_bits(), c.b.to_bits(), c.a.to_bits()],
        [1.0f64.to_bits(); 4]
    );
}

#[test]
fn material_starts_at_the_defaults_of_the_format() {
    let material = Material::new();
    assert_eq!(material.name, "");
    assert_eq!(material.emissive_factor[0].to_bits(), 0.0f64.to_bits());
    assert_eq!(material.emissive_factor[1].to_bits(), 0.0f64.to_bits());
    assert_eq!(material.emissive_factor[2].to_bits(), 0.0f64.to_bits());
    assert!(material.alpha_mode == AlphaMode::OPAQUE);
    assert_eq!(material.alpha_cutoff.to_bits(), 0.5f64.to_bits());
    assert!(!material.double_sided);
    let pbr = PBRMetallicRoughness::new();
    assert!(pbr.base_color_factor.is_default());
    assert_eq!(pbr.metallic_factor.to_bits(), 1.0f64.to_bits());
    assert_eq!(pbr.roughness_factor.to_bits(), 1.0f64.to_bits());
    assert!(material.pbr_metallic_roughness.base_color_factor.is_default());
    assert_eq!(material.pbr_metallic_roughness.metallic_factor.to_bits(), 1.0f64.to_bits());
    assert_eq!(material.pbr_metallic_roughness.roughness_factor.to_bits(), 1.0f64.to_bits());
}

#[test]
fn attributes_start_without_any_accessor() {
    let a = Attributes::new();
    assert_eq!(
        [
            a.color_0, a.joints_0, a.normal, a.position, a.tangent, a.texcoord_0, a.texcoord_1,
            a.texcoord_2, a.texcoord_3, a.weights_0
        ],
        [None; 10]
    );
}

#[test]
fn primitive_starts_as_triangles() {
    let primitive = MeshPrimitive::new();
    assert_eq!(primitive.attributes.position, None);
    assert_eq!(primitive.indices, None);
    assert_eq!(primitive.material, None);
    assert!(primitive.mode == Mode::Triangles);
}

#[test]
fn mesh_starts_empty() {
    let mesh = Mesh::new();
    assert_eq!(mesh.name, "");
    assert!(mesh.primitives.is_empty());
    assert!(mesh.weights.is_empty());
}

#[test]
fn accessor_starts_as_no_scalar_bytes() {
    let accessor = Accessor::new();
    assert_eq!(accessor.name, "");
    assert_eq!(accessor.buffer_view, None);
    assert_eq!(accessor.byte_offset, 0);
    assert!(accessor.component_type == ComponentType::Byte);
    assert!(!accessor.normalized);
    assert_eq!(accessor.count, 0);
    assert!(accessor.type_ == Type::SCALAR);
    assert!(accessor.max.is_empty());
    assert!(accessor.min.is_empty());
}

#[test]
fn buffer_view_starts_empty_in_buffer_zero() {
    let view = BufferView::new();
    assert_eq!(view.name, "");
    assert_eq!(view.buffer, 0);
    assert_eq!(view.byte_length, 0);
    assert_eq!(view.byte_offset, 0);
    assert_eq!(view.byte_stride, None);
    assert!(view.target.is_none());
}

#[test]
fn buffer_starts_empty() {
    let buffer = Buffer::new();
    assert_eq!(buffer.name, "");
    assert_eq!(buffer.byte_length, 0);
    assert_eq!(buffer.uri, "");
}

#[test]
fn the_prelude_names_the_error_code() {
    assert!(ErrorCode::Success != ErrorCode::Mutex);
    assert!(ErrorCode::Mutex != ErrorCode::Generation);
    assert!(ErrorCode::Generation != ErrorCode::Success);
}
