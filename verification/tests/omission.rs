use paragen::{
    Accessor, Asset, Buffer, BufferView, Color4, Material, Mesh, MeshPrimitive, Mode, Node,
    PBRMetallicRoughness, Real, Rotation, Scale, Scene, Target, ToJson, Translation, GLTF,
};

fn float(x: f64) -> Real {
    Real::new(serde_json::Value::from(x)).unwrap()
}

fn compact<T: ToJson>(value: &T) -> String {
    serde_json::to_string(&value.to_value()).unwrap()
}

#[test]
fn default_node_is_an_empty_object() {
    assert_eq!(compact(&Node::new()), "{}");
}

#[test]
fn node_with_translation_has_only_that_key() {
    let mut node = Node::new();
    node.t = Translation { x: float(1.0), y: float(0.0), z: float(0.0) };
    assert_eq!(compact(&node), "{\"translation\":[1.0,0.0,0.0]}");
    let parsed: serde_json::Value = serde_json::from_str("{\"translation\":[1,0,0]}").unwrap();
    let written = node.to_value();
    assert_eq!(written["translation"][0].as_f64(), parsed["translation"][0].as_f64());
    assert_eq!(written.as_object().unwrap().len(), 1);
}

#[test]
fn node_with_negative_zero_translation_is_still_default() {
    let mut node = Node::new();
    node.t = Translation { x: float(-0.0), y: float(0.0), z: float(-0.0) };
    assert!(node.t.is_default());
    assert_eq!(compact(&node), "{}");
}

#[test]
fn node_writes_its_fields_in_schema_order() {
    let mut node = Node::new();
    node.children = vec![3, 4];
    node.s = Scale { x: float(2.0), y: float(1.0), z: float(1.0) };
    node.r = Rotation { x: float(0.0), y: float(1.0), z: float(0.0), w: float(0.0) };
    node.t = Translation { x: float(0.0), y: float(0.0), z: float(0.25) };
    node.mesh = Some(7);
    node.name = String::from("root");
    assert_eq!(
        compact(&node),
        "{\"name\":\"root\",\"mesh\":7,\"translation\":[0.0,0.0,0.25],\
         \"rotation\":[0.0,1.0,0.0,0.0],\"scale\":[2.0,1.0,1.0],\"children\":[3,4]}"
    );
}

#[test]
fn rotation_is_default_only_at_the_identity() {
    assert!(Rotation::new().is_default());
    let all_zero = Rotation { x: float(0.0), y: float(0.0), z: float(0.0), w: float(0.0) };
    assert!(!all_zero.is_default());
    let mut node = Node::new();
    node.r = all_zero;
    assert_eq!(compact(&node), "{\"rotation\":[0.0,0.0,0.0,0.0]}");
}

#[test]
fn scale_is_default_only_at_one() {
    assert!(Scale::new().is_default());
    let nearly = Scale { x: float(1.0), y: float(1.0), z: float(1.0000000000000002) };
    assert!(!nearly.is_default());
    let mut node = Node::new();
    node.s = nearly;
    assert_eq!(compact(&node), "{\"scale\":[1.0,1.0,1.0000000000000002]}");
}

#[test]
fn mesh_without_primitives_still_writes_the_list() {
    assert_eq!(compact(&Mesh::new()), "{\"primitives\":[]}");
}

#[test]
fn mesh_with_name_primitive_and_weights() {
    let mut mesh = Mesh::new();
    mesh.name = String::from("cube");
    mesh.primitives.push(MeshPrimitive::new());
    mesh.weights = vec![float(0.5), float(2.0)];
    assert_eq!(
        compact(&mesh),
        "{\"name\":\"cube\",\"primitives\":[{\"attributes\":{}}],\"weights\":[0.5,2.0]}"
    );
}

#[test]
fn primitive_always_writes_its_attributes() {
    assert_eq!(compact(&MeshPrimitive::new()), "{\"attributes\":{}}");
}

#[test]
fn primitive_leaves_out_the_mode_only_for_triangles() {
    let mut primitive = MeshPrimitive::new();
    primitive.mode = Mode::Lines;
    primitive.indices = Some(2);
    primitive.material = Some(0);
    primitive.attributes.position = Some(1);
    primitive.attributes.normal = Some(5);
    primitive.attributes.texcoord_0 = Some(6);
    primitive.attributes.color_0 = Some(9);
    assert_eq!(
        compact(&primitive),
        "{\"attributes\":{\"COLOR_0\":9,\"NORMAL\":5,\"POSITION\":1,\"TEXCOORD_0\":6},\
         \"indices\":2,\"material\":0,\"mode\":1}"
    );
}

#[test]
fn attributes_are_written_under_the_names_of_the_format() {
    let mut primitive = MeshPrimitive::new();
    primitive.attributes.color_0 = Some(0);
    primitive.attributes.joints_0 = Some(1);
    primitive.attributes.normal = Some(2);
    primitive.attributes.position = Some(3);
    primitive.attributes.tangent = Some(4);
    primitive.attributes.texcoord_0 = Some(5);
    primitive.attributes.texcoord_1 = Some(6);
    primitive.attributes.texcoord_2 = Some(7);
    primitive.attributes.texcoord_3 = Some(8);
    primitive.attributes.weights_0 = Some(9);
    assert_eq!(
        compact(&primitive.attributes),
        "{\"COLOR_0\":0,\"JOINTS_0\":1,\"NORMAL\":2,\"POSITION\":3,\"TANGENT\":4,\
         \"TEXCOORD_0\":5,\"TEXCOORD_1\":6,\"TEXCOORD_2\":7,\"TEXCOORD_3\":8,\"WEIGHTS_0\":9}"
    );
}

#[test]
fn buffer_view_always_writes_its_byte_offset() {
    assert_eq!(compact(&BufferView::new()), "{\"buffer\":0,\"byteLength\":0,\"byteOffset\":0}");
}

#[test]
fn buffer_view_with_every_field() {
    let mut view = BufferView::new();
    view.name = String::from("vertices");
    view.buffer = 1;
    view.byte_length = 288;
    view.byte_offset = 16;
    view.byte_stride = Some(12);
    view.target = Some(Target::ElementArrayBuffer);
    assert_eq!(
        compact(&view),
        "{\"name\":\"vertices\",\"buffer\":1,\"byteLength\":288,\"byteOffset\":16,\
         \"byteStride\":12,\"target\":34963}"
    );
}

#[test]
fn accessor_leaves_out_a_byte_offset_of_zero() {
    let accessor = Accessor::new();
    assert_eq!(accessor.byte_offset, 0);
    assert_eq!(compact(&accessor), "{\"componentType\":5120,\"count\":0,\"type\":\"SCALAR\"}");
    assert!(accessor.to_value().get("byteOffset").is_none());
}

#[test]
fn accessor_with_every_field() {
    let mut accessor = Accessor::new();
    accessor.name = String::from("positions");
    accessor.buffer_view = Some(0);
    accessor.byte_offset = 4;
    accessor.component_type = paragen::ComponentType::Float;
    accessor.normalized = true;
    accessor.count = 24;
    accessor.type_ = paragen::Type::VEC3;
    accessor.max = vec![float(1.0), float(1.0), float(1.0)];
    accessor.min = vec![float(-1.0), float(-1.0), float(-1.0)];
    assert_eq!(
        compact(&accessor),
        "{\"name\":\"positions\",\"bufferView\":0,\"byteOffset\":4,\"componentType\":5126,\
         \"normalized\":true,\"count\":24,\"type\":\"VEC3\",\"max\":[1.0,1.0,1.0],\
         \"min\":[-1.0,-1.0,-1.0]}"
    );
}

#[test]
fn asset_with_empty_version_still_writes_it() {
    let mut asset = Asset::new();
    asset.version = String::new();
    asset.generator = String::new();
    asset.min_version = String::new();
    assert_eq!(compact(&asset), "{\"version\":\"\"}");
}

#[test]
fn default_asset_leaves_out_the_copyright() {
    assert_eq!(
        compact(&Asset::new()),
        "{\"generator\":\"Paragen v0.1.0\",\"version\":\"2.0\",\"minVersion\":\"2.0\"}"
    );
    let mut asset = Asset::new();
    asset.copyright = String::from("nobody");
    assert_eq!(
        compact(&asset),
        "{\"copyright\":\"nobody\",\"generator\":\"Paragen v0.1.0\",\"version\":\"2.0\",\
         \"minVersion\":\"2.0\"}"
    );
}

#[test]
fn buffer_leaves_out_empty_name_and_uri() {
    assert_eq!(compact(&Buffer::new()), "{\"byteLength\":0}");
    let mut buffer = Buffer::new();
    buffer.name = String::from("data");
    buffer.byte_length = 840;
    buffer.uri = String::from("data.bin");
    assert_eq!(compact(&buffer), "{\"name\":\"data\",\"byteLength\":840,\"uri\":\"data.bin\"}");
}

#[test]
fn scene_leaves_out_empty_name_and_nodes() {
    assert_eq!(compact(&Scene::new()), "{}");
    let mut scene = Scene::new();
    scene.name = String::from("main");
    scene.nodes = vec![0, 2];
    assert_eq!(compact(&scene), "{\"name\":\"main\",\"nodes\":[0,2]}");
}

#[test]
fn default_material_writes_only_the_empty_pbr_block() {
    assert_eq!(compact(&Material::new()), "{\"pbrMetallicRoughness\":{}}");
}

#[test]
fn material_with_every_field() {
    let mut material = Material::new();
    material.name = String::from("glass");
    material.emissive_factor = [float(0.0), float(0.5), float(0.0)];
    material.alpha_mode = paragen::AlphaMode::BLEND;
    material.alpha_cutoff = float(0.25);
    material.double_sided = true;
    material.pbr_metallic_roughness.base_color_factor =
        Color4 { r: float(1.0), g: float(1.0), b: float(1.0), a: float(0.5) };
    material.pbr_metallic_roughness.metallic_factor = float(0.0);
    material.pbr_metallic_roughness.roughness_factor = float(0.75);
    assert_eq!(
        compact(&material),
        "{\"name\":\"glass\",\"emissiveFactor\":[0.0,0.5,0.0],\"alphaMode\":\"BLEND\",\
         \"alphaCutoff\":0.25,\"doubleSided\":true,\"pbrMetallicRoughness\":\
         {\"baseColorFactor\":[1.0,1.0,1.0,0.5],\"metallicFactor\":0.0,\"roughnessFactor\":0.75}}"
    );
}

#[test]
fn pbr_factors_are_left_out_only_at_exactly_one() {
    let mut pbr = PBRMetallicRoughness::new();
    assert_eq!(compact(&pbr), "{}");
    pbr.metallic_factor = float(0.9999999999999999);
    assert_eq!(compact(&pbr), "{\"metallicFactor\":0.9999999999999999}");
    pbr.metallic_factor = float(1.0);
    pbr.roughness_factor = float(1.5);
    assert_eq!(compact(&pbr), "{\"roughnessFactor\":1.5}");
}

#[test]
fn color_is_compared_as_a_whole() {
    assert!(Color4::new().is_default());
    let tinted = Color4 { r: float(1.0), g: float(0.0), b: float(1.0), a: float(1.0) };
    assert!(!tinted.is_default());
    assert_eq!(compact(&tinted), "[1.0,0.0,1.0,1.0]");
}

#[test]
fn document_leaves_out_empty_lists_and_a_missing_scene() {
    let document = GLTF::new();
    assert_eq!(
        compact(&document),
        "{\"asset\":{\"generator\":\"Paragen v0.1.0\",\"version\":\"2.0\",\"minVersion\":\"2.0\"}}"
    );
}

#[test]
fn document_writes_its_lists_in_schema_order() {
    let mut document = GLTF::new();
    document.buffers.push(Buffer::new());
    document.buffer_views.push(BufferView::new());
    document.accessors.push(Accessor::new());
    document.meshes.push(Mesh::new());
    document.materials.push(Material::new());
    document.nodes.push(Node::new());
    document.scenes.push(Scene::new());
    document.scene = Some(0);
    assert_eq!(
        compact(&document),
        "{\"asset\":{\"generator\":\"Paragen v0.1.0\",\"version\":\"2.0\",\"minVersion\":\"2.0\"},\
         \"scene\":0,\"scenes\":[{}],\"nodes\":[{}],\
         \"materials\":[{\"pbrMetallicRoughness\":{}}],\"meshes\":[{\"primitives\":[]}],\
         \"accessors\":[{\"componentType\":5120,\"count\":0,\"type\":\"SCALAR\"}],\
         \"bufferViews\":[{\"buffer\":0,\"byteLength\":0,\"byteOffset\":0}],\
         \"buffers\":[{\"byteLength\":0}]}"
    );
}
