//! The document.

use crate::accessor::Accessor;
use crate::asset::Asset;
use crate::buffer::{Buffer, BufferView};
use crate::encode::{
    distinct_keys, lemma_fields, mark, put, put_index, put_list, with_field, with_index, with_list,
    ToJson,
};
use crate::json::{has_key, map_new, object_value, pretty_text, Entry, Json};
use crate::material::Material;
use crate::mesh::{Mesh, MeshPrimitive};
use crate::node::Node;
use crate::scene::Scene;
use vstd::prelude::*;

verus! {

/// Whether an index, where there is one, is a position in a list of `len` items.
pub open spec fn resolves(index: Option<u32>, len: nat) -> bool {
    index matches Some(i) ==> i < len
}

/// A document: the root of a scene description.
///
/// Indices held anywhere in the document refer to positions in the lists
/// below, as [`GLTF::references_resolve`] says. Nothing here checks that they
/// are in range: that is the caller's part.
#[derive(Clone)]
pub struct GLTF {
    pub asset: Asset,
    pub scene: Option<u32>,
    pub scenes: Vec<Scene>,
    pub nodes: Vec<Node>,
    pub materials: Vec<Material>,
    pub meshes: Vec<Mesh>,
    pub accessors: Vec<Accessor>,
    pub buffer_views: Vec<BufferView>,
    pub buffers: Vec<Buffer>,
}

impl GLTF {
    /// A document that holds nothing but the default metadata.
    pub fn new() -> (r: Self)
        ensures
            r.asset.copyright@.len() == 0,
            r.asset.generator@ == "Paragen v0.1.0"@,
            r.asset.version@ == "2.0"@,
            r.asset.min_version@ == "2.0"@,
            r.scene is None,
            r.scenes@.len() == 0,
            r.nodes@.len() == 0,
            r.materials@.len() == 0,
            r.meshes@.len() == 0,
            r.accessors@.len() == 0,
            r.buffer_views@.len() == 0,
            r.buffers@.len() == 0,
    {
        Self {
            asset: Asset::new(),
            nodes: Vec::new(),
            materials: Vec::new(),
            scene: None,
            scenes: Vec::new(),
            meshes: Vec::new(),
            accessors: Vec::new(),
            buffer_views: Vec::new(),
            buffers: Vec::new(),
        }
    }

    /// The entries of the JSON object. The metadata is always written; the
    /// active scene is left out when there is none, a list when it is empty.
    pub open spec fn entries(&self) -> Seq<Entry> {
        let e = Seq::<Entry>::empty();
        let e = with_field(e, true, "asset"@, self.asset.json());
        let e = with_index(e, "scene"@, self.scene);
        let e = with_list(e, "scenes"@, self.scenes@);
        let e = with_list(e, "nodes"@, self.nodes@);
        let e = with_list(e, "materials"@, self.materials@);
        let e = with_list(e, "meshes"@, self.meshes@);
        let e = with_list(e, "accessors"@, self.accessors@);
        let e = with_list(e, "bufferViews"@, self.buffer_views@);
        let e = with_list(e, "buffers"@, self.buffers@);
        e
    }

    /// Whether every index held in the document is a position in the list
    /// that it refers to. A document is exported whether or not this holds:
    /// to keep it is the caller's part.
    pub open spec fn references_resolve(&self) -> bool {
        &&& resolves(self.scene, self.scenes@.len())
        &&& forall|i: int, j: int|
            0 <= i < self.scenes@.len() && 0 <= j < self.scenes@[i].nodes@.len() ==> (
            #[trigger] self.scenes@[i].nodes@[j]) < self.nodes@.len()
        &&& forall|i: int|
            0 <= i < self.nodes@.len() ==> resolves(
                (#[trigger] self.nodes@[i]).mesh,
                self.meshes@.len(),
            )
        &&& forall|i: int, j: int|
            0 <= i < self.nodes@.len() && 0 <= j < self.nodes@[i].children@.len() ==> (
            #[trigger] self.nodes@[i].children@[j]) < self.nodes@.len()
        &&& forall|i: int, j: int|
            0 <= i < self.meshes@.len() && 0 <= j < self.meshes@[i].primitives@.len()
                ==> self.primitive_resolves(#[trigger] self.meshes@[i].primitives@[j])
        &&& forall|i: int|
            0 <= i < self.accessors@.len() ==> resolves(
                (#[trigger] self.accessors@[i]).buffer_view,
                self.buffer_views@.len(),
            )
        &&& forall|i: int|
            0 <= i < self.buffer_views@.len() ==> (#[trigger] self.buffer_views@[i]).buffer
                < self.buffers@.len()
    }

    /// Whether the indices that a primitive holds are positions in the lists
    /// of accessors and materials.
    pub open spec fn primitive_resolves(&self, primitive: MeshPrimitive) -> bool {
        let accessors = self.accessors@.len();
        &&& resolves(primitive.indices, accessors)
        &&& resolves(primitive.material, self.materials@.len())
        &&& resolves(primitive.attributes.color_0, accessors)
        &&& resolves(primitive.attributes.joints_0, accessors)
        &&& resolves(primitive.attributes.normal, accessors)
        &&& resolves(primitive.attributes.position, accessors)
        &&& resolves(primitive.attributes.tangent, accessors)
        &&& resolves(primitive.attributes.texcoord_0, accessors)
        &&& resolves(primitive.attributes.texcoord_1, accessors)
        &&& resolves(primitive.attributes.texcoord_2, accessors)
        &&& resolves(primitive.attributes.texcoord_3, accessors)
        &&& resolves(primitive.attributes.weights_0, accessors)
    }

    /// The text of the document: its JSON form as `serde_json` renders it,
    /// indented.
    pub open spec fn text(&self) -> Seq<u8> {
        pretty_text(self.json())
    }
}

proof fn lemma_document_keys()
    ensures
        mark("asset"@) == (5nat, 'a', 't'),
        mark("scene"@) == (5nat, 's', 'e'),
        mark("scenes"@) == (6nat, 's', 's'),
        mark("nodes"@) == (5nat, 'n', 's'),
        mark("materials"@) == (9nat, 'm', 's'),
        mark("meshes"@) == (6nat, 'm', 's'),
        mark("accessors"@) == (9nat, 'a', 's'),
        mark("bufferViews"@) == (11nat, 'b', 's'),
        mark("buffers"@) == (7nat, 'b', 's'),
{
    reveal_strlit("asset");
    reveal_strlit("scene");
    reveal_strlit("scenes");
    reveal_strlit("nodes");
    reveal_strlit("materials");
    reveal_strlit("meshes");
    reveal_strlit("accessors");
    reveal_strlit("bufferViews");
    reveal_strlit("buffers");
}

/// The keys of the document's object are `asset`, `scene` where there is an
/// active scene, and those of the lists that are not empty, each once.
pub proof fn law_document_keys(gltf: GLTF, key: Seq<char>)
    ensures
        has_key(gltf.entries(), key) <==> {
            ||| key == "asset"@
            ||| key == "scene"@ && gltf.scene is Some
            ||| key == "scenes"@ && gltf.scenes@.len() > 0
            ||| key == "nodes"@ && gltf.nodes@.len() > 0
            ||| key == "materials"@ && gltf.materials@.len() > 0
            ||| key == "meshes"@ && gltf.meshes@.len() > 0
            ||| key == "accessors"@ && gltf.accessors@.len() > 0
            ||| key == "bufferViews"@ && gltf.buffer_views@.len() > 0
            ||| key == "buffers"@ && gltf.buffers@.len() > 0
        },
        distinct_keys(gltf.entries()),
{
    lemma_fields();
    lemma_document_keys();
}

impl ToJson for GLTF {
    open spec fn json(&self) -> Json {
        Json::Object(self.entries())
    }

    fn to_value(&self) -> (v: serde_json::Value) {
        proof {
            lemma_document_keys();
        }
        let mut m = map_new();
        put(&mut m, "asset", self.asset.to_value());
        put_index(&mut m, "scene", self.scene);
        put_list(&mut m, "scenes", &self.scenes);
        put_list(&mut m, "nodes", &self.nodes);
        put_list(&mut m, "materials", &self.materials);
        put_list(&mut m, "meshes", &self.meshes);
        put_list(&mut m, "accessors", &self.accessors);
        put_list(&mut m, "bufferViews", &self.buffer_views);
        put_list(&mut m, "buffers", &self.buffers);
        object_value(m)
    }
}

} // verus!
