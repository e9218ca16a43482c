//! Meshes and their primitives.

use crate::encode::{
    array_json, array_of, distinct_keys, lemma_fields, mark, put, put_index, put_list, put_text,
    with_field, with_index, with_list, with_text, ToJson,
};
use crate::json::{has_key, integer_value, map_new, object_value, Entry, Json};
use crate::number::Real;
use vstd::prelude::*;

verus! {

/// The accessors that hold the vertex attributes of a primitive, one
/// optional index for each attribute that the format names.
#[derive(Clone)]
pub struct Attributes {
    pub color_0: Option<u32>,
    pub joints_0: Option<u32>,
    pub normal: Option<u32>,
    pub position: Option<u32>,
    pub tangent: Option<u32>,
    pub texcoord_0: Option<u32>,
    pub texcoord_1: Option<u32>,
    pub texcoord_2: Option<u32>,
    pub texcoord_3: Option<u32>,
    pub weights_0: Option<u32>,
}

impl Attributes {
    /// No attribute at all.
    pub fn new() -> (r: Self)
        ensures
            r.is_blank(),
    {
        Self {
            color_0: None,
            joints_0: None,
            normal: None,
            position: None,
            tangent: None,
            texcoord_0: None,
            texcoord_1: None,
            texcoord_2: None,
            texcoord_3: None,
            weights_0: None,
        }
    }

    /// Whether no attribute is there.
    pub open spec fn is_blank(&self) -> bool {
        &&& self.color_0 is None
        &&& self.joints_0 is None
        &&& self.normal is None
        &&& self.position is None
        &&& self.tangent is None
        &&& self.texcoord_0 is None
        &&& self.texcoord_1 is None
        &&& self.texcoord_2 is None
        &&& self.texcoord_3 is None
        &&& self.weights_0 is None
    }

    /// The entries of the JSON object: one for each attribute that is there,
    /// under the name that the format gives it.
    pub open spec fn entries(&self) -> Seq<Entry> {
        let e = Seq::<Entry>::empty();
        let e = with_index(e, "COLOR_0"@, self.color_0);
        let e = with_index(e, "JOINTS_0"@, self.joints_0);
        let e = with_index(e, "NORMAL"@, self.normal);
        let e = with_index(e, "POSITION"@, self.position);
        let e = with_index(e, "TANGENT"@, self.tangent);
        let e = with_index(e, "TEXCOORD_0"@, self.texcoord_0);
        let e = with_index(e, "TEXCOORD_1"@, self.texcoord_1);
        let e = with_index(e, "TEXCOORD_2"@, self.texcoord_2);
        let e = with_index(e, "TEXCOORD_3"@, self.texcoord_3);
        let e = with_index(e, "WEIGHTS_0"@, self.weights_0);
        e
    }
}

proof fn lemma_attribute_keys()
    ensures
        mark("COLOR_0"@) == (7nat, 'C', '0'),
        mark("JOINTS_0"@) == (8nat, 'J', '0'),
        mark("NORMAL"@) == (6nat, 'N', 'L'),
        mark("POSITION"@) == (8nat, 'P', 'N'),
        mark("TANGENT"@) == (7nat, 'T', 'T'),
        mark("TEXCOORD_0"@) == (10nat, 'T', '0'),
        mark("TEXCOORD_1"@) == (10nat, 'T', '1'),
        mark("TEXCOORD_2"@) == (10nat, 'T', '2'),
        mark("TEXCOORD_3"@) == (10nat, 'T', '3'),
        mark("WEIGHTS_0"@) == (9nat, 'W', '0'),
{
    reveal_strlit("COLOR_0");
    reveal_strlit("JOINTS_0");
    reveal_strlit("NORMAL");
    reveal_strlit("POSITION");
    reveal_strlit("TANGENT");
    reveal_strlit("TEXCOORD_0");
    reveal_strlit("TEXCOORD_1");
    reveal_strlit("TEXCOORD_2");
    reveal_strlit("TEXCOORD_3");
    reveal_strlit("WEIGHTS_0");
}

/// The entries up to the tangent: the first half of the object.
spec fn leading_entries(attributes: Attributes) -> Seq<Entry> {
    let e = Seq::<Entry>::empty();
    let e = with_index(e, "COLOR_0"@, attributes.color_0);
    let e = with_index(e, "JOINTS_0"@, attributes.joints_0);
    let e = with_index(e, "NORMAL"@, attributes.normal);
    let e = with_index(e, "POSITION"@, attributes.position);
    let e = with_index(e, "TANGENT"@, attributes.tangent);
    e
}

proof fn lemma_leading_keys(attributes: Attributes)
    ensures
        forall|key: Seq<char>|
            #[trigger] has_key(leading_entries(attributes), key) <==> {
                ||| key == "COLOR_0"@ && attributes.color_0 is Some
                ||| key == "JOINTS_0"@ && attributes.joints_0 is Some
                ||| key == "NORMAL"@ && attributes.normal is Some
                ||| key == "POSITION"@ && attributes.position is Some
                ||| key == "TANGENT"@ && attributes.tangent is Some
            },
        distinct_keys(leading_entries(attributes)),
{
    lemma_fields();
    lemma_attribute_keys();
}

/// The keys of the attributes' object are the names of the attributes that
/// are there, each once.
pub proof fn law_attribute_keys(attributes: Attributes, key: Seq<char>)
    ensures
        has_key(attributes.entries(), key) <==> {
            ||| key == "COLOR_0"@ && attributes.color_0 is Some
            ||| key == "JOINTS_0"@ && attributes.joints_0 is Some
            ||| key == "NORMAL"@ && attributes.normal is Some
            ||| key == "POSITION"@ && attributes.position is Some
            ||| key == "TANGENT"@ && attributes.tangent is Some
            ||| key == "TEXCOORD_0"@ && attributes.texcoord_0 is Some
            ||| key == "TEXCOORD_1"@ && attributes.texcoord_1 is Some
            ||| key == "TEXCOORD_2"@ && attributes.texcoord_2 is Some
            ||| key == "TEXCOORD_3"@ && attributes.texcoord_3 is Some
            ||| key == "WEIGHTS_0"@ && attributes.weights_0 is Some
        },
        distinct_keys(attributes.entries()),
{
    lemma_leading_keys(attributes);
    lemma_fields();
    lemma_attribute_keys();
    let e = leading_entries(attributes);
    let e = with_index(e, "TEXCOORD_0"@, attributes.texcoord_0);
    let e = with_index(e, "TEXCOORD_1"@, attributes.texcoord_1);
    let e = with_index(e, "TEXCOORD_2"@, attributes.texcoord_2);
    let e = with_index(e, "TEXCOORD_3"@, attributes.texcoord_3);
    let e = with_index(e, "WEIGHTS_0"@, attributes.weights_0);
    assert(e == attributes.entries());
}

impl ToJson for Attributes {
    open spec fn json(&self) -> Json {
        Json::Object(self.entries())
    }

    fn to_value(&self) -> (v: serde_json::Value) {
        proof {
            lemma_attribute_keys();
        }
        let mut m = map_new();
        put_index(&mut m, "COLOR_0", self.color_0);
        put_index(&mut m, "JOINTS_0", self.joints_0);
        put_index(&mut m, "NORMAL", self.normal);
        put_index(&mut m, "POSITION", self.position);
        put_index(&mut m, "TANGENT", self.tangent);
        put_index(&mut m, "TEXCOORD_0", self.texcoord_0);
        put_index(&mut m, "TEXCOORD_1", self.texcoord_1);
        put_index(&mut m, "TEXCOORD_2", self.texcoord_2);
        put_index(&mut m, "TEXCOORD_3", self.texcoord_3);
        put_index(&mut m, "WEIGHTS_0", self.weights_0);
        object_value(m)
    }
}

/// The topology of a primitive. Written as its number in the format.
#[derive(Clone, Copy, PartialEq, Eq, Structural)]
pub enum Mode {
    Points,
    Lines,
    LineLoop,
    LineStrip,
    Triangles,
    TriangleStrip,
    TriangleFan,
}

impl Mode {
    /// The number of the mode in the format.
    pub open spec fn number(&self) -> u8 {
        match self {
            Mode::Points => 0,
            Mode::Lines => 1,
            Mode::LineLoop => 2,
            Mode::LineStrip => 3,
            Mode::Triangles => 4,
            Mode::TriangleStrip => 5,
            Mode::TriangleFan => 6,
        }
    }

    /// The number of the mode in the format.
    #[verifier::when_used_as_spec(number)]
    pub fn code(&self) -> (r: u8)
        ensures
            r == self.number(),
    {
        match self {
            Mode::Points => 0,
            Mode::Lines => 1,
            Mode::LineLoop => 2,
            Mode::LineStrip => 3,
            Mode::Triangles => 4,
            Mode::TriangleStrip => 5,
            Mode::TriangleFan => 6,
        }
    }
}

impl ToJson for Mode {
    open spec fn json(&self) -> Json {
        Json::Integer(self.code() as int)
    }

    fn to_value(&self) -> (v: serde_json::Value) {
        integer_value(self.code() as u32)
    }
}

/// Whether a mode is the default, triangles.
pub fn is_default_mode(value: &Mode) -> (r: bool)
    ensures
        r == (*value == Mode::Triangles),
{
    *value == Mode::Triangles
}

/// One drawable part of a mesh.
#[derive(Clone)]
pub struct MeshPrimitive {
    pub attributes: Attributes,
    pub indices: Option<u32>,
    pub material: Option<u32>,
    pub mode: Mode,
}

impl MeshPrimitive {
    /// A primitive of triangles without attributes, indices and material.
    pub fn new() -> (r: Self)
        ensures
            r.attributes.is_blank(),
            r.indices is None,
            r.material is None,
            r.mode == Mode::Triangles,
    {
        Self { attributes: Attributes::new(), indices: None, material: None, mode: Mode::Triangles }
    }

    /// The entries of the JSON object. The attributes are always written.
    pub open spec fn entries(&self) -> Seq<Entry> {
        let e = Seq::<Entry>::empty();
        let e = with_field(e, true, "attributes"@, self.attributes.json());
        let e = with_index(e, "indices"@, self.indices);
        let e = with_index(e, "material"@, self.material);
        let e = with_field(e, self.mode != Mode::Triangles, "mode"@, self.mode.json());
        e
    }
}

proof fn lemma_primitive_keys()
    ensures
        mark("attributes"@) == (10nat, 'a', 's'),
        mark("indices"@) == (7nat, 'i', 's'),
        mark("material"@) == (8nat, 'm', 'l'),
        mark("mode"@) == (4nat, 'm', 'e'),
{
    reveal_strlit("attributes");
    reveal_strlit("indices");
    reveal_strlit("material");
    reveal_strlit("mode");
}

/// The keys of a primitive's object are `attributes`, those of the indices
/// and the material that are there, and `mode` unless the mode is triangles,
/// each once.
pub proof fn law_primitive_keys(primitive: MeshPrimitive, key: Seq<char>)
    ensures
        has_key(primitive.entries(), key) <==> {
            ||| key == "attributes"@
            ||| key == "indices"@ && primitive.indices is Some
            ||| key == "material"@ && primitive.material is Some
            ||| key == "mode"@ && primitive.mode != Mode::Triangles
        },
        distinct_keys(primitive.entries()),
{
    lemma_fields();
    lemma_primitive_keys();
}

impl ToJson for MeshPrimitive {
    open spec fn json(&self) -> Json {
        Json::Object(self.entries())
    }

    fn to_value(&self) -> (v: serde_json::Value) {
        proof {
            lemma_primitive_keys();
        }
        let mut m = map_new();
        put(&mut m, "attributes", self.attributes.to_value());
        put_index(&mut m, "indices", self.indices);
        put_index(&mut m, "material", self.material);
        if !is_default_mode(&self.mode) {
            put(&mut m, "mode", self.mode.to_value());
        }
        object_value(m)
    }
}

/// A mesh.
#[derive(Clone)]
pub struct Mesh {
    pub name: String,
    pub primitives: Vec<MeshPrimitive>,
    pub weights: Vec<Real>,
}

impl Mesh {
    /// A mesh without name, primitives and weights.
    pub fn new() -> (r: Self)
        ensures
            r.name@.len() == 0,
            r.primitives@.len() == 0,
            r.weights@.len() == 0,
    {
        Self { primitives: Vec::new(), weights: Vec::new(), name: String::new() }
    }

    /// The entries of the JSON object. The list of primitives is written
    /// even when it is empty.
    pub open spec fn entries(&self) -> Seq<Entry> {
        let e = Seq::<Entry>::empty();
        let e = with_text(e, "name"@, self.name@);
        let e = with_field(e, true, "primitives"@, array_json(self.primitives@));
        let e = with_list(e, "weights"@, self.weights@);
        e
    }
}

proof fn lemma_mesh_keys()
    ensures
        mark("name"@) == (4nat, 'n', 'e'),
        mark("primitives"@) == (10nat, 'p', 's'),
        mark("weights"@) == (7nat, 'w', 's'),
{
    reveal_strlit("name");
    reveal_strlit("primitives");
    reveal_strlit("weights");
}

/// The keys of a mesh's object are `primitives`, also when there is no
/// primitive, and those of the name and the weights that are not empty, each
/// once.
pub proof fn law_mesh_keys(mesh: Mesh, key: Seq<char>)
    ensures
        has_key(mesh.entries(), key) <==> {
            ||| key == "name"@ && mesh.name@.len() > 0
            ||| key == "primitives"@
            ||| key == "weights"@ && mesh.weights@.len() > 0
        },
        distinct_keys(mesh.entries()),
{
    lemma_fields();
    lemma_mesh_keys();
}

/// The list of primitives is written also when it is empty: a mesh without
/// name, primitives and weights is written with the one key `primitives` and
/// the empty array.
pub proof fn law_plain_mesh(mesh: Mesh)
    requires
        mesh.name@.len() == 0,
        mesh.primitives@.len() == 0,
        mesh.weights@.len() == 0,
    ensures
        mesh.json() == Json::Object(seq![("primitives"@, Json::Array(Seq::empty()))]),
{
    assert(Seq::new(mesh.primitives@.len(), |i: int| mesh.primitives@[i].json())
        =~= Seq::<Json>::empty());
    assert(mesh.entries() =~= seq![("primitives"@, Json::Array(Seq::empty()))]);
}

impl ToJson for Mesh {
    open spec fn json(&self) -> Json {
        Json::Object(self.entries())
    }

    fn to_value(&self) -> (v: serde_json::Value) {
        proof {
            lemma_mesh_keys();
        }
        let mut m = map_new();
        put_text(&mut m, "name", &self.name);
        put(&mut m, "primitives", array_of(&self.primitives));
        put_list(&mut m, "weights", &self.weights);
        object_value(m)
    }
}

} // verus!
