//! Nodes of the scene graph and their transforms.

use crate::encode::{
    distinct_keys, lemma_fields, mark, put, put_index, put_list, put_text, with_field, with_index,
    with_list, with_text, ToJson,
};
use crate::json::{array_value, has_key, json_of, map_new, models, object_value, Entry, Json};
use crate::number::{same_number, Real, ONE_BITS, ZERO_BITS};
use vstd::prelude::*;
use vstd::std_specs::cmp::PartialEqSpec;

verus! {

/// Builds the JSON array of three numbers.
pub(crate) fn triple_value(a: &Real, b: &Real, c: &Real) -> (v: serde_json::Value)
    ensures
        json_of(v) == Json::Array(seq![Json::Real(a@), Json::Real(b@), Json::Real(c@)]),
{
    let mut values: Vec<serde_json::Value> = Vec::new();
    values.push(a.to_value());
    values.push(b.to_value());
    values.push(c.to_value());
    let v = array_value(values);
    proof {
        assert(models(values@) =~= seq![Json::Real(a@), Json::Real(b@), Json::Real(c@)]);
    }
    v
}

/// Builds the JSON array of four numbers.
pub(crate) fn quadruple_value(a: &Real, b: &Real, c: &Real, d: &Real) -> (v: serde_json::Value)
    ensures
        json_of(v) == Json::Array(
            seq![Json::Real(a@), Json::Real(b@), Json::Real(c@), Json::Real(d@)],
        ),
{
    let mut values: Vec<serde_json::Value> = Vec::new();
    values.push(a.to_value());
    values.push(b.to_value());
    values.push(c.to_value());
    values.push(d.to_value());
    let v = array_value(values);
    proof {
        assert(models(values@) =~= seq![
            Json::Real(a@),
            Json::Real(b@),
            Json::Real(c@),
            Json::Real(d@),
        ]);
    }
    v
}

/// A translation. The default is the origin.
#[derive(Clone)]
pub struct Translation {
    pub x: Real,
    pub y: Real,
    pub z: Real,
}

/// A translation is seen as the bit patterns of its components.
impl View for Translation {
    type V = (u64, u64, u64);

    open spec fn view(&self) -> (u64, u64, u64) {
        (self.x@, self.y@, self.z@)
    }
}

impl Translation {
    /// The origin.
    pub fn new() -> (r: Self)
        ensures
            r@ == (ZERO_BITS, ZERO_BITS, ZERO_BITS),
    {
        Self { x: Real::zero(), y: Real::zero(), z: Real::zero() }
    }

    /// Whether every component compares equal to zero.
    pub open spec fn is_origin(&self) -> bool {
        self.x.equals(ZERO_BITS) && self.y.equals(ZERO_BITS) && self.z.equals(ZERO_BITS)
    }

    /// Whether the translation equals the default and is left out.
    #[verifier::when_used_as_spec(is_origin)]
    pub fn is_default(&self) -> (r: bool)
        ensures
            r == self.is_origin(),
    {
        self.x.is(ZERO_BITS) && self.y.is(ZERO_BITS) && self.z.is(ZERO_BITS)
    }
}

/// Two translations are equal when their components compare equal as floats.
impl PartialEq for Translation {
    fn eq(&self, other: &Self) -> (r: bool) {
        self.x == other.x && self.y == other.y && self.z == other.z
    }
}

impl vstd::std_specs::cmp::PartialEqSpecImpl for Translation {
    open spec fn obeys_eq_spec() -> bool {
        true
    }

    open spec fn eq_spec(&self, other: &Self) -> bool {
        &&& same_number(self.x@, other.x@)
        &&& same_number(self.y@, other.y@)
        &&& same_number(self.z@, other.z@)
    }
}

/// A translation is left out exactly when it is equal to the default one.
pub proof fn law_default_translation(value: Translation, default: Translation)
    requires
        default@ == (ZERO_BITS, ZERO_BITS, ZERO_BITS),
    ensures
        value.is_origin() <==> value.eq_spec(&default),
{
}

impl ToJson for Translation {
    open spec fn json(&self) -> Json {
        Json::Array(seq![Json::Real(self.x@), Json::Real(self.y@), Json::Real(self.z@)])
    }

    fn to_value(&self) -> (v: serde_json::Value) {
        triple_value(&self.x, &self.y, &self.z)
    }
}

/// A rotation, as a quaternion. The default is the identity `(0, 0, 0, 1)`.
#[derive(Clone)]
pub struct Rotation {
    pub x: Real,
    pub y: Real,
    pub z: Real,
    pub w: Real,
}

/// A rotation is seen as the bit patterns of its components.
impl View for Rotation {
    type V = (u64, u64, u64, u64);

    open spec fn view(&self) -> (u64, u64, u64, u64) {
        (self.x@, self.y@, self.z@, self.w@)
    }
}

impl Rotation {
    /// The identity.
    pub fn new() -> (r: Self)
        ensures
            r@ == (ZERO_BITS, ZERO_BITS, ZERO_BITS, ONE_BITS),
    {
        Self { x: Real::zero(), y: Real::zero(), z: Real::zero(), w: Real::one() }
    }

    /// Whether the components compare equal to those of the identity.
    pub open spec fn is_identity(&self) -> bool {
        self.x.equals(ZERO_BITS) && self.y.equals(ZERO_BITS) && self.z.equals(ZERO_BITS)
            && self.w.equals(ONE_BITS)
    }

    /// Whether the rotation equals the default and is left out.
    #[verifier::when_used_as_spec(is_identity)]
    pub fn is_default(&self) -> (r: bool)
        ensures
            r == self.is_identity(),
    {
        self.x.is(ZERO_BITS) && self.y.is(ZERO_BITS) && self.z.is(ZERO_BITS) && self.w.is(
            ONE_BITS,
        )
    }
}

/// Two rotations are equal when their components compare equal as floats.
impl PartialEq for Rotation {
    fn eq(&self, other: &Self) -> (r: bool) {
        self.x == other.x && self.y == other.y && self.z == other.z && self.w == other.w
    }
}

impl vstd::std_specs::cmp::PartialEqSpecImpl for Rotation {
    open spec fn obeys_eq_spec() -> bool {
        true
    }

    open spec fn eq_spec(&self, other: &Self) -> bool {
        &&& same_number(self.x@, other.x@)
        &&& same_number(self.y@, other.y@)
        &&& same_number(self.z@, other.z@)
        &&& same_number(self.w@, other.w@)
    }
}

/// A rotation is left out exactly when it is equal to the default one.
pub proof fn law_default_rotation(value: Rotation, default: Rotation)
    requires
        default@ == (ZERO_BITS, ZERO_BITS, ZERO_BITS, ONE_BITS),
    ensures
        value.is_identity() <==> value.eq_spec(&default),
{
}

impl ToJson for Rotation {
    open spec fn json(&self) -> Json {
        Json::Array(
            seq![
                Json::Real(self.x@),
                Json::Real(self.y@),
                Json::Real(self.z@),
                Json::Real(self.w@),
            ],
        )
    }

    fn to_value(&self) -> (v: serde_json::Value) {
        quadruple_value(&self.x, &self.y, &self.z, &self.w)
    }
}

/// A scale. The default is `(1, 1, 1)`.
#[derive(Clone)]
pub struct Scale {
    pub x: Real,
    pub y: Real,
    pub z: Real,
}

/// A scale is seen as the bit patterns of its components.
impl View for Scale {
    type V = (u64, u64, u64);

    open spec fn view(&self) -> (u64, u64, u64) {
        (self.x@, self.y@, self.z@)
    }
}

impl Scale {
    /// The scale that changes nothing.
    pub fn new() -> (r: Self)
        ensures
            r@ == (ONE_BITS, ONE_BITS, ONE_BITS),
    {
        Self { x: Real::one(), y: Real::one(), z: Real::one() }
    }

    /// Whether every component compares equal to one.
    pub open spec fn is_unit(&self) -> bool {
        self.x.equals(ONE_BITS) && self.y.equals(ONE_BITS) && self.z.equals(ONE_BITS)
    }

    /// Whether the scale equals the default and is left out.
    #[verifier::when_used_as_spec(is_unit)]
    pub fn is_default(&self) -> (r: bool)
        ensures
            r == self.is_unit(),
    {
        self.x.is(ONE_BITS) && self.y.is(ONE_BITS) && self.z.is(ONE_BITS)
    }
}

/// Two scales are equal when their components compare equal as floats.
impl PartialEq for Scale {
    fn eq(&self, other: &Self) -> (r: bool) {
        self.x == other.x && self.y == other.y && self.z == other.z
    }
}

impl vstd::std_specs::cmp::PartialEqSpecImpl for Scale {
    open spec fn obeys_eq_spec() -> bool {
        true
    }

    open spec fn eq_spec(&self, other: &Self) -> bool {
        &&& same_number(self.x@, other.x@)
        &&& same_number(self.y@, other.y@)
        &&& same_number(self.z@, other.z@)
    }
}

/// A scale is left out exactly when it is equal to the default one.
pub proof fn law_default_scale(value: Scale, default: Scale)
    requires
        default@ == (ONE_BITS, ONE_BITS, ONE_BITS),
    ensures
        value.is_unit() <==> value.eq_spec(&default),
{
}

impl ToJson for Scale {
    open spec fn json(&self) -> Json {
        Json::Array(seq![Json::Real(self.x@), Json::Real(self.y@), Json::Real(self.z@)])
    }

    fn to_value(&self) -> (v: serde_json::Value) {
        triple_value(&self.x, &self.y, &self.z)
    }
}

/// A node of the scene graph.
#[derive(Clone)]
pub struct Node {
    pub name: String,
    pub mesh: Option<u32>,
    pub t: Translation,
    pub r: Rotation,
    pub s: Scale,
    pub children: Vec<u32>,
}

impl Node {
    /// A node without name, mesh and children, with the default transform.
    pub fn new() -> (r: Self)
        ensures
            r.name@.len() == 0,
            r.mesh is None,
            r.t@ == (ZERO_BITS, ZERO_BITS, ZERO_BITS),
            r.r@ == (ZERO_BITS, ZERO_BITS, ZERO_BITS, ONE_BITS),
            r.s@ == (ONE_BITS, ONE_BITS, ONE_BITS),
            r.children@.len() == 0,
    {
        Self {
            name: String::new(),
            mesh: None,
            t: Translation::new(),
            r: Rotation::new(),
            s: Scale::new(),
            children: Vec::new(),
        }
    }

    /// The entries of the JSON object: each part of the transform is left
    /// out when it equals its default.
    pub open spec fn entries(&self) -> Seq<Entry> {
        let e = Seq::<Entry>::empty();
        let e = with_text(e, "name"@, self.name@);
        let e = with_index(e, "mesh"@, self.mesh);
        let e = with_field(e, !self.t.is_default(), "translation"@, self.t.json());
        let e = with_field(e, !self.r.is_default(), "rotation"@, self.r.json());
        let e = with_field(e, !self.s.is_default(), "scale"@, self.s.json());
        let e = with_list(e, "children"@, self.children@);
        e
    }
}

proof fn lemma_node_keys()
    ensures
        mark("name"@) == (4nat, 'n', 'e'),
        mark("mesh"@) == (4nat, 'm', 'h'),
        mark("translation"@) == (11nat, 't', 'n'),
        mark("rotation"@) == (8nat, 'r', 'n'),
        mark("scale"@) == (5nat, 's', 'e'),
        mark("children"@) == (8nat, 'c', 'n'),
{
    reveal_strlit("name");
    reveal_strlit("mesh");
    reveal_strlit("translation");
    reveal_strlit("rotation");
    reveal_strlit("scale");
    reveal_strlit("children");
}

/// The keys of a node's object are those of the name, the mesh and the
/// children that are there and of the parts of the transform that differ from
/// their default, each once.
pub proof fn law_node_keys(node: Node, key: Seq<char>)
    ensures
        has_key(node.entries(), key) <==> {
            ||| key == "name"@ && node.name@.len() > 0
            ||| key == "mesh"@ && node.mesh is Some
            ||| key == "translation"@ && !node.t.is_default()
            ||| key == "rotation"@ && !node.r.is_default()
            ||| key == "scale"@ && !node.s.is_default()
            ||| key == "children"@ && node.children@.len() > 0
        },
        distinct_keys(node.entries()),
{
    lemma_fields();
    lemma_node_keys();
}

/// A node without name, mesh and children whose transform equals the
/// default is written as the empty object.
pub proof fn law_plain_node_is_empty(node: Node)
    requires
        node.name@.len() == 0,
        node.mesh is None,
        node.t.is_default(),
        node.r.is_default(),
        node.s.is_default(),
        node.children@.len() == 0,
    ensures
        node.json() == Json::Object(Seq::empty()),
{
}

/// A node of which only the translation differs from the default is written
/// with the one key `translation`, which holds the three components in order.
pub proof fn law_moved_node(node: Node)
    requires
        node.name@.len() == 0,
        node.mesh is None,
        !node.t.is_default(),
        node.r.is_default(),
        node.s.is_default(),
        node.children@.len() == 0,
    ensures
        node.json() == Json::Object(
            seq![
                (
                    "translation"@,
                    Json::Array(
                        seq![Json::Real(node.t.x@), Json::Real(node.t.y@), Json::Real(node.t.z@)],
                    ),
                ),
            ],
        ),
{
    assert(node.entries() =~= seq![("translation"@, node.t.json())]);
}

impl ToJson for Node {
    open spec fn json(&self) -> Json {
        Json::Object(self.entries())
    }

    fn to_value(&self) -> (v: serde_json::Value) {
        proof {
            lemma_node_keys();
        }
        let mut m = map_new();
        put_text(&mut m, "name", &self.name);
        put_index(&mut m, "mesh", self.mesh);
        if !self.t.is_default() {
            put(&mut m, "translation", self.t.to_value());
        }
        if !self.r.is_default() {
            put(&mut m, "rotation", self.r.to_value());
        }
        if !self.s.is_default() {
            put(&mut m, "scale", self.s.to_value());
        }
        put_list(&mut m, "children", &self.children);
        object_value(m)
    }
}

} // verus!
