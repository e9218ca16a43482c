//! Materials.

use crate::encode::{
    distinct_keys, lemma_fields, mark, put, put_text, with_field, with_text, ToJson,
};
use crate::json::{bool_value, has_key, map_new, object_value, text_value, Entry, Json};
use crate::node::{quadruple_value, triple_value};
use crate::number::{same_number, Real, HALF_BITS, ONE_BITS, ZERO_BITS};
use vstd::prelude::*;
use vstd::std_specs::cmp::PartialEqSpec;

verus! {

/// How the alpha value of a material is read. Written as its name.
#[derive(Clone, Copy, PartialEq, Eq, Structural)]
pub enum AlphaMode {
    OPAQUE,
    MASK,
    BLEND,
}

impl AlphaMode {
    /// The name of the mode in the format.
    pub open spec fn tag_text(&self) -> Seq<char> {
        match self {
            AlphaMode::OPAQUE => "OPAQUE"@,
            AlphaMode::MASK => "MASK"@,
            AlphaMode::BLEND => "BLEND"@,
        }
    }

    /// The name of the mode in the format.
    pub fn tag(&self) -> (r: &'static str)
        ensures
            r@ == self.tag_text(),
    {
        match self {
            AlphaMode::OPAQUE => "OPAQUE",
            AlphaMode::MASK => "MASK",
            AlphaMode::BLEND => "BLEND",
        }
    }
}

impl ToJson for AlphaMode {
    open spec fn json(&self) -> Json {
        Json::Text(self.tag_text())
    }

    fn to_value(&self) -> (v: serde_json::Value) {
        text_value(self.tag())
    }
}

/// A colour with alpha. The default is opaque white, `(1, 1, 1, 1)`.
#[derive(Clone)]
pub struct Color4 {
    pub r: Real,
    pub g: Real,
    pub b: Real,
    pub a: Real,
}

/// A colour is seen as the bit patterns of its components.
impl View for Color4 {
    type V = (u64, u64, u64, u64);

    open spec fn view(&self) -> (u64, u64, u64, u64) {
        (self.r@, self.g@, self.b@, self.a@)
    }
}

impl Color4 {
    /// Opaque white.
    pub fn new() -> (r: Self)
        ensures
            r@ == (ONE_BITS, ONE_BITS, ONE_BITS, ONE_BITS),
    {
        Self { r: Real::one(), g: Real::one(), b: Real::one(), a: Real::one() }
    }

    /// Whether every component compares equal to one.
    pub open spec fn is_white(&self) -> bool {
        self.r.equals(ONE_BITS) && self.g.equals(ONE_BITS) && self.b.equals(ONE_BITS)
            && self.a.equals(ONE_BITS)
    }

    /// Whether the colour equals the default and is left out.
    #[verifier::when_used_as_spec(is_white)]
    pub fn is_default(&self) -> (r: bool)
        ensures
            r == self.is_white(),
    {
        self.r.is(ONE_BITS) && self.g.is(ONE_BITS) && self.b.is(ONE_BITS) && self.a.is(ONE_BITS)
    }
}

/// Two colours are equal when their components compare equal as floats.
impl PartialEq for Color4 {
    fn eq(&self, other: &Self) -> (r: bool) {
        self.r == other.r && self.g == other.g && self.b == other.b && self.a == other.a
    }
}

impl vstd::std_specs::cmp::PartialEqSpecImpl for Color4 {
    open spec fn obeys_eq_spec() -> bool {
        true
    }

    open spec fn eq_spec(&self, other: &Self) -> bool {
        &&& same_number(self.r@, other.r@)
        &&& same_number(self.g@, other.g@)
        &&& same_number(self.b@, other.b@)
        &&& same_number(self.a@, other.a@)
    }
}

/// A colour is left out exactly when it is equal to the default one.
pub proof fn law_default_color(value: Color4, default: Color4)
    requires
        default@ == (ONE_BITS, ONE_BITS, ONE_BITS, ONE_BITS),
    ensures
        value.is_white() <==> value.eq_spec(&default),
{
}

impl ToJson for Color4 {
    open spec fn json(&self) -> Json {
        Json::Array(
            seq![
                Json::Real(self.r@),
                Json::Real(self.g@),
                Json::Real(self.b@),
                Json::Real(self.a@),
            ],
        )
    }

    fn to_value(&self) -> (v: serde_json::Value) {
        quadruple_value(&self.r, &self.g, &self.b, &self.a)
    }
}

/// Whether a metallic factor equals the default, one.
pub fn is_default_metallic_factor(value: &Real) -> (r: bool)
    ensures
        r == value.equals(ONE_BITS),
{
    value.is(ONE_BITS)
}

/// Whether a roughness factor equals the default, one.
pub fn is_default_roughness_factor(value: &Real) -> (r: bool)
    ensures
        r == value.equals(ONE_BITS),
{
    value.is(ONE_BITS)
}

/// Whether every component of an emissive factor compares equal to zero.
pub open spec fn is_dark(value: &[Real; 3]) -> bool {
    value@[0].equals(ZERO_BITS) && value@[1].equals(ZERO_BITS) && value@[2].equals(ZERO_BITS)
}

/// Whether an emissive factor equals the default, no light.
#[verifier::when_used_as_spec(is_dark)]
pub fn is_default_emissive_factor(value: &[Real; 3]) -> (r: bool)
    ensures
        r == is_dark(value),
{
    value[0].is(ZERO_BITS) && value[1].is(ZERO_BITS) && value[2].is(ZERO_BITS)
}

/// Whether an alpha mode is the default, opaque.
pub fn is_default_alpha_mode(value: &AlphaMode) -> (r: bool)
    ensures
        r == (*value == AlphaMode::OPAQUE),
{
    *value == AlphaMode::OPAQUE
}

/// Whether an alpha cutoff equals the default, one half.
pub fn is_default_alpha_cutoff(value: &Real) -> (r: bool)
    ensures
        r == value.equals(HALF_BITS),
{
    value.is(HALF_BITS)
}

/// Whether the double-sided flag has its default, off.
pub fn is_default_double_sided(value: &bool) -> (r: bool)
    ensures
        r == !*value,
{
    *value == false
}

/// The metallic-roughness parameters of a material.
#[derive(Clone)]
pub struct PBRMetallicRoughness {
    pub base_color_factor: Color4,
    pub metallic_factor: Real,
    pub roughness_factor: Real,
}

impl PBRMetallicRoughness {
    /// The default parameters: white, fully metallic, fully rough.
    pub fn new() -> (r: Self)
        ensures
            r.base_color_factor@ == (ONE_BITS, ONE_BITS, ONE_BITS, ONE_BITS),
            r.metallic_factor@ == ONE_BITS,
            r.roughness_factor@ == ONE_BITS,
    {
        Self {
            base_color_factor: Color4::new(),
            metallic_factor: Real::one(),
            roughness_factor: Real::one(),
        }
    }

    /// The entries of the JSON object: each parameter is left out when it
    /// equals its default.
    pub open spec fn entries(&self) -> Seq<Entry> {
        let e = Seq::<Entry>::empty();
        let e = with_field(
            e,
            !self.base_color_factor.is_default(),
            "baseColorFactor"@,
            self.base_color_factor.json(),
        );
        let e = with_field(
            e,
            !self.metallic_factor.equals(ONE_BITS),
            "metallicFactor"@,
            self.metallic_factor.json(),
        );
        let e = with_field(
            e,
            !self.roughness_factor.equals(ONE_BITS),
            "roughnessFactor"@,
            self.roughness_factor.json(),
        );
        e
    }
}

proof fn lemma_pbr_keys()
    ensures
        mark("baseColorFactor"@) == (15nat, 'b', 'r'),
        mark("metallicFactor"@) == (14nat, 'm', 'r'),
        mark("roughnessFactor"@) == (15nat, 'r', 'r'),
{
    reveal_strlit("baseColorFactor");
    reveal_strlit("metallicFactor");
    reveal_strlit("roughnessFactor");
}

/// The keys of the metallic-roughness object are those of the parameters
/// that differ from their default, each once.
pub proof fn law_pbr_keys(pbr: PBRMetallicRoughness, key: Seq<char>)
    ensures
        has_key(pbr.entries(), key) <==> {
            ||| key == "baseColorFactor"@ && !pbr.base_color_factor.is_default()
            ||| key == "metallicFactor"@ && !pbr.metallic_factor.equals(ONE_BITS)
            ||| key == "roughnessFactor"@ && !pbr.roughness_factor.equals(ONE_BITS)
        },
        distinct_keys(pbr.entries()),
{
    lemma_fields();
    lemma_pbr_keys();
}

impl ToJson for PBRMetallicRoughness {
    open spec fn json(&self) -> Json {
        Json::Object(self.entries())
    }

    fn to_value(&self) -> (v: serde_json::Value) {
        proof {
            lemma_pbr_keys();
        }
        let mut m = map_new();
        if !self.base_color_factor.is_default() {
            put(&mut m, "baseColorFactor", self.base_color_factor.to_value());
        }
        if !is_default_metallic_factor(&self.metallic_factor) {
            put(&mut m, "metallicFactor", self.metallic_factor.to_value());
        }
        if !is_default_roughness_factor(&self.roughness_factor) {
            put(&mut m, "roughnessFactor", self.roughness_factor.to_value());
        }
        object_value(m)
    }
}

/// A material.
#[derive(Clone)]
pub struct Material {
    pub name: String,
    pub emissive_factor: [Real; 3],
    pub alpha_mode: AlphaMode,
    pub alpha_cutoff: Real,
    pub double_sided: bool,
    pub pbr_metallic_roughness: PBRMetallicRoughness,
}

impl Material {
    /// A material without a name, with every parameter at its default.
    pub fn new() -> (r: Self)
        ensures
            r.name@.len() == 0,
            r.emissive_factor@[0]@ == ZERO_BITS,
            r.emissive_factor@[1]@ == ZERO_BITS,
            r.emissive_factor@[2]@ == ZERO_BITS,
            r.alpha_mode == AlphaMode::OPAQUE,
            r.alpha_cutoff@ == HALF_BITS,
            !r.double_sided,
            r.pbr_metallic_roughness.base_color_factor@ == (ONE_BITS, ONE_BITS, ONE_BITS, ONE_BITS),
            r.pbr_metallic_roughness.metallic_factor@ == ONE_BITS,
            r.pbr_metallic_roughness.roughness_factor@ == ONE_BITS,
    {
        Self {
            name: String::new(),
            emissive_factor: [Real::zero(), Real::zero(), Real::zero()],
            alpha_mode: AlphaMode::OPAQUE,
            alpha_cutoff: Real::half(),
            double_sided: false,
            pbr_metallic_roughness: PBRMetallicRoughness::new(),
        }
    }

    /// The JSON array of the emissive factor.
    pub open spec fn emissive_json(&self) -> Json {
        Json::Array(
            seq![
                Json::Real(self.emissive_factor@[0]@),
                Json::Real(self.emissive_factor@[1]@),
                Json::Real(self.emissive_factor@[2]@),
            ],
        )
    }

    /// The entries of the JSON object. The metallic-roughness block is
    /// always written; every other field is left out at its default.
    pub open spec fn entries(&self) -> Seq<Entry> {
        let e = Seq::<Entry>::empty();
        let e = with_text(e, "name"@, self.name@);
        let e = with_field(
            e,
            !is_dark(&self.emissive_factor),
            "emissiveFactor"@,
            self.emissive_json(),
        );
        let e = with_field(
            e,
            self.alpha_mode != AlphaMode::OPAQUE,
            "alphaMode"@,
            self.alpha_mode.json(),
        );
        let e = with_field(
            e,
            !self.alpha_cutoff.equals(HALF_BITS),
            "alphaCutoff"@,
            self.alpha_cutoff.json(),
        );
        let e = with_field(e, self.double_sided, "doubleSided"@, Json::Bool(self.double_sided));
        let e = with_field(e, true, "pbrMetallicRoughness"@, self.pbr_metallic_roughness.json());
        e
    }
}

proof fn lemma_material_keys()
    ensures
        mark("name"@) == (4nat, 'n', 'e'),
        mark("emissiveFactor"@) == (14nat, 'e', 'r'),
        mark("alphaMode"@) == (9nat, 'a', 'e'),
        mark("alphaCutoff"@) == (11nat, 'a', 'f'),
        mark("doubleSided"@) == (11nat, 'd', 'd'),
        mark("pbrMetallicRoughness"@) == (20nat, 'p', 's'),
{
    reveal_strlit("name");
    reveal_strlit("emissiveFactor");
    reveal_strlit("alphaMode");
    reveal_strlit("alphaCutoff");
    reveal_strlit("doubleSided");
    reveal_strlit("pbrMetallicRoughness");
}

/// The keys of a material's object are `pbrMetallicRoughness` and those of
/// the fields that differ from their default, each once.
pub proof fn law_material_keys(material: Material, key: Seq<char>)
    ensures
        has_key(material.entries(), key) <==> {
            ||| key == "name"@ && material.name@.len() > 0
            ||| key == "emissiveFactor"@ && !is_dark(&material.emissive_factor)
            ||| key == "alphaMode"@ && material.alpha_mode != AlphaMode::OPAQUE
            ||| key == "alphaCutoff"@ && !material.alpha_cutoff.equals(HALF_BITS)
            ||| key == "doubleSided"@ && material.double_sided
            ||| key == "pbrMetallicRoughness"@
        },
        distinct_keys(material.entries()),
{
    lemma_fields();
    lemma_material_keys();
}

impl ToJson for Material {
    open spec fn json(&self) -> Json {
        Json::Object(self.entries())
    }

    fn to_value(&self) -> (v: serde_json::Value) {
        proof {
            lemma_material_keys();
        }
        let mut m = map_new();
        put_text(&mut m, "name", &self.name);
        if !is_default_emissive_factor(&self.emissive_factor) {
            let emissive = triple_value(
                &self.emissive_factor[0],
                &self.emissive_factor[1],
                &self.emissive_factor[2],
            );
            put(&mut m, "emissiveFactor", emissive);
        }
        if !is_default_alpha_mode(&self.alpha_mode) {
            put(&mut m, "alphaMode", self.alpha_mode.to_value());
        }
        if !is_default_alpha_cutoff(&self.alpha_cutoff) {
            put(&mut m, "alphaCutoff", self.alpha_cutoff.to_value());
        }
        if !is_default_double_sided(&self.double_sided) {
            put(&mut m, "doubleSided", bool_value(self.double_sided));
        }
        put(&mut m, "pbrMetallicRoughness", self.pbr_metallic_roughness.to_value());
        object_value(m)
    }
}

} // verus!
