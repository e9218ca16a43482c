//! Accessors: typed views into buffer views.

use crate::encode::{
    distinct_keys, lemma_fields, mark, put, put_index, put_list, put_text, with_field, with_index,
    with_list, with_text, ToJson,
};
use crate::json::{
    bool_value, has_key, integer_value, map_new, object_value, text_value, Entry, Json,
};
use crate::number::Real;
use vstd::prelude::*;

verus! {

/// The type of the components of an accessor's elements. Written as its
/// number in the format.
#[derive(Clone, Copy, PartialEq, Eq, Structural)]
pub enum ComponentType {
    Byte,
    UnsignedByte,
    Short,
    UnsignedShort,
    UnsignedInt,
    Float,
}

impl ComponentType {
    /// The number of the component type in the format.
    pub open spec fn number(&self) -> u16 {
        match self {
            ComponentType::Byte => 5120,
            ComponentType::UnsignedByte => 5121,
            ComponentType::Short => 5122,
            ComponentType::UnsignedShort => 5123,
            ComponentType::UnsignedInt => 5125,
            ComponentType::Float => 5126,
        }
    }

    /// The number of the component type in the format.
    #[verifier::when_used_as_spec(number)]
    pub fn code(&self) -> (r: u16)
        ensures
            r == self.number(),
    {
        match self {
            ComponentType::Byte => 5120,
            ComponentType::UnsignedByte => 5121,
            ComponentType::Short => 5122,
            ComponentType::UnsignedShort => 5123,
            ComponentType::UnsignedInt => 5125,
            ComponentType::Float => 5126,
        }
    }
}

impl ToJson for ComponentType {
    open spec fn json(&self) -> Json {
        Json::Integer(self.code() as int)
    }

    fn to_value(&self) -> (v: serde_json::Value) {
        integer_value(self.code() as u32)
    }
}

/// The shape of an accessor's elements. Written as its name.
#[derive(Clone, Copy, PartialEq, Eq, Structural)]
pub enum Type {
    SCALAR,
    VEC2,
    VEC3,
    VEC4,
    MAT2,
    MAT3,
    MAT4,
}

impl Type {
    /// The name of the shape in the format.
    pub open spec fn tag_text(&self) -> Seq<char> {
        match self {
            Type::SCALAR => "SCALAR"@,
            Type::VEC2 => "VEC2"@,
            Type::VEC3 => "VEC3"@,
            Type::VEC4 => "VEC4"@,
            Type::MAT2 => "MAT2"@,
            Type::MAT3 => "MAT3"@,
            Type::MAT4 => "MAT4"@,
        }
    }

    /// The name of the shape in the format.
    pub fn tag(&self) -> (r: &'static str)
        ensures
            r@ == self.tag_text(),
    {
        match self {
            Type::SCALAR => "SCALAR",
            Type::VEC2 => "VEC2",
            Type::VEC3 => "VEC3",
            Type::VEC4 => "VEC4",
            Type::MAT2 => "MAT2",
            Type::MAT3 => "MAT3",
            Type::MAT4 => "MAT4",
        }
    }
}

impl ToJson for Type {
    open spec fn json(&self) -> Json {
        Json::Text(self.tag_text())
    }

    fn to_value(&self) -> (v: serde_json::Value) {
        text_value(self.tag())
    }
}

/// Whether a byte offset of an accessor is the default, zero.
pub fn is_default_byte_offset(value: &u32) -> (r: bool)
    ensures
        r == (*value == 0),
{
    *value == 0
}

/// Whether the normalized flag has its default, off.
pub fn is_default_normalized(value: &bool) -> (r: bool)
    ensures
        r == !*value,
{
    *value == false
}

/// An accessor.
#[derive(Clone)]
pub struct Accessor {
    pub name: String,
    pub buffer_view: Option<u32>,
    pub byte_offset: u32,
    pub component_type: ComponentType,
    pub normalized: bool,
    pub count: u32,
    pub type_: Type,
    pub max: Vec<Real>,
    pub min: Vec<Real>,
}

impl Accessor {
    /// An accessor of no scalar bytes, without name, buffer view and bounds.
    pub fn new() -> (r: Self)
        ensures
            r.name@.len() == 0,
            r.buffer_view is None,
            r.byte_offset == 0,
            r.component_type == ComponentType::Byte,
            !r.normalized,
            r.count == 0,
            r.type_ == Type::SCALAR,
            r.max@.len() == 0,
            r.min@.len() == 0,
    {
        Self {
            name: String::new(),
            buffer_view: None,
            byte_offset: 0,
            component_type: ComponentType::Byte,
            normalized: false,
            count: 0,
            type_: Type::SCALAR,
            min: Vec::new(),
            max: Vec::new(),
        }
    }

    /// The entries of the JSON object. Component type, count and shape are
    /// always written; the byte offset is left out when it is zero.
    pub open spec fn entries(&self) -> Seq<Entry> {
        let e = Seq::<Entry>::empty();
        let e = with_text(e, "name"@, self.name@);
        let e = with_index(e, "bufferView"@, self.buffer_view);
        let e = with_field(e, self.byte_offset != 0, "byteOffset"@, self.byte_offset.json());
        let e = with_field(e, true, "componentType"@, self.component_type.json());
        let e = with_field(e, self.normalized, "normalized"@, Json::Bool(self.normalized));
        let e = with_field(e, true, "count"@, self.count.json());
        let e = with_field(e, true, "type"@, self.type_.json());
        let e = with_list(e, "max"@, self.max@);
        let e = with_list(e, "min"@, self.min@);
        e
    }
}

proof fn lemma_accessor_keys()
    ensures
        mark("name"@) == (4nat, 'n', 'e'),
        mark("bufferView"@) == (10nat, 'b', 'w'),
        mark("byteOffset"@) == (10nat, 'b', 't'),
        mark("componentType"@) == (13nat, 'c', 'e'),
        mark("normalized"@) == (10nat, 'n', 'd'),
        mark("count"@) == (5nat, 'c', 't'),
        mark("type"@) == (4nat, 't', 'e'),
        mark("max"@) == (3nat, 'm', 'x'),
        mark("min"@) == (3nat, 'm', 'n'),
{
    reveal_strlit("name");
    reveal_strlit("bufferView");
    reveal_strlit("byteOffset");
    reveal_strlit("componentType");
    reveal_strlit("normalized");
    reveal_strlit("count");
    reveal_strlit("type");
    reveal_strlit("max");
    reveal_strlit("min");
}

/// The keys of an accessor's object are `componentType`, `count` and `type`
/// and those of the fields that differ from their default, each once. The
/// byte offset is among them only when it is not zero.
pub proof fn law_accessor_keys(accessor: Accessor, key: Seq<char>)
    ensures
        has_key(accessor.entries(), key) <==> {
            ||| key == "name"@ && accessor.name@.len() > 0
            ||| key == "bufferView"@ && accessor.buffer_view is Some
            ||| key == "byteOffset"@ && accessor.byte_offset != 0
            ||| key == "componentType"@
            ||| key == "normalized"@ && accessor.normalized
            ||| key == "count"@
            ||| key == "type"@
            ||| key == "max"@ && accessor.max@.len() > 0
            ||| key == "min"@ && accessor.min@.len() > 0
        },
        distinct_keys(accessor.entries()),
{
    lemma_fields();
    lemma_accessor_keys();
}

/// The byte offset of an accessor is left out at zero and written otherwise.
pub proof fn law_accessor_offset_is_left_out_at_zero(accessor: Accessor)
    ensures
        has_key(accessor.entries(), "byteOffset"@) <==> accessor.byte_offset != 0,
{
    law_accessor_keys(accessor, "byteOffset"@);
    lemma_accessor_keys();
}

impl ToJson for Accessor {
    open spec fn json(&self) -> Json {
        Json::Object(self.entries())
    }

    fn to_value(&self) -> (v: serde_json::Value) {
        proof {
            lemma_accessor_keys();
        }
        let mut m = map_new();
        put_text(&mut m, "name", &self.name);
        put_index(&mut m, "bufferView", self.buffer_view);
        if !is_default_byte_offset(&self.byte_offset) {
            put(&mut m, "byteOffset", self.byte_offset.to_value());
        }
        put(&mut m, "componentType", self.component_type.to_value());
        if !is_default_normalized(&self.normalized) {
            put(&mut m, "normalized", bool_value(self.normalized));
        }
        put(&mut m, "count", self.count.to_value());
        put(&mut m, "type", self.type_.to_value());
        put_list(&mut m, "max", &self.max);
        put_list(&mut m, "min", &self.min);
        object_value(m)
    }
}

} // verus!
