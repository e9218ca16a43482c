//! Buffers and the views into them.

use crate::encode::{
    distinct_keys, has_entry, lemma_fields, lemma_with_field_entry, mark, put, put_index, put_text,
    with_field, with_index, with_text, ToJson,
};
use crate::json::{has_key, integer_value, map_new, object_value, Entry, Json};
use vstd::prelude::*;

verus! {

/// What a buffer view is meant for. Written as its number in the format.
#[derive(Clone, Copy, PartialEq, Eq, Structural)]
pub enum Target {
    ArrayBuffer,
    ElementArrayBuffer,
}

impl Target {
    /// The number of the target in the format.
    pub open spec fn number(&self) -> u16 {
        match self {
            Target::ArrayBuffer => 34962,
            Target::ElementArrayBuffer => 34963,
        }
    }

    /// The number of the target in the format.
    #[verifier::when_used_as_spec(number)]
    pub fn code(&self) -> (r: u16)
        ensures
            r == self.number(),
    {
        match self {
            Target::ArrayBuffer => 34962,
            Target::ElementArrayBuffer => 34963,
        }
    }
}

impl ToJson for Target {
    open spec fn json(&self) -> Json {
        Json::Integer(self.code() as int)
    }

    fn to_value(&self) -> (v: serde_json::Value) {
        integer_value(self.code() as u32)
    }
}

/// A view into a buffer.
#[derive(Clone)]
pub struct BufferView {
    pub name: String,
    pub buffer: u32,
    pub byte_length: u32,
    pub byte_offset: u32,
    pub byte_stride: Option<u32>,
    pub target: Option<Target>,
}

impl BufferView {
    /// An empty view at the start of buffer 0, without name, stride and
    /// target.
    pub fn new() -> (r: Self)
        ensures
            r.name@.len() == 0,
            r.buffer == 0,
            r.byte_length == 0,
            r.byte_offset == 0,
            r.byte_stride is None,
            r.target is None,
    {
        Self {
            name: String::new(),
            buffer: 0,
            byte_length: 0,
            byte_offset: 0,
            byte_stride: None,
            target: None,
        }
    }

    /// The entries of the JSON object. Buffer, byte length and byte offset
    /// are always written, the byte offset also when it is zero.
    pub open spec fn entries(&self) -> Seq<Entry> {
        let e = Seq::<Entry>::empty();
        let e = with_text(e, "name"@, self.name@);
        let e = with_field(e, true, "buffer"@, self.buffer.json());
        let e = with_field(e, true, "byteLength"@, self.byte_length.json());
        let e = with_field(e, true, "byteOffset"@, self.byte_offset.json());
        let e = with_index(e, "byteStride"@, self.byte_stride);
        let e = with_field(e, self.target is Some, "target"@, self.target.unwrap().json());
        e
    }
}

proof fn lemma_view_keys()
    ensures
        mark("name"@) == (4nat, 'n', 'e'),
        mark("buffer"@) == (6nat, 'b', 'r'),
        mark("byteLength"@) == (10nat, 'b', 'h'),
        mark("byteOffset"@) == (10nat, 'b', 't'),
        mark("byteStride"@) == (10nat, 'b', 'e'),
        mark("target"@) == (6nat, 't', 't'),
{
    reveal_strlit("name");
    reveal_strlit("buffer");
    reveal_strlit("byteLength");
    reveal_strlit("byteOffset");
    reveal_strlit("byteStride");
    reveal_strlit("target");
}

/// The keys of a buffer view's object are `buffer`, `byteLength` and
/// `byteOffset`, the last also when the offset is zero, and those of the name,
/// the stride and the target that are there, each once.
pub proof fn law_view_keys(view: BufferView, key: Seq<char>)
    ensures
        has_key(view.entries(), key) <==> {
            ||| key == "name"@ && view.name@.len() > 0
            ||| key == "buffer"@
            ||| key == "byteLength"@
            ||| key == "byteOffset"@
            ||| key == "byteStride"@ && view.byte_stride is Some
            ||| key == "target"@ && view.target is Some
        },
        distinct_keys(view.entries()),
{
    lemma_fields();
    lemma_view_keys();
}

/// The byte offset of a buffer view is written whatever it is, also at zero.
pub proof fn law_view_offset_is_always_written(view: BufferView)
    ensures
        has_entry(view.entries(), "byteOffset"@, Json::Integer(view.byte_offset as int)),
{
    let e = Seq::<Entry>::empty();
    let e = with_text(e, "name"@, view.name@);
    let e = with_field(e, true, "buffer"@, view.buffer.json());
    let e = with_field(e, true, "byteLength"@, view.byte_length.json());
    let offset = Json::Integer(view.byte_offset as int);
    lemma_with_field_entry(e, true, "byteOffset"@, offset, "byteOffset"@, offset);
    let e = with_field(e, true, "byteOffset"@, offset);
    lemma_with_field_entry(
        e,
        view.byte_stride is Some,
        "byteStride"@,
        Json::Integer(view.byte_stride.unwrap() as int),
        "byteOffset"@,
        offset,
    );
    let e = with_index(e, "byteStride"@, view.byte_stride);
    lemma_with_field_entry(
        e,
        view.target is Some,
        "target"@,
        view.target.unwrap().json(),
        "byteOffset"@,
        offset,
    );
}

impl ToJson for BufferView {
    open spec fn json(&self) -> Json {
        Json::Object(self.entries())
    }

    fn to_value(&self) -> (v: serde_json::Value) {
        proof {
            lemma_view_keys();
        }
        let mut m = map_new();
        put_text(&mut m, "name", &self.name);
        put(&mut m, "buffer", self.buffer.to_value());
        put(&mut m, "byteLength", self.byte_length.to_value());
        put(&mut m, "byteOffset", self.byte_offset.to_value());
        put_index(&mut m, "byteStride", self.byte_stride);
        if let Some(target) = self.target {
            put(&mut m, "target", target.to_value());
        }
        object_value(m)
    }
}

/// A buffer of binary data.
#[derive(Clone)]
pub struct Buffer {
    pub name: String,
    pub byte_length: u32,
    pub uri: String,
}

impl Buffer {
    /// An empty buffer without name and location.
    pub fn new() -> (r: Self)
        ensures
            r.name@.len() == 0,
            r.byte_length == 0,
            r.uri@.len() == 0,
    {
        Self { name: String::new(), byte_length: 0, uri: String::new() }
    }

    /// The entries of the JSON object. The byte length is always written.
    pub open spec fn entries(&self) -> Seq<Entry> {
        let e = Seq::<Entry>::empty();
        let e = with_text(e, "name"@, self.name@);
        let e = with_field(e, true, "byteLength"@, self.byte_length.json());
        let e = with_text(e, "uri"@, self.uri@);
        e
    }
}

proof fn lemma_buffer_keys()
    ensures
        mark("name"@) == (4nat, 'n', 'e'),
        mark("byteLength"@) == (10nat, 'b', 'h'),
        mark("uri"@) == (3nat, 'u', 'i'),
{
    reveal_strlit("name");
    reveal_strlit("byteLength");
    reveal_strlit("uri");
}

/// The keys of a buffer's object are `byteLength` and those of the name and
/// the location that are not empty, each once.
pub proof fn law_buffer_keys(buffer: Buffer, key: Seq<char>)
    ensures
        has_key(buffer.entries(), key) <==> {
            ||| key == "name"@ && buffer.name@.len() > 0
            ||| key == "byteLength"@
            ||| key == "uri"@ && buffer.uri@.len() > 0
        },
        distinct_keys(buffer.entries()),
{
    lemma_fields();
    lemma_buffer_keys();
}

impl ToJson for Buffer {
    open spec fn json(&self) -> Json {
        Json::Object(self.entries())
    }

    fn to_value(&self) -> (v: serde_json::Value) {
        proof {
            lemma_buffer_keys();
        }
        let mut m = map_new();
        put_text(&mut m, "name", &self.name);
        put(&mut m, "byteLength", self.byte_length.to_value());
        put_text(&mut m, "uri", &self.uri);
        object_value(m)
    }
}

} // verus!
