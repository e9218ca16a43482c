//! Metadata of a document.

use crate::encode::{
    distinct_keys, has_entry, lemma_fields, lemma_with_field_entry, mark, put, put_text, with_field,
    with_text, ToJson,
};
use crate::json::{has_key, map_new, object_value, text_value, Entry, Json};
use vstd::prelude::*;

verus! {

/// Metadata of a document: who made it, with what, and for which version of
/// the format.
#[derive(Clone)]
pub struct Asset {
    pub copyright: String,
    pub generator: String,
    pub version: String,
    pub min_version: String,
}

impl Asset {
    /// The metadata of a document made by this library for version 2.0.
    pub fn new() -> (r: Self)
        ensures
            r.copyright@.len() == 0,
            r.generator@ == "Paragen v0.1.0"@,
            r.version@ == "2.0"@,
            r.min_version@ == "2.0"@,
    {
        Self {
            copyright: String::new(),
            generator: "Paragen v0.1.0".to_owned(),
            version: "2.0".to_owned(),
            min_version: "2.0".to_owned(),
        }
    }

    /// The entries of the JSON object. The version is written even when it is
    /// empty; the other texts are left out when empty.
    pub open spec fn entries(&self) -> Seq<Entry> {
        let e = Seq::<Entry>::empty();
        let e = with_text(e, "copyright"@, self.copyright@);
        let e = with_text(e, "generator"@, self.generator@);
        let e = with_field(e, true, "version"@, Json::Text(self.version@));
        let e = with_text(e, "minVersion"@, self.min_version@);
        e
    }
}

proof fn lemma_asset_keys()
    ensures
        mark("copyright"@) == (9nat, 'c', 't'),
        mark("generator"@) == (9nat, 'g', 'r'),
        mark("version"@) == (7nat, 'v', 'n'),
        mark("minVersion"@) == (10nat, 'm', 'n'),
{
    reveal_strlit("copyright");
    reveal_strlit("generator");
    reveal_strlit("version");
    reveal_strlit("minVersion");
}

/// The keys of the metadata's object are `version`, whatever the version
/// holds, and those of the other texts that are not empty, each once.
pub proof fn law_asset_keys(asset: Asset, key: Seq<char>)
    ensures
        has_key(asset.entries(), key) <==> {
            ||| key == "copyright"@ && asset.copyright@.len() > 0
            ||| key == "generator"@ && asset.generator@.len() > 0
            ||| key == "version"@
            ||| key == "minVersion"@ && asset.min_version@.len() > 0
        },
        distinct_keys(asset.entries()),
{
    lemma_fields();
    lemma_asset_keys();
}

/// The version is written whatever it holds, also when it is empty.
pub proof fn law_version_is_always_written(asset: Asset)
    ensures
        has_entry(asset.entries(), "version"@, Json::Text(asset.version@)),
{
    let e = Seq::<Entry>::empty();
    let e = with_text(e, "copyright"@, asset.copyright@);
    let e = with_text(e, "generator"@, asset.generator@);
    let version = Json::Text(asset.version@);
    lemma_with_field_entry(e, true, "version"@, version, "version"@, version);
    let e = with_field(e, true, "version"@, version);
    lemma_with_field_entry(
        e,
        asset.min_version@.len() > 0,
        "minVersion"@,
        Json::Text(asset.min_version@),
        "version"@,
        version,
    );
}

impl ToJson for Asset {
    open spec fn json(&self) -> Json {
        Json::Object(self.entries())
    }

    fn to_value(&self) -> (v: serde_json::Value) {
        proof {
            lemma_asset_keys();
        }
        let mut m = map_new();
        put_text(&mut m, "copyright", &self.copyright);
        put_text(&mut m, "generator", &self.generator);
        put(&mut m, "version", text_value(self.version.as_str()));
        put_text(&mut m, "minVersion", &self.min_version);
        object_value(m)
    }
}

} // verus!
