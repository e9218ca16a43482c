//! Scenes: named lists of root nodes.

use crate::encode::{
    distinct_keys, lemma_fields, mark, put_list, put_text, with_list, with_text, ToJson,
};
use crate::json::{has_key, map_new, object_value, Entry, Json};
use vstd::prelude::*;

verus! {

/// A scene: a display name and the indices of its root nodes.
#[derive(Clone)]
pub struct Scene {
    pub name: String,
    pub nodes: Vec<u32>,
}

impl Scene {
    /// A scene without a name and without nodes.
    pub fn new() -> (r: Self)
        ensures
            r.name@.len() == 0,
            r.nodes@.len() == 0,
    {
        Self { name: String::new(), nodes: Vec::new() }
    }

    /// The entries of the scene's JSON object.
    pub open spec fn entries(&self) -> Seq<Entry> {
        let e = Seq::<Entry>::empty();
        let e = with_text(e, "name"@, self.name@);
        let e = with_list(e, "nodes"@, self.nodes@);
        e
    }
}

proof fn lemma_scene_keys()
    ensures
        mark("name"@) == (4nat, 'n', 'e'),
        mark("nodes"@) == (5nat, 'n', 's'),
{
    reveal_strlit("name");
    reveal_strlit("nodes");
}

/// The keys of a scene's object are those of the name and of the nodes, as
/// far as they are not empty, each once.
pub proof fn law_scene_keys(scene: Scene, key: Seq<char>)
    ensures
        has_key(scene.entries(), key) <==> {
            ||| key == "name"@ && scene.name@.len() > 0
            ||| key == "nodes"@ && scene.nodes@.len() > 0
        },
        distinct_keys(scene.entries()),
{
    lemma_fields();
    lemma_scene_keys();
}

impl ToJson for Scene {
    open spec fn json(&self) -> Json {
        Json::Object(self.entries())
    }

    fn to_value(&self) -> (v: serde_json::Value) {
        proof {
            lemma_scene_keys();
        }
        let mut m = map_new();
        put_text(&mut m, "name", &self.name);
        put_list(&mut m, "nodes", &self.nodes);
        object_value(m)
    }
}

} // verus!
