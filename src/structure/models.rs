//! The records of the models endpoints, and how they are read from JSON.

use crate::json::{
    as_items, as_text, copy_value, is_object, json_is_object, json_items, json_member, json_text,
    member, remove_member,
};
use vstd::prelude::*;
use vstd::string::*;

verus! {

/// The list of models.
#[derive(Debug)]
pub struct Models {
    pub data: Vec<ModelEntry>,
    pub object: String,
    /// The members of the object besides `data` and `object`.
    pub extra: serde_json::Value,
}

/// One model.
#[derive(Debug)]
pub struct ModelEntry {
    pub id: String,
    pub object: String,
    pub owned_by: String,
    pub permission: serde_json::Value,
    /// The members of the object besides the four above.
    pub extra: serde_json::Value,
}

/// The text of a member that is a string.
pub open spec fn text_member(v: serde_json::Value, k: Seq<char>) -> Option<Seq<char>> {
    match json_member(v, k) {
        Some(m) => json_text(m),
        None => None,
    }
}

/// `x` is the object `v` without the members under the keys `known`.
pub open spec fn rest_of(x: serde_json::Value, v: serde_json::Value, known: Seq<Seq<char>>) -> bool {
    &&& json_is_object(x)
    &&& forall|k: Seq<char>|
        #[trigger] json_member(x, k) == if known.contains(k) {
            None
        } else {
            json_member(v, k)
        }
}

pub open spec fn entry_keys() -> Seq<Seq<char>> {
    seq!["id"@, "object"@, "owned_by"@, "permission"@]
}

pub open spec fn listing_keys() -> Seq<Seq<char>> {
    seq!["data"@, "object"@]
}

/// A value that reads as a model: an object with the strings `id`,
/// `object` and `owned_by`, and a `permission` member of any kind.
pub open spec fn entry_ok(v: serde_json::Value) -> bool {
    &&& json_is_object(v)
    &&& text_member(v, "id"@) is Some
    &&& text_member(v, "object"@) is Some
    &&& text_member(v, "owned_by"@) is Some
    &&& json_member(v, "permission"@) is Some
}

/// `e` is the model that `v` reads as.
pub open spec fn entry_of(v: serde_json::Value, e: ModelEntry) -> bool {
    &&& entry_ok(v)
    &&& text_member(v, "id"@) == Some(e.id@)
    &&& text_member(v, "object"@) == Some(e.object@)
    &&& text_member(v, "owned_by"@) == Some(e.owned_by@)
    &&& json_member(v, "permission"@) == Some(e.permission)
    &&& rest_of(e.extra, v, entry_keys())
}

/// A value that reads as a list of models: an object with an array `data`
/// of models and a string `object`.
pub open spec fn listing_ok(v: serde_json::Value) -> bool {
    &&& json_is_object(v)
    &&& json_member(v, "data"@) is Some
    &&& json_items(json_member(v, "data"@)->Some_0) is Some
    &&& forall|i: int|
        0 <= i < json_items(json_member(v, "data"@)->Some_0)->Some_0.len() ==> entry_ok(
            #[trigger] json_items(json_member(v, "data"@)->Some_0)->Some_0[i],
        )
    &&& text_member(v, "object"@) is Some
}

/// `m` is the list of models that `v` reads as, with the models in the
/// order of the array.
pub open spec fn listing_of(v: serde_json::Value, m: Models) -> bool {
    &&& listing_ok(v)
    &&& m.data@.len() == json_items(json_member(v, "data"@)->Some_0)->Some_0.len()
    &&& forall|i: int|
        0 <= i < m.data@.len() ==> entry_of(
            #[trigger] json_items(json_member(v, "data"@)->Some_0)->Some_0[i],
            m.data@[i],
        )
    &&& text_member(v, "object"@) == Some(m.object@)
    &&& rest_of(m.extra, v, listing_keys())
}

/// The string member under `key`, as an owned string.
fn text_field(v: &serde_json::Value, key: &str) -> (r: Option<String>)
    ensures
        r is Some <==> text_member(*v, key@) is Some,
        r is Some ==> text_member(*v, key@) == Some(r->Some_0@),
{
    match member(v, key) {
        Some(m) => match as_text(m) {
            Some(t) => Some(String::from_str(t)),
            None => None,
        },
        None => None,
    }
}

impl ModelEntry {
    /// Reads a model from a JSON value; `None` where the value does not
    /// have the shape of one.
    pub fn from_value(v: &serde_json::Value) -> (r: Option<ModelEntry>)
        ensures
            r is Some <==> entry_ok(*v),
            r is Some ==> entry_of(*v, r->Some_0),
    {
        if !is_object(v) {
            return None;
        }
        let id = match text_field(v, "id") {
            Some(t) => t,
            None => {
                return None;
            },
        };
        let object = match text_field(v, "object") {
            Some(t) => t,
            None => {
                return None;
            },
        };
        let owned_by = match text_field(v, "owned_by") {
            Some(t) => t,
            None => {
                return None;
            },
        };
        let permission = match member(v, "permission") {
            Some(p) => copy_value(p),
            None => {
                return None;
            },
        };
        let mut extra = copy_value(v);
        remove_member(&mut extra, "id");
        remove_member(&mut extra, "object");
        remove_member(&mut extra, "owned_by");
        remove_member(&mut extra, "permission");
        let e = ModelEntry { id, object, owned_by, permission, extra };
        proof {
            assert forall|k: Seq<char>| #[trigger]
                json_member(e.extra, k) == if entry_keys().contains(k) {
                    None
                } else {
                    json_member(*v, k)
                } by {
                lemma_contains4(k, "id"@, "object"@, "owned_by"@, "permission"@);
            }
        }
        Some(e)
    }
}

proof fn lemma_contains4(k: Seq<char>, a: Seq<char>, b: Seq<char>, c: Seq<char>, d: Seq<char>)
    ensures
        seq![a, b, c, d].contains(k) <==> (k == a || k == b || k == c || k == d),
{
    let s = seq![a, b, c, d];
    if k == a {
        assert(s[0] == k);
    }
    if k == b {
        assert(s[1] == k);
    }
    if k == c {
        assert(s[2] == k);
    }
    if k == d {
        assert(s[3] == k);
    }
}

proof fn lemma_contains2(k: Seq<char>, a: Seq<char>, b: Seq<char>)
    ensures
        seq![a, b].contains(k) <==> (k == a || k == b),
{
    let s = seq![a, b];
    if k == a {
        assert(s[0] == k);
    }
    if k == b {
        assert(s[1] == k);
    }
}

impl Models {
    /// Reads a list of models from a JSON value; `None` where the value, or
    /// one of its models, does not have the expected shape.
    pub fn from_value(v: &serde_json::Value) -> (r: Option<Models>)
        ensures
            r is Some <==> listing_ok(*v),
            r is Some ==> listing_of(*v, r->Some_0),
    {
        if !is_object(v) {
            return None;
        }
        let items = match member(v, "data") {
            Some(d) => match as_items(d) {
                Some(a) => a,
                None => {
                    return None;
                },
            },
            None => {
                return None;
            },
        };
        let ghost seq_items = items@;
        let mut data: Vec<ModelEntry> = Vec::new();
        let mut i: usize = 0;
        while i < items.len()
            invariant
                seq_items == items@,
                seq_items == json_items(json_member(*v, "data"@)->Some_0)->Some_0,
                0 <= i <= items@.len(),
                data@.len() == i,
                forall|j: int| 0 <= j < i ==> entry_of(#[trigger] seq_items[j], data@[j]),
            decreases items@.len() - i,
        {
            match ModelEntry::from_value(&items[i]) {
                Some(e) => {
                    data.push(e);
                },
                None => {
                    return None;
                },
            }
            i = i + 1;
        }
        let object = match text_field(v, "object") {
            Some(t) => t,
            None => {
                return None;
            },
        };
        let mut extra = copy_value(v);
        remove_member(&mut extra, "data");
        remove_member(&mut extra, "object");
        let m = Models { data, object, extra };
        proof {
            assert forall|k: Seq<char>| #[trigger]
                json_member(m.extra, k) == if listing_keys().contains(k) {
                    None
                } else {
                    json_member(*v, k)
                } by {
                lemma_contains2(k, "data"@, "object"@);
            }
            assert forall|j: int| 0 <= j < seq_items.len() implies entry_ok(#[trigger] seq_items[j]) by {
                assert(entry_of(seq_items[j], m.data@[j]));
            }
        }
        Some(m)
    }
}

} // verus!
