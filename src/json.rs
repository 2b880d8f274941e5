//! A structured value for the dynamic payloads that events carry.

use vstd::prelude::*;

verus! {

/// A JSON-like value: null, a boolean, a number (kept as its decimal text),
/// a string, an array, or an object whose members keep their order.
#[derive(Debug, PartialEq)]
pub enum JsonValue {
    Null,
    Bool(bool),
    Number(String),
    String(String),
    Array(Vec<JsonValue>),
    Object(Vec<JsonMember>),
}

/// One member of an object: its name and its value.
#[derive(Debug, PartialEq)]
pub struct JsonMember {
    pub key: String,
    pub value: JsonValue,
}

/// The mathematical value of a `JsonValue`.
pub enum JsonView {
    Null,
    Bool(bool),
    Number(Seq<char>),
    String(Seq<char>),
    Array(Seq<JsonView>),
    Object(Seq<Seq<char>>, Seq<JsonView>),
}

impl View for JsonValue {
    type V = JsonView;

    open spec fn view(&self) -> JsonView
        decreases self,
    {
        match self {
            JsonValue::Null => JsonView::Null,
            JsonValue::Bool(b) => JsonView::Bool(*b),
            JsonValue::Number(n) => JsonView::Number(n@),
            JsonValue::String(s) => JsonView::String(s@),
            JsonValue::Array(items) => JsonView::Array(
                Seq::new(
                    items@.len(),
                    |i: int|
                        {
                            if 0 <= i < items@.len() {
                                items@[i]@
                            } else {
                                JsonView::Null
                            }
                        },
                ),
            ),
            JsonValue::Object(members) => JsonView::Object(
                Seq::new(
                    members@.len(),
                    |i: int|
                        {
                            if 0 <= i < members@.len() {
                                members@[i].key@
                            } else {
                                Seq::empty()
                            }
                        },
                ),
                Seq::new(
                    members@.len(),
                    |i: int|
                        {
                            if 0 <= i < members@.len() {
                                members@[i].value@
                            } else {
                                JsonView::Null
                            }
                        },
                ),
            ),
        }
    }
}

impl Clone for JsonValue {
    fn clone(&self) -> (r: Self)
        ensures
            r@ == self@,
        decreases self,
    {
        match self {
            JsonValue::Null => JsonValue::Null,
            JsonValue::Bool(b) => JsonValue::Bool(*b),
            JsonValue::Number(n) => JsonValue::Number(n.clone()),
            JsonValue::String(s) => JsonValue::String(s.clone()),
            JsonValue::Array(items) => {
                let mut out: Vec<JsonValue> = Vec::new();
                let mut i: usize = 0;
                while i < items.len()
                    invariant
                        *self == JsonValue::Array(*items),
                        i <= items@.len(),
                        out@.len() == i,
                        forall|j: int| 0 <= j < i ==> (#[trigger] out@[j])@ == items@[j]@,
                    decreases items@.len() - i,
                {
                    proof {
                        vstd::std_specs::vec::axiom_vec_index_decreases(*items, i as int);
                        assert(decreases_to!(*self => (*self)->Array_0));
                        assert(decreases_to!(*items => items[i as int]));
                        assert(decreases_to!(*self => items[i as int]));
                    }
                    let item = items[i].clone();
                    out.push(item);
                    i = i + 1;
                }
                let r = JsonValue::Array(out);
                assert(r@->Array_0 =~= self@->Array_0);
                r
            },
            JsonValue::Object(members) => {
                let mut out: Vec<JsonMember> = Vec::new();
                let mut i: usize = 0;
                while i < members.len()
                    invariant
                        *self == JsonValue::Object(*members),
                        i <= members@.len(),
                        out@.len() == i,
                        forall|j: int|
                            0 <= j < i ==> (#[trigger] out@[j]).key@ == members@[j].key@ && out@[j].value@
                                == members@[j].value@,
                    decreases members@.len() - i,
                {
                    proof {
                        vstd::std_specs::vec::axiom_vec_index_decreases(*members, i as int);
                        assert(decreases_to!(*self => (*self)->Object_0));
                        assert(decreases_to!(*members => members[i as int]));
                        assert(decreases_to!(members[i as int] => members[i as int].value));
                        assert(decreases_to!(*self => members[i as int].value));
                    }
                    let key = members[i].key.clone();
                    let value = members[i].value.clone();
                    out.push(JsonMember { key, value });
                    i = i + 1;
                }
                let r = JsonValue::Object(out);
                assert(r@->Object_0 =~= self@->Object_0);
                assert(r@->Object_1 =~= self@->Object_1);
                r
            },
        }
    }
}

/// The first position of `key` among `keys`.
pub open spec fn key_position(keys: Seq<Seq<char>>, key: Seq<char>) -> Option<int> {
    if exists|i: int| 0 <= i < keys.len() && keys[i] == key {
        Some(
            choose|i: int|
                0 <= i < keys.len() && keys[i] == key && forall|j: int|
                    0 <= j < i ==> keys[j] != key,
        )
    } else {
        None
    }
}

/// The value of the first member named `key`, when `v` is an object that has one.
pub open spec fn json_field(v: JsonView, key: Seq<char>) -> Option<JsonView> {
    match v {
        JsonView::Object(keys, values) => match key_position(keys, key) {
            Some(i) => Some(values[i]),
            None => None,
        },
        _ => None,
    }
}

/// The text of the member `key` of `v`, when that member is a string.
pub open spec fn str_field(v: JsonView, key: Seq<char>) -> Option<Seq<char>> {
    match json_field(v, key) {
        Some(JsonView::String(s)) => Some(s),
        _ => None,
    }
}

impl JsonValue {
    /// The value of the first member named `key`, when `self` is an object.
    pub fn get(&self, key: &str) -> (r: Option<&JsonValue>)
        ensures
            r matches Some(x) ==> json_field(self@, key@) == Some(x@),
            r is None ==> json_field(self@, key@) is None,
    {
        match self {
            JsonValue::Object(members) => {
                let mut i: usize = 0;
                while i < members.len()
                    invariant
                        *self == JsonValue::Object(*members),
                        i <= members@.len(),
                        forall|j: int| 0 <= j < i ==> (#[trigger] members@[j]).key@ != key@,
                    decreases members@.len() - i,
                {
                    if crate::text::str_eq(members[i].key.as_str(), key) {
                        proof {
                            let keys = self@->Object_0;
                            assert(keys[i as int] == members@[i as int].key@);
                            assert forall|j: int| 0 <= j < i implies keys[j] != key@ by {
                                assert(keys[j] == members@[j].key@);
                            }
                            let c = choose|c: int|
                                0 <= c < keys.len() && keys[c] == key@ && forall|j: int|
                                    0 <= j < c ==> keys[j] != key@;
                            if c < i {
                            } else if c > i {
                            }
                            assert(c == i);
                        }
                        return Some(&members[i].value);
                    }
                    i = i + 1;
                }
                proof {
                    let keys = self@->Object_0;
                    assert forall|j: int| 0 <= j < keys.len() implies keys[j] != key@ by {
                        assert(keys[j] == members@[j].key@);
                    }
                }
                None
            },
            _ => None,
        }
    }

    /// The text of `self`, when it is a string.
    pub fn as_str(&self) -> (r: Option<&str>)
        ensures
            r matches Some(s) ==> self@ == JsonView::String(s@),
            r is None ==> !(self@ is String),
    {
        match self {
            JsonValue::String(s) => Some(s.as_str()),
            _ => None,
        }
    }
}

/// The text of the member `key` of `v`, when that member is a string.
pub fn string_field(v: &JsonValue, key: &str) -> (r: Option<String>)
    ensures
        crate::types::opt_str_view(r) == str_field(v@, key@),
{
    match v.get(key) {
        Some(x) => match x.as_str() {
            Some(s) => Some(s.to_string()),
            None => None,
        },
        None => None,
    }
}

/// A member named `key` with value `value`.
pub fn member(key: &str, value: JsonValue) -> (r: JsonMember)
    ensures
        r.key@ == key@,
        r.value == value,
{
    JsonMember { key: key.to_string(), value }
}

/// A string value, or null when absent.
pub fn opt_string(s: Option<String>) -> (r: JsonValue)
    ensures
        r@ == opt_string_view(crate::types::opt_str_view(s)),
{
    match s {
        Some(t) => JsonValue::String(t),
        None => JsonValue::Null,
    }
}

/// The view of `opt_string`.
pub open spec fn opt_string_view(s: Option<Seq<char>>) -> JsonView {
    match s {
        Some(t) => JsonView::String(t),
        None => JsonView::Null,
    }
}

} // verus!
