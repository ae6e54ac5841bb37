//! The JSON documents that requests and responses are made of.
use vstd::prelude::*;
use crate::text::same_text;

verus! {

/// A JSON number as serde_json holds it: a non-negative integer, a negative
/// integer, or a finite float kept by its IEEE 754 bit pattern.
#[derive(Debug, Clone, Copy, PartialEq, Eq, Structural)]
pub enum JsonNumber {
    PosInt(u64),
    NegInt(i64),
    FloatBits(u64),
}

/// A JSON document. The members of an object keep their order; where a key
/// occurs more than once, lookups find the first member with that key.
#[derive(Debug, PartialEq)]
pub enum Json {
    Null,
    Bool(bool),
    Number(JsonNumber),
    Str(String),
    Array(Vec<Json>),
    Object(Vec<(String, Json)>),
}

/// The mathematical value of a JSON document.
#[verifier::ext_equal]
pub ghost enum JsonValue {
    Null,
    Bool(bool),
    Number(JsonNumber),
    Str(Seq<char>),
    Array(Seq<JsonValue>),
    Object(Seq<(Seq<char>, JsonValue)>),
}

impl Json {
    /// The value that the document denotes.
    pub open spec fn value(&self) -> JsonValue
        decreases self,
    {
        match self {
            Json::Null => JsonValue::Null,
            Json::Bool(b) => JsonValue::Bool(*b),
            Json::Number(n) => JsonValue::Number(*n),
            Json::Str(s) => JsonValue::Str(s@),
            Json::Array(items) => JsonValue::Array(
                Seq::new(
                    items@.len(),
                    |i: int|
                        if 0 <= i < items@.len() {
                            proof {
                                assert(decreases_to!(self => items@[i]));
                            }
                            items@[i].value()
                        } else {
                            JsonValue::Null
                        },
                ),
            ),
            Json::Object(members) => JsonValue::Object(
                Seq::new(
                    members@.len(),
                    |i: int|
                        if 0 <= i < members@.len() {
                            proof {
                                assert(decreases_to!(self => members@[i].1));
                            }
                            (members@[i].0@, members@[i].1.value())
                        } else {
                            (Seq::empty(), JsonValue::Null)
                        },
                ),
            ),
        }
    }
}

impl View for Json {
    type V = JsonValue;

    open spec fn view(&self) -> JsonValue {
        self.value()
    }
}

/// The value of the first member of `members` whose key is `key`.
pub open spec fn lookup(members: Seq<(Seq<char>, JsonValue)>, key: Seq<char>) -> Option<JsonValue>
    decreases members.len(),
{
    if members.len() == 0 {
        None
    } else if members[0].0 == key {
        Some(members[0].1)
    } else {
        lookup(members.drop_first(), key)
    }
}

/// The member `key` of `v`, where `v` is an object that has one.
pub open spec fn member(v: JsonValue, key: Seq<char>) -> Option<JsonValue> {
    match v {
        JsonValue::Object(members) => lookup(members, key),
        _ => None,
    }
}

/// The characters of `v`, where `v` is a string.
pub open spec fn text_of(v: JsonValue) -> Option<Seq<char>> {
    match v {
        JsonValue::Str(s) => Some(s),
        _ => None,
    }
}

/// The value that an optional reference to a document denotes.
pub open spec fn value_of(r: Option<&Json>) -> Option<JsonValue> {
    match r {
        Some(j) => Some(j@),
        None => None,
    }
}

/// The number that serde_json makes of an integer.
pub open spec fn int_number(n: int) -> JsonNumber {
    if n < 0 {
        JsonNumber::NegInt(n as i64)
    } else {
        JsonNumber::PosInt(n as u64)
    }
}

proof fn lemma_lookup_skip(members: Seq<(Seq<char>, JsonValue)>, key: Seq<char>, i: int)
    requires
        0 <= i < members.len(),
        members[i].0 != key,
    ensures
        lookup(members.skip(i), key) == lookup(members.skip(i + 1), key),
{
    assert(members.skip(i).drop_first() =~= members.skip(i + 1));
}

impl Json {
    /// The member `key` of this document, where it is an object that has one.
    pub fn get(&self, key: &str) -> (r: Option<&Json>)
        ensures
            value_of(r) == member(self@, key@),
    {
        match self {
            Json::Object(members) => {
                let ghost ms = self@->Object_0;
                let n = members.len();
                let mut i: usize = 0;
                assert(ms.skip(0) =~= ms);
                while i < n
                    invariant
                        n == members@.len(),
                        ms.len() == n,
                        self@ == JsonValue::Object(ms),
                        forall|j: int|
                            0 <= j < n ==> #[trigger] ms[j] == (members@[j].0@, members@[j].1@),
                        i <= n,
                        lookup(ms, key@) == lookup(ms.skip(i as int), key@),
                    decreases n - i,
                {
                    let m = &members[i];
                    if same_text(m.0.as_str(), key) {
                        assert(ms[i as int] == (members@[i as int].0@, members@[i as int].1@));
                        assert(ms.skip(i as int)[0] == ms[i as int]);
                        return Some(&m.1);
                    }
                    proof {
                        lemma_lookup_skip(ms, key@, i as int);
                    }
                    i = i + 1;
                }
                None
            },
            _ => None,
        }
    }

    /// The characters of this document, where it is a string.
    pub fn as_str(&self) -> (r: Option<&str>)
        ensures
            match r {
                Some(s) => text_of(self@) == Some(s@),
                None => text_of(self@) is None,
            },
            r is Some <==> self@ is Str,
            r matches Some(s) ==> self@ == JsonValue::Str(s@),
    {
        match self {
            Json::Str(s) => Some(s.as_str()),
            _ => None,
        }
    }

    /// A string document with the characters of `s`.
    pub fn text(s: &str) -> (r: Json)
        ensures
            r@ == JsonValue::Str(s@),
    {
        Json::Str(String::from_str(s))
    }

    /// The number that serde_json makes of a 32-bit integer.
    pub fn integer(n: i32) -> (r: Json)
        ensures
            r@ == JsonValue::Number(int_number(n as int)),
            n < 0 ==> r@ == JsonValue::Number(JsonNumber::NegInt(n as i64)),
            n >= 0 ==> r@ == JsonValue::Number(JsonNumber::PosInt(n as u64)),
    {
        if n < 0 {
            Json::Number(JsonNumber::NegInt(n as i64))
        } else {
            Json::Number(JsonNumber::PosInt(n as u64))
        }
    }
}

/// The value of an object with the given members, in order.
pub open spec fn object_value(members: Seq<(String, Json)>) -> JsonValue {
    JsonValue::Object(members.map_values(|m: (String, Json)| (m.0@, m.1@)))
}

/// The value of an array with the given items, in order.
pub open spec fn array_value(items: Seq<Json>) -> JsonValue {
    JsonValue::Array(items.map_values(|j: Json| j@))
}

impl Json {
    /// An object with the given members, in order.
    pub fn object(members: Vec<(String, Json)>) -> (r: Json)
        ensures
            r@ == object_value(members@),
            r@ is Object,
            r@->Object_0.len() == members@.len(),
            forall|i: int|
                0 <= i < members@.len() ==> #[trigger] r@->Object_0[i] == (
                    members@[i].0@,
                    members@[i].1@,
                ),
    {
        let r = Json::Object(members);
        assert(r@->Object_0 =~= object_value(members@)->Object_0);
        r
    }

    /// An array with the given items, in order.
    pub fn array(items: Vec<Json>) -> (r: Json)
        ensures
            r@ == array_value(items@),
            r@ is Array,
            r@->Array_0.len() == items@.len(),
            forall|i: int| 0 <= i < items@.len() ==> #[trigger] r@->Array_0[i] == items@[i]@,
    {
        let r = Json::Array(items);
        assert(r@->Array_0 =~= array_value(items@)->Array_0);
        r
    }
}

/// An object member with key `key` and value `v`.
pub fn entry(key: &str, v: Json) -> (r: (String, Json))
    ensures
        r.0@ == key@,
        r.1@ == v@,
{
    (String::from_str(key), v)
}

impl Clone for Json {
    #[verifier::loop_isolation(false)]
    fn clone(&self) -> (r: Json)
        ensures
            r@ == self@,
        decreases self,
    {
        match self {
            Json::Null => Json::Null,
            Json::Bool(b) => Json::Bool(*b),
            Json::Number(n) => Json::Number(*n),
            Json::Str(s) => Json::Str(s.clone()),
            Json::Array(items) => {
                let mut out: Vec<Json> = Vec::new();
                let n = items.len();
                let mut i: usize = 0;
                while i < n
                    invariant
                        n == items@.len(),
                        i <= n,
                        out@.len() == i,
                        forall|j: int| 0 <= j < i ==> #[trigger] out@[j]@ == items@[j]@,
                    decreases n - i,
                {
                    proof {
                        assert(decreases_to!(self => items@[i as int]));
                    }
                    let c = items[i].clone();
                    out.push(c);
                    i = i + 1;
                }
                let r = Json::Array(out);
                assert forall|j: int| 0 <= j < n implies #[trigger] r@->Array_0[j] == self@->Array_0[j] by {
                    assert(out@[j]@ == items@[j]@);
                }
                assert(r@->Array_0 =~= self@->Array_0);
                r
            },
            Json::Object(members) => {
                let mut out: Vec<(String, Json)> = Vec::new();
                let n = members.len();
                let mut i: usize = 0;
                while i < n
                    invariant
                        n == members@.len(),
                        i <= n,
                        out@.len() == i,
                        forall|j: int| 0 <= j < i ==> (#[trigger] out@[j]).0@ == members@[j].0@,
                        forall|j: int| 0 <= j < i ==> (#[trigger] out@[j]).1@ == members@[j].1@,
                    decreases n - i,
                {
                    proof {
                        assert(decreases_to!(self => members@[i as int].1));
                    }
                    let k = members[i].0.clone();
                    let v = members[i].1.clone();
                    out.push((k, v));
                    i = i + 1;
                }
                let r = Json::Object(out);
                assert forall|j: int| 0 <= j < n implies #[trigger] r@->Object_0[j] == self@->Object_0[j] by {
                    assert(out@[j].0@ == members@[j].0@ && out@[j].1@ == members@[j].1@);
                }
                assert(r@->Object_0 =~= self@->Object_0);
                r
            },
        }
    }
}

} // verus!
