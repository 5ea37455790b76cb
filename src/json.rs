use vstd::prelude::*;
use crate::text::str_eq;

verus! {

/// A JSON document, as far as the verification flow reads it.
#[derive(Debug)]
pub enum Json {
    Null,
    Bool(bool),
    /// A number, with its value where it is a whole number in `0..=u64::MAX`.
    Number(Option<u64>),
    Str(String),
    Array(Vec<Json>),
    /// The members of an object, each key once, in the order the parser gives.
    Object(Vec<(String, Json)>),
}

/// The value under `key` in a list of members: the first member with that key.
pub open spec fn member(entries: Seq<(String, Json)>, key: Seq<char>) -> Option<Json>
    decreases entries.len(),
{
    if entries.len() == 0 {
        None
    } else if entries[0].0@ == key {
        Some(entries[0].1)
    } else {
        member(entries.drop_first(), key)
    }
}

/// A byte, where `j` is a JSON number in `0..=255`.
pub open spec fn byte_of(j: Json) -> Option<u8> {
    match j {
        Json::Number(Some(n)) => if n <= 255 { Some(n as u8) } else { None },
        _ => None,
    }
}

/// Whether every item of `items` is a byte.
pub open spec fn all_bytes(items: Seq<Json>) -> bool {
    forall|i: int| 0 <= i < items.len() ==> (#[trigger] byte_of(items[i])).is_some()
}

impl Json {
    /// The value under `key`, where `self` is an object that has one.
    pub open spec fn spec_get(self, key: Seq<char>) -> Option<Json> {
        match self {
            Json::Object(entries) => member(entries@, key),
            _ => None,
        }
    }

    /// The text, where `self` is a string.
    pub open spec fn spec_str(self) -> Option<Seq<char>> {
        match self {
            Json::Str(s) => Some(s@),
            _ => None,
        }
    }

    /// The bytes, where `self` is a list of numbers in `0..=255`.
    pub open spec fn spec_bytes(self) -> Option<Seq<u8>> {
        match self {
            Json::Array(items) => if all_bytes(items@) {
                Some(items@.map_values(|j: Json| byte_of(j).unwrap()))
            } else {
                None
            },
            _ => None,
        }
    }

    /// The value under `key`, where `self` is an object that has one.
    pub fn get(&self, key: &str) -> (r: Option<&Json>)
        ensures
            match r {
                Some(v) => self.spec_get(key@) == Some(*v),
                None => self.spec_get(key@).is_none(),
            },
    {
        match self {
            Json::Object(entries) => {
                let mut i: usize = 0;
                assert(entries@.subrange(0, entries@.len() as int) =~= entries@);
                while i < entries.len()
                    invariant
                        i <= entries@.len(),
                        self.spec_get(key@) == member(entries@, key@),
                        member(entries@, key@) == member(entries@.subrange(i as int, entries@.len() as int), key@),
                    decreases entries.len() - i,
                {
                    let ghost rest = entries@.subrange(i as int, entries@.len() as int);
                    assert(rest.drop_first() =~= entries@.subrange(i + 1, entries@.len() as int));
                    assert(rest[0] == entries@[i as int]);
                    if str_eq(entries[i].0.as_str(), key) {
                        return Some(&entries[i].1);
                    }
                    i = i + 1;
                }
                None
            },
            _ => None,
        }
    }

    /// The text, where `self` is a string.
    pub fn as_str(&self) -> (r: Option<&String>)
        ensures
            match r {
                Some(s) => self.spec_str() == Some(s@),
                None => self.spec_str().is_none(),
            },
    {
        match self {
            Json::Str(s) => Some(s),
            _ => None,
        }
    }

    /// The bytes, where `self` is a list of numbers in `0..=255`.
    pub fn as_bytes(&self) -> (r: Option<Vec<u8>>)
        ensures
            match r {
                Some(b) => self.spec_bytes() == Some(b@),
                None => self.spec_bytes().is_none(),
            },
    {
        match self {
            Json::Array(items) => {
                let mut out: Vec<u8> = Vec::new();
                let mut i: usize = 0;
                while i < items.len()
                    invariant
                        i <= items@.len(),
                        self is Array,
                        self->Array_0@ == items@,
                        out@.len() == i,
                        forall|k: int| 0 <= k < i ==> (#[trigger] byte_of(items@[k])) == Some(out@[k]),
                    decreases items.len() - i,
                {
                    match &items[i] {
                        Json::Number(Some(n)) => {
                            if *n <= 255 {
                                out.push(*n as u8);
                            } else {
                                assert(byte_of(items@[i as int]).is_none());
                                assert(!all_bytes(items@));
                                return None;
                            }
                        },
                        _ => {
                            assert(byte_of(items@[i as int]).is_none());
                            assert(!all_bytes(items@));
                            return None;
                        },
                    }
                    i = i + 1;
                }
                assert(all_bytes(items@));
                assert(out@ =~= items@.map_values(|j: Json| byte_of(j).unwrap()));
                Some(out)
            },
            _ => None,
        }
    }
}

#[verifier::external_type_specification]
#[verifier::external_body]
pub struct ExJsonValue(serde_json::Value);

/// What serde_json's parser reads from a text: `None` where the text is not JSON.
pub uninterp spec fn json_text(s: Seq<char>) -> Option<Json>;

/// Relies on serde_json::Value's six variants: moves each into the variant of
/// the same name, members and items in the parser's order.
#[verifier::external_body]
fn json_from_serde(v: serde_json::Value) -> Json {
    match v {
        serde_json::Value::Null => Json::Null,
        serde_json::Value::Bool(b) => Json::Bool(b),
        serde_json::Value::Number(n) => Json::Number(n.as_u64()),
        serde_json::Value::String(s) => Json::Str(s),
        serde_json::Value::Array(a) => Json::Array(a.into_iter().map(json_from_serde).collect()),
        serde_json::Value::Object(m) => Json::Object(m.into_iter().map(|(k, v)| (k, json_from_serde(v))).collect()),
    }
}

/// Relies on serde_json::from_str: parses the whole text as one JSON value and
/// fails on anything else; the value depends on the text alone.
#[verifier::external_body]
pub(crate) fn parse_json(text: &str) -> (r: Option<Json>)
    ensures
        r == json_text(text@),
{
    serde_json::from_str::<serde_json::Value>(text).ok().map(json_from_serde)
}

} // verus!
