//! JSON values as the Herdr CLI answers them, and the queries the reporter makes.
use crate::text::same_text;
use vstd::prelude::*;

verus! {

/// A JSON value. An object keeps its members in order; a number keeps its text.
pub enum Json {
    Null,
    Bool(bool),
    Number(String),
    Text(String),
    Array(Vec<Json>),
    Object(Vec<(String, Json)>),
}

/// The value of the first member named `key`.
pub open spec fn lookup(members: Seq<(String, Json)>, key: Seq<char>) -> Option<Json>
    decreases members.len(),
{
    if members.len() == 0 {
        None
    } else if members[0].0@ == key {
        Some(members[0].1)
    } else {
        lookup(members.drop_first(), key)
    }
}

/// The member `key` of an object (`Value::get`): `None` for a missing member or a value
/// that is not an object.
pub open spec fn field(j: Json, key: Seq<char>) -> Option<Json> {
    match j {
        Json::Object(members) => lookup(members@, key),
        _ => None,
    }
}

/// The member `key` of an object, or `null` (`Value`'s `[]` with a string).
pub open spec fn member(j: Json, key: Seq<char>) -> Json {
    match field(j, key) {
        Some(v) => v,
        None => Json::Null,
    }
}

/// The member `key` of an optional value.
pub open spec fn then_field(j: Option<Json>, key: Seq<char>) -> Option<Json> {
    match j {
        Some(v) => field(v, key),
        None => None,
    }
}

/// The text of a string value (`Value::as_str`).
pub open spec fn text_of(j: Json) -> Option<Seq<char>> {
    match j {
        Json::Text(s) => Some(s@),
        _ => None,
    }
}

/// Whether `j` is the string `t` (`Value == &str`).
pub open spec fn is_text(j: Json, t: Seq<char>) -> bool {
    text_of(j) == Some(t)
}

/// The position of the first member named `key`, if any.
pub open spec fn position_from(members: Seq<(String, Json)>, key: Seq<char>, i: int) -> bool {
    forall|k: int| 0 <= k < i ==> #[trigger] members[k].0@ != key
}

proof fn lemma_lookup_at(members: Seq<(String, Json)>, key: Seq<char>, i: int)
    requires
        0 <= i <= members.len(),
        position_from(members, key, i),
    ensures
        i < members.len() && members[i].0@ == key ==> lookup(members, key) == Some(members[i].1),
        i == members.len() ==> lookup(members, key) is None,
    decreases i,
{
    if i > 0 {
        let rest = members.drop_first();
        assert forall|k: int| 0 <= k < i - 1 implies #[trigger] rest[k].0@ != key by {
            assert(rest[k] == members[k + 1]);
        }
        assert(members[0].0@ != key);
        lemma_lookup_at(rest, key, i - 1);
        if i < members.len() {
            assert(rest[i - 1] == members[i]);
        }
    }
}

impl Json {
    /// The position of the member `key` of an object, if any.
    fn find(members: &Vec<(String, Json)>, key: &str) -> (r: Option<usize>)
        ensures
            match r {
                Some(i) => i < members@.len() && lookup(members@, key@) == Some(members@[i as int].1),
                None => lookup(members@, key@) is None,
            },
    {
        let mut i: usize = 0;
        while i < members.len()
            invariant
                i <= members@.len(),
                position_from(members@, key@, i as int),
            decreases members.len() - i,
        {
            if same_text(members[i].0.as_str(), key) {
                proof {
                    lemma_lookup_at(members@, key@, i as int);
                }
                return Some(i);
            }
            i = i + 1;
        }
        proof {
            lemma_lookup_at(members@, key@, i as int);
        }
        None
    }

    /// `Value::get`: the member `key` of an object.
    pub fn get(&self, key: &str) -> (r: Option<&Json>)
        ensures
            match r {
                Some(v) => field(*self, key@) == Some(*v),
                None => field(*self, key@) is None,
            },
    {
        match self {
            Json::Object(members) => match Json::find(members, key) {
                Some(i) => Some(&members[i].1),
                None => None,
            },
            _ => None,
        }
    }

    /// `Value`'s `[]` with a string: the member `key`, or `None` for `null`.
    pub fn take(self, key: &str) -> (r: Json)
        ensures
            r == member(self, key@),
    {
        match self {
            Json::Object(mut members) => {
                let ghost before = members@;
                match Json::find(&members, key) {
                    Some(i) => {
                        let (_, v) = members.remove(i);
                        assert(v == before[i as int].1);
                        v
                    },
                    None => Json::Null,
                }
            },
            _ => Json::Null,
        }
    }

    /// `Value::as_str`.
    pub fn as_text(&self) -> (r: Option<&str>)
        ensures
            match r {
                Some(s) => text_of(*self) == Some(s@),
                None => text_of(*self) is None,
            },
    {
        match self {
            Json::Text(s) => Some(s.as_str()),
            _ => None,
        }
    }

    /// Whether this value is the string `t`.
    pub fn is_text(&self, t: &str) -> (r: bool)
        ensures
            r == is_text(*self, t@),
    {
        match self.as_text() {
            Some(s) => same_text(s, t),
            None => false,
        }
    }

    /// Whether the member `key` is the string `t` (`value[key] == t`).
    pub fn member_is(&self, key: &str, t: &str) -> (r: bool)
        ensures
            r == is_text(member(*self, key@), t@),
    {
        match self.get(key) {
            Some(v) => v.is_text(t),
            None => false,
        }
    }

    /// Whether the member `key` is a string.
    pub fn member_is_string(&self, key: &str) -> (r: bool)
        ensures
            r == (member(*self, key@) is Text),
    {
        match self.get(key) {
            Some(Json::Text(_)) => true,
            _ => false,
        }
    }

    /// Whether the member `key` is `true`.
    pub fn member_is_true(&self, key: &str) -> (r: bool)
        ensures
            r == (member(*self, key@) == Json::Bool(true)),
    {
        match self.get(key) {
            Some(Json::Bool(b)) => *b,
            _ => false,
        }
    }

    /// Whether the member `key` is an object.
    pub fn member_is_object(&self, key: &str) -> (r: bool)
        ensures
            r == (member(*self, key@) is Object),
    {
        match self.get(key) {
            Some(Json::Object(_)) => true,
            _ => false,
        }
    }

    /// Whether the member `key` is `null` (or missing).
    pub fn member_is_null(&self, key: &str) -> (r: bool)
        ensures
            r == (member(*self, key@) is Null),
    {
        match self.get(key) {
            Some(Json::Null) => true,
            None => true,
            _ => false,
        }
    }

    /// Whether this value is an object.
    pub fn is_object(&self) -> (r: bool)
        ensures
            r == (*self is Object),
    {
        match self {
            Json::Object(_) => true,
            _ => false,
        }
    }
}

#[verifier::external_type_specification]
#[verifier::external_body]
pub struct ExValue(serde_json::Value);

/// The JSON value that `serde_json` reads from `bytes`, as a `Json`: `None` when the
/// bytes are not one JSON value.
pub uninterp spec fn json_of(bytes: Seq<u8>) -> Option<Json>;

/// `serde_json::from_slice::<Value>`, the value then carried over into a `Json` member by
/// member, numbers by their text.
#[verifier::external_body]
pub(crate) fn parse_json(bytes: &[u8]) -> (r: Option<Json>)
    ensures
        r == json_of(bytes@),
{
    serde_json::from_slice::<serde_json::Value>(bytes).ok().map(json_from_value)
}

/// A `serde_json::Value` carried over into a `Json`, one variant for each of its variants.
#[verifier::external_body]
fn json_from_value(v: serde_json::Value) -> Json {
    match v {
        serde_json::Value::Null => Json::Null,
        serde_json::Value::Bool(b) => Json::Bool(b),
        serde_json::Value::Number(n) => Json::Number(n.to_string()),
        serde_json::Value::String(s) => Json::Text(s),
        serde_json::Value::Array(a) => Json::Array(a.into_iter().map(json_from_value).collect()),
        serde_json::Value::Object(o) => {
            Json::Object(o.into_iter().map(|(k, v)| (k, json_from_value(v))).collect())
        },
    }
}

} // verus!
