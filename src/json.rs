use vstd::prelude::*;

use crate::text::str_eq;

verus! {

/// A JSON value, as the server sends it.
///
/// Numbers keep their text. An object lists its fields in order; a lookup by key takes
/// the first field with that key.
#[derive(Debug)]
pub enum JsonValue {
    Null,
    Bool(bool),
    Number(String),
    Str(String),
    Array(Vec<JsonValue>),
    Object(Vec<(String, JsonValue)>),
}

/// The value under `key` among `fields`: the first field with that key.
pub open spec fn field_of(fields: Seq<(String, JsonValue)>, key: Seq<char>) -> Option<JsonValue>
    decreases fields.len(),
{
    if fields.len() == 0 {
        None
    } else if fields[0].0@ == key {
        Some(fields[0].1)
    } else {
        field_of(fields.drop_first(), key)
    }
}

/// The value under `key` of an object; nothing for a value of another kind.
pub open spec fn json_get(v: JsonValue, key: Seq<char>) -> Option<JsonValue> {
    match v {
        JsonValue::Object(fields) => field_of(fields@, key),
        _ => None,
    }
}

/// The text of a string value.
pub open spec fn json_as_str(v: JsonValue) -> Option<Seq<char>> {
    match v {
        JsonValue::Str(s) => Some(s@),
        _ => None,
    }
}

proof fn lemma_field_of_absent(fields: Seq<(String, JsonValue)>, key: Seq<char>, i: int)
    requires
        0 <= i <= fields.len(),
        forall|j: int| 0 <= j < i ==> fields[j].0@ != key,
    ensures
        field_of(fields, key) == field_of(fields.subrange(i, fields.len() as int), key),
    decreases i,
{
    if i > 0 {
        assert(fields.drop_first().subrange(i - 1, fields.drop_first().len() as int) =~= fields.subrange(
            i,
            fields.len() as int,
        ));
        lemma_field_of_absent(fields.drop_first(), key, i - 1);
    } else {
        assert(fields.subrange(0, fields.len() as int) =~= fields);
    }
}

impl JsonValue {
    /// The value under `key`, where `self` is an object that has it.
    pub fn get(&self, key: &str) -> (r: Option<&JsonValue>)
        ensures
            r matches Some(x) ==> json_get(*self, key@) == Some(*x),
            r is None ==> json_get(*self, key@) is None,
    {
        match self {
            JsonValue::Object(fields) => {
                let mut i: usize = 0;
                while i < fields.len()
                    invariant
                        i <= fields@.len(),
                        json_get(*self, key@) == field_of(fields@, key@),
                        forall|j: int| 0 <= j < i ==> fields@[j].0@ != key@,
                    decreases fields@.len() - i,
                {
                    if str_eq(fields[i].0.as_str(), key) {
                        proof {
                            lemma_field_of_absent(fields@, key@, i as int);
                            let ghost rest = fields@.subrange(i as int, fields@.len() as int);
                            assert(rest[0] == fields@[i as int]);
                        }
                        return Some(&fields[i].1);
                    }
                    i += 1;
                }
                proof {
                    lemma_field_of_absent(fields@, key@, i as int);
                }
                None
            },
            _ => None,
        }
    }

    /// The text of a string value.
    pub fn as_str(&self) -> (r: Option<&str>)
        ensures
            r matches Some(s) ==> json_as_str(*self) == Some(s@),
            r is None ==> json_as_str(*self) is None,
    {
        match self {
            JsonValue::Str(s) => Some(s.as_str()),
            _ => None,
        }
    }
}

/// The JSON error body of a failed request: `{code, message, data}`, each part optional.
#[derive(Debug)]
pub struct ErrorResponse {
    /// The HTTP status, where the body gives it.
    pub code: Option<u16>,
    /// The server's description of the error, where the body gives it.
    pub message: Option<String>,
    /// Details on the fields that caused it, if any.
    pub data: Option<JsonValue>,
}

} // verus!
