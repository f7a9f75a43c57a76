//! A plain model of the JSON documents that fee-estimation endpoints
//! return. The transport layer parses the wire text and hands the library a
//! `JsonValue`; everything the library then reads out of the document is a
//! verified computation on this type.
//!
//! Numbers are held as whole microlamport values: a fractional part has no
//! meaning for a fee, so the conversion at the boundary truncates it.
use vstd::prelude::*;

verus! {

/// A JSON document. An object is a field list in document order; a lookup
/// returns the first binding of a key.
#[derive(Debug)]
pub enum JsonValue {
    Null,
    Bool(bool),
    Num(u64),
    Text(String),
    Arr(Vec<JsonValue>),
    Obj(Vec<(String, JsonValue)>),
}

/// First binding of `key` in a field list.
pub open spec fn spec_fields_get(
    fields: Seq<(String, JsonValue)>,
    key: Seq<char>,
) -> Option<JsonValue>
    decreases fields.len(),
{
    if fields.len() == 0 {
        None
    } else if fields[0].0@ == key {
        Some(fields[0].1)
    } else {
        spec_fields_get(fields.drop_first(), key)
    }
}

/// Field `key` of an object; `None` on any other kind of value.
pub open spec fn spec_get(v: JsonValue, key: Seq<char>) -> Option<JsonValue> {
    if v is Obj {
        spec_fields_get((v->Obj_0)@, key)
    } else {
        None
    }
}

/// The numeric content of a value; `None` on any other kind of value.
pub open spec fn spec_as_num(v: JsonValue) -> Option<u64> {
    match v {
        JsonValue::Num(n) => Some(n),
        _ => None,
    }
}

impl JsonValue {
    /// Look a field up in an object, first binding wins; `None` when `self`
    /// is not an object or the key is absent.
    pub fn get<'a>(&'a self, key: &String) -> (r: Option<&'a JsonValue>)
        ensures
            match r {
                Some(v) => spec_get(*self, key@) == Some(*v),
                None => spec_get(*self, key@) is None,
            },
    {
        match self {
            JsonValue::Obj(fields) => {
                let mut i: usize = 0;
                proof {
                    assert(fields@.skip(0) =~= fields@);
                }
                while i < fields.len()
                    invariant
                        0 <= i <= fields@.len(),
                        *self is Obj,
                        (*self)->Obj_0 == *fields,
                        spec_fields_get(fields@, key@) == spec_fields_get(
                            fields@.skip(i as int),
                            key@,
                        ),
                    decreases fields@.len() - i,
                {
                    let pair = &fields[i];
                    if pair.0.eq(key) {
                        proof {
                            assert(fields@.skip(i as int).len() > 0);
                            assert(fields@.skip(i as int)[0] == fields@[i as int]);
                            assert(spec_fields_get(fields@.skip(i as int), key@) == Some(
                                fields@[i as int].1,
                            ));
                        }
                        return Some(&pair.1);
                    }
                    proof {
                        assert(fields@.skip(i as int).drop_first() =~= fields@.skip(i as int + 1));
                        assert(fields@.skip(i as int)[0] == fields@[i as int]);
                    }
                    i = i + 1;
                }
                proof {
                    assert(fields@.skip(i as int).len() == 0);
                }
                None
            },
            _ => None,
        }
    }

    /// The numeric content, or `None` when the value is not a number.
    pub fn as_num(&self) -> (r: Option<u64>)
        ensures
            r == spec_as_num(*self),
    {
        match self {
            JsonValue::Num(n) => Some(*n),
            _ => None,
        }
    }

    /// The elements of an array, or `None` when the value is not an array.
    pub fn as_arr<'a>(&'a self) -> (r: Option<&'a Vec<JsonValue>>)
        ensures
            match r {
                Some(items) => *self == JsonValue::Arr(*items),
                None => !(*self is Arr),
            },
    {
        match self {
            JsonValue::Arr(items) => Some(items),
            _ => None,
        }
    }
}

} // verus!
