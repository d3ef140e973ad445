//! The crate's own model of a JSON document.
//!
//! The pipeline receives one untrusted JSON document. Everything the
//! quote logic reads from it is held here as plain values: numbers in
//! fixed point (thousandths), strings, arrays and objects.

use vstd::prelude::*;

verus! {

/// A JSON number in fixed point.
///
/// `milli` is the numeric value in thousandths. `is_int` records whether
/// the document wrote the number as a plain unsigned integer token, which
/// is what allows it to be read as an unsigned integer (a Unix
/// timestamp), as opposed to a fractional or negative literal.
#[derive(Debug, Clone, Copy, PartialEq, Eq, Structural)]
pub struct JsonNum {
    pub milli: i64,
    pub is_int: bool,
}

/// A JSON value: the document model the parser works on.
#[derive(Debug)]
pub enum JsonValue {
    Null,
    Bool(bool),
    Num(JsonNum),
    Text(String),
    Arr(Vec<JsonValue>),
    Obj(Vec<(String, JsonValue)>),
}

/// First entry of an object with the given key, if any.
pub open spec fn spec_obj_get(entries: Seq<(String, JsonValue)>, key: Seq<char>) -> Option<
    JsonValue,
>
    decreases entries.len(),
{
    if entries.len() == 0 {
        None
    } else if entries[0].0@ == key {
        Some(entries[0].1)
    } else {
        spec_obj_get(entries.skip(1), key)
    }
}

/// Member access: `Some` exactly when `v` is an object holding the key.
pub open spec fn spec_get(v: JsonValue, key: Seq<char>) -> Option<JsonValue> {
    match v {
        JsonValue::Obj(entries) => spec_obj_get(entries@, key),
        _ => None,
    }
}

/// Element access: `Some` exactly when `v` is an array long enough.
pub open spec fn spec_at(v: JsonValue, i: int) -> Option<JsonValue> {
    match v {
        JsonValue::Arr(items) => if 0 <= i < items@.len() {
            Some(items@[i])
        } else {
            None
        },
        _ => None,
    }
}

/// The text of a string value.
pub open spec fn spec_as_text(v: JsonValue) -> Option<Seq<char>> {
    match v {
        JsonValue::Text(s) => Some(s@),
        _ => None,
    }
}

/// The numeric value in thousandths, for any number.
pub open spec fn spec_as_milli(v: JsonValue) -> Option<int> {
    match v {
        JsonValue::Num(n) => Some(n.milli as int),
        _ => None,
    }
}

/// The value as an unsigned integer: only a number written as an
/// unsigned integer token qualifies.
pub open spec fn spec_as_u64(v: JsonValue) -> Option<int> {
    match v {
        JsonValue::Num(n) => if n.is_int && n.milli >= 0 {
            Some(n.milli as int / 1000)
        } else {
            None
        },
        _ => None,
    }
}

/// Whether `v` is JSON `null`.
pub open spec fn spec_is_null(v: JsonValue) -> bool {
    v is Null
}

impl JsonValue {
    /// Looks a key up in an object; `None` on any other kind of value,
    /// as on a missing key.
    pub fn get<'a>(&'a self, key: &str) -> (r: Option<&'a JsonValue>)
        ensures
            match r {
                Some(v) => spec_get(*self, key@) == Some(*v),
                None => spec_get(*self, key@) is None,
            },
    {
        match self {
            JsonValue::Obj(entries) => {
                let keystr = String::from_str(key);
                let n = entries.len();
                let mut i: usize = 0;
                proof {
                    assert(entries@.skip(0) =~= entries@);
                }
                while i < n
                    invariant
                        i <= n,
                        n == entries@.len(),
                        keystr@ == key@,
                        spec_get(*self, key@) == spec_obj_get(entries@, key@),
                        spec_obj_get(entries@, key@) == spec_obj_get(
                            entries@.skip(i as int),
                            key@,
                        ),
                    decreases n - i,
                {
                    let pair = &entries[i];
                    if pair.0 == keystr {
                        proof {
                            assert(entries@.skip(i as int)[0] == entries@[i as int]);
                            assert(spec_obj_get(entries@.skip(i as int), key@) == Some(
                                entries@[i as int].1,
                            ));
                        }
                        return Some(&pair.1);
                    }
                    proof {
                        assert(entries@.skip(i as int).skip(1) =~= entries@.skip(i as int + 1));
                    }
                    i = i + 1;
                }
                None
            },
            _ => None,
        }
    }

    /// Element of an array by index; `None` on any other kind of value,
    /// as on an index out of bounds.
    pub fn at<'a>(&'a self, i: usize) -> (r: Option<&'a JsonValue>)
        ensures
            match r {
                Some(v) => spec_at(*self, i as int) == Some(*v),
                None => spec_at(*self, i as int) is None,
            },
    {
        match self {
            JsonValue::Arr(items) => if i < items.len() {
                Some(&items[i])
            } else {
                None
            },
            _ => None,
        }
    }

    /// The string content, if this is a string.
    pub fn as_text(&self) -> (r: Option<&String>)
        ensures
            match r {
                Some(s) => spec_as_text(*self) == Some(s@),
                None => spec_as_text(*self) is None,
            },
    {
        match self {
            JsonValue::Text(s) => Some(s),
            _ => None,
        }
    }

    /// The numeric value in thousandths, if this is a number.
    pub fn as_milli(&self) -> (r: Option<i64>)
        ensures
            match r {
                Some(m) => spec_as_milli(*self) == Some(m as int),
                None => spec_as_milli(*self) is None,
            },
    {
        match self {
            JsonValue::Num(n) => Some(n.milli),
            _ => None,
        }
    }

    /// The value as an unsigned integer, if this is a number written as
    /// an unsigned integer token.
    pub fn as_u64(&self) -> (r: Option<u64>)
        ensures
            match r {
                Some(u) => spec_as_u64(*self) == Some(u as int),
                None => spec_as_u64(*self) is None,
            },
    {
        match self {
            JsonValue::Num(n) => if n.is_int && n.milli >= 0 {
                Some((n.milli as u64) / 1000)
            } else {
                None
            },
            _ => None,
        }
    }

    /// Whether this is JSON `null`.
    pub fn is_null(&self) -> (r: bool)
        ensures
            r == spec_is_null(*self),
    {
        match self {
            JsonValue::Null => true,
            _ => false,
        }
    }
}

} // verus!
