//! A tolerant, untyped JSON tree and the navigation helpers the extractors
//! use. Every accessor returns a typed default instead of failing, so the
//! tolerance policy of the extraction layer is centralized here.
//!
//! Numbers are restricted to unsigned integers: every numeric leaf this
//! engine reads (organization id, board number) is documented as unsigned,
//! and a leaf outside that range is treated as absent.

use vstd::prelude::*;

verus! {

/// An untyped JSON document. Object members keep their insertion order;
/// lookup takes the first member with a matching key.
#[derive(Debug, PartialEq, Eq)]
pub enum JsonValue {
    Null,
    Bool(bool),
    UInt(u64),
    Str(String),
    Arr(Vec<JsonValue>),
    Obj(Vec<(String, JsonValue)>),
}

/// The member of `pairs` whose key is `key`, first match first, `Null` if
/// no key matches.
pub open spec fn lookup_pairs(pairs: Seq<(String, JsonValue)>, key: Seq<char>) -> JsonValue
    decreases pairs.len(),
{
    if pairs.len() == 0 {
        JsonValue::Null
    } else if pairs[0].0@ == key {
        pairs[0].1
    } else {
        lookup_pairs(pairs.drop_first(), key)
    }
}

/// Member lookup with the tolerant default: anything but an object, and an
/// object without the key, yields `Null`.
pub open spec fn spec_get(v: JsonValue, key: Seq<char>) -> JsonValue {
    match v {
        JsonValue::Obj(pairs) => lookup_pairs(pairs@, key),
        _ => JsonValue::Null,
    }
}

/// The characters of a string leaf, if `v` is one.
pub open spec fn spec_str(v: JsonValue) -> Option<Seq<char>> {
    match v {
        JsonValue::Str(s) => Some(s@),
        _ => None,
    }
}

/// The characters of a string leaf, defaulting to the empty string.
pub open spec fn spec_str_or_empty(v: JsonValue) -> Seq<char> {
    match v {
        JsonValue::Str(s) => s@,
        _ => Seq::empty(),
    }
}

/// The elements of an array node, if `v` is one.
pub open spec fn spec_arr(v: JsonValue) -> Option<Seq<JsonValue>> {
    match v {
        JsonValue::Arr(a) => Some(a@),
        _ => None,
    }
}

/// The elements of an array node, defaulting to no elements.
pub open spec fn spec_arr_or_empty(v: JsonValue) -> Seq<JsonValue> {
    match v {
        JsonValue::Arr(a) => a@,
        _ => Seq::empty(),
    }
}

/// The value of an unsigned-integer leaf, if `v` is one.
pub open spec fn spec_u64(v: JsonValue) -> Option<u64> {
    match v {
        JsonValue::UInt(n) => Some(n),
        _ => None,
    }
}

/// Whether an object member carries the given key and the given string
/// value; request builders state their output with it.
pub open spec fn is_str_entry(pair: (String, JsonValue), key: Seq<char>, val: Seq<char>) -> bool {
    &&& pair.0@ == key
    &&& spec_str(pair.1) == Some(val)
}

/// The node an optional reference stands for: a missing node reads as `Null`.
pub open spec fn opt_val(r: Option<&JsonValue>) -> JsonValue {
    match r {
        Some(v) => *v,
        None => JsonValue::Null,
    }
}

/// Whether two string slices hold the same characters.
pub fn str_eq(a: &str, b: &str) -> (r: bool)
    ensures
        r == (a@ == b@),
{
    let sa: String = a.to_owned();
    let sb: String = b.to_owned();
    sa == sb
}

impl JsonValue {
    /// Whether this node is the JSON null.
    pub fn is_null(&self) -> (r: bool)
        ensures
            r == (*self is Null),
    {
        match self {
            JsonValue::Null => true,
            _ => false,
        }
    }

    /// Object member lookup; `None` both when the key is absent and when
    /// this node is not an object, matching `spec_get`'s `Null` default.
    pub fn get<'a>(&'a self, key: &str) -> (r: Option<&'a JsonValue>)
        ensures
            opt_val(r) == spec_get(*self, key@),
    {
        match self {
            JsonValue::Obj(pairs) => {
                let n = pairs.len();
                let mut i: usize = 0;
                proof {
                    assert(pairs@.skip(0) =~= pairs@);
                }
                while i < n
                    invariant
                        i <= n,
                        n == pairs@.len(),
                        spec_get(*self, key@) == lookup_pairs(pairs@, key@),
                        lookup_pairs(pairs@, key@) == lookup_pairs(pairs@.skip(i as int), key@),
                    decreases n - i,
                {
                    let hit = str_eq(pairs[i].0.as_str(), key);
                    proof {
                        assert(pairs@.skip(i as int)[0] == pairs@[i as int]);
                        assert(pairs@.skip(i as int).drop_first() =~= pairs@.skip(i + 1));
                    }
                    if hit {
                        proof {
                            assert(lookup_pairs(pairs@.skip(i as int), key@) == pairs@[i as int].1);
                        }
                        return Some(&pairs[i].1);
                    }
                    i = i + 1;
                }
                proof {
                    assert(pairs@.skip(n as int) =~= Seq::<(String, JsonValue)>::empty());
                }
                None
            },
            _ => None,
        }
    }

    /// The elements of an array node.
    pub fn as_arr<'a>(&'a self) -> (r: Option<&'a Vec<JsonValue>>)
        ensures
            match r {
                Some(a) => spec_arr(*self) == Some(a@),
                None => spec_arr(*self) is None,
            },
    {
        match self {
            JsonValue::Arr(a) => Some(a),
            _ => None,
        }
    }

    /// The owned text of a string leaf.
    pub fn as_string(&self) -> (r: Option<String>)
        ensures
            match r {
                Some(s) => spec_str(*self) == Some(s@),
                None => spec_str(*self) is None,
            },
    {
        match self {
            JsonValue::Str(s) => Some(s.clone()),
            _ => None,
        }
    }

    /// The text of a string leaf, defaulting to the empty string.
    pub fn str_or_empty(&self) -> (r: String)
        ensures
            r@ == spec_str_or_empty(*self),
    {
        match self {
            JsonValue::Str(s) => s.clone(),
            _ => String::new(),
        }
    }

    /// The value of an unsigned-integer leaf.
    pub fn as_u64(&self) -> (r: Option<u64>)
        ensures
            r == spec_u64(*self),
    {
        match self {
            JsonValue::UInt(n) => Some(*n),
            _ => None,
        }
    }
}

/// Member lookup lifted to optional references, so that nested paths chain
/// without intermediate matches.
pub fn get_in<'a>(v: Option<&'a JsonValue>, key: &str) -> (r: Option<&'a JsonValue>)
    ensures
        opt_val(r) == spec_get(opt_val(v), key@),
{
    match v {
        Some(x) => x.get(key),
        None => None,
    }
}

/// Array access lifted to optional references.
pub fn arr_in<'a>(v: Option<&'a JsonValue>) -> (r: Option<&'a Vec<JsonValue>>)
    ensures
        match r {
            Some(a) => spec_arr(opt_val(v)) == Some(a@),
            None => spec_arr(opt_val(v)) is None,
        },
{
    match v {
        Some(x) => x.as_arr(),
        None => None,
    }
}

/// String access with the empty default, lifted to optional references.
pub fn str_or_empty_in(v: Option<&JsonValue>) -> (r: String)
    ensures
        r@ == spec_str_or_empty(opt_val(v)),
{
    match v {
        Some(x) => x.str_or_empty(),
        None => String::new(),
    }
}

/// Optional string access, lifted to optional references.
pub fn str_in(v: Option<&JsonValue>) -> (r: Option<String>)
    ensures
        match r {
            Some(s) => spec_str(opt_val(v)) == Some(s@),
            None => spec_str(opt_val(v)) is None,
        },
{
    match v {
        Some(x) => x.as_string(),
        None => None,
    }
}

/// Unsigned-integer access, lifted to optional references.
pub fn u64_in(v: Option<&JsonValue>) -> (r: Option<u64>)
    ensures
        r == spec_u64(opt_val(v)),
{
    match v {
        Some(x) => x.as_u64(),
        None => None,
    }
}

/// Null test lifted to optional references: a missing node reads as null.
pub fn is_null_in(v: Option<&JsonValue>) -> (r: bool)
    ensures
        r == (opt_val(v) is Null),
{
    match v {
        Some(x) => x.is_null(),
        None => true,
    }
}

} // verus!
