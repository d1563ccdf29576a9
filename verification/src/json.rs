use vstd::prelude::*;
use crate::shape::opt_text;

verus! {

/// A JSON number, kept as far as the dashboard reads it.
#[derive(Debug, Clone, PartialEq, Eq)]
pub enum JsonNumber {
    /// A whole number in `0..=u64::MAX`.
    PosInt(u64),
    /// A whole number below zero.
    NegInt(i64),
    /// Any other number (with a fraction or an exponent).
    Float,
}

/// A JSON document as the Databricks CLI prints it. Object members are kept
/// in the order the reader hands them over (serde_json sorts them by name);
/// where a name occurs twice, the first member counts.
#[derive(Debug)]
pub enum Json {
    Null,
    Bool(bool),
    Number(JsonNumber),
    String(String),
    Array(Vec<Json>),
    Object(Vec<(String, Json)>),
}

/// The value of the first member named `key`, if any.
pub open spec fn lookup(fields: Seq<(String, Json)>, key: Seq<char>) -> Option<Json>
    decreases fields.len(),
{
    if fields.len() == 0 {
        None
    } else if fields[0].0@ == key {
        Some(fields[0].1)
    } else {
        lookup(fields.drop_first(), key)
    }
}

/// The member `key` of an object; `None` for a missing member or a value that
/// is not an object.
pub open spec fn member(j: Json, key: Seq<char>) -> Option<Json> {
    match j {
        Json::Object(fields) => lookup(fields@, key),
        _ => None,
    }
}

/// `j[key]`: the member `key` of an object, and `null` where there is none.
pub open spec fn field(j: Json, key: Seq<char>) -> Json {
    match member(j, key) {
        Some(v) => v,
        None => Json::Null,
    }
}

/// The text of a JSON string.
pub open spec fn text_of(j: Json) -> Option<Seq<char>> {
    match j {
        Json::String(s) => Some(s@),
        _ => None,
    }
}

/// The elements of a JSON array.
pub open spec fn array_of(j: Json) -> Option<Seq<Json>> {
    match j {
        Json::Array(items) => Some(items@),
        _ => None,
    }
}

/// The value of a JSON number that is a whole number in `0..=u64::MAX`.
pub open spec fn u64_of(j: Json) -> Option<u64> {
    match j {
        Json::Number(JsonNumber::PosInt(n)) => Some(n),
        _ => None,
    }
}

/// The elements of a JSON array; no elements for any other value.
pub open spec fn elements(j: Json) -> Seq<Json> {
    match array_of(j) {
        Some(items) => items,
        None => Seq::empty(),
    }
}

/// The text of the string member `key`, or `default` where there is none.
pub open spec fn text_or(j: Json, key: Seq<char>, default: Seq<char>) -> Seq<char> {
    match text_of(field(j, key)) {
        Some(t) => t,
        None => default,
    }
}

/// The view of an optional string slice.
pub open spec fn opt_str(o: Option<&str>) -> Option<Seq<char>> {
    match o {
        Some(s) => Some(s@),
        None => None,
    }
}

fn lookup_in<'a>(fields: &'a Vec<(String, Json)>, key: &str) -> (r: Option<&'a Json>)
    ensures
        match r {
            Some(v) => lookup(fields@, key@) == Some(*v),
            None => lookup(fields@, key@) is None,
        },
{
    let wanted = key.to_owned();
    let n = fields.len();
    let mut i: usize = 0;
    assert(fields@.skip(0) =~= fields@);
    while i < n
        invariant
            n == fields@.len(),
            i <= n,
            wanted@ == key@,
            lookup(fields@, key@) == lookup(fields@.skip(i as int), key@),
        decreases n - i,
    {
        assert(fields@.skip(i as int).drop_first() =~= fields@.skip(i + 1));
        assert(fields@.skip(i as int)[0] == fields@[i as int]);
        if fields[i].0 == wanted {
            return Some(&fields[i].1);
        }
        i = i + 1;
    }
    None
}

impl Json {
    /// `self[key]` where that member exists: the member `key` of an object.
    pub fn get(&self, key: &str) -> (r: Option<&Json>)
        ensures
            match r {
                Some(v) => member(*self, key@) == Some(*v),
                None => member(*self, key@) is None,
            },
    {
        match self {
            Json::Object(fields) => lookup_in(fields, key),
            _ => None,
        }
    }

    /// The text of a JSON string.
    pub fn as_str(&self) -> (r: Option<&str>)
        ensures
            opt_str(r) == text_of(*self),
    {
        match self {
            Json::String(s) => Some(s.as_str()),
            _ => None,
        }
    }

    /// The elements of a JSON array.
    pub fn as_array(&self) -> (r: Option<&Vec<Json>>)
        ensures
            match r {
                Some(v) => array_of(*self) == Some(v@),
                None => array_of(*self) is None,
            },
    {
        match self {
            Json::Array(items) => Some(items),
            _ => None,
        }
    }

    /// The value of a whole number in `0..=u64::MAX`.
    pub fn as_u64(&self) -> (r: Option<u64>)
        ensures
            r == u64_of(*self),
    {
        match self {
            Json::Number(JsonNumber::PosInt(n)) => Some(*n),
            _ => None,
        }
    }

    /// The text of the string member `key`.
    pub fn text_at(&self, key: &str) -> (r: Option<&str>)
        ensures
            opt_str(r) == text_of(field(*self, key@)),
    {
        match self.get(key) {
            Some(v) => v.as_str(),
            None => None,
        }
    }
}

/// The text of `o`, or `default` where there is none.
pub open spec fn or_default(o: Option<Seq<char>>, default: Seq<char>) -> Seq<char> {
    match o {
        Some(t) => t,
        None => default,
    }
}

/// The given text, or `default` where there is none (borrowed).
pub fn str_or<'a>(o: Option<&'a str>, default: &'a str) -> (r: &'a str)
    ensures
        r@ == or_default(opt_str(o), default@),
{
    match o {
        Some(t) => t,
        None => default,
    }
}

/// The given text, or `default` where there is none (owned).
pub fn owned_or(o: Option<&str>, default: &str) -> (r: String)
    ensures
        r@ == or_default(opt_str(o), default@),
{
    str_or(o, default).to_owned()
}

/// An owned copy of optional text.
pub fn owned(o: Option<&str>) -> (r: Option<String>)
    ensures
        opt_text(r) == opt_str(o),
{
    match o {
        Some(t) => Some(t.to_owned()),
        None => None,
    }
}

} // verus!
