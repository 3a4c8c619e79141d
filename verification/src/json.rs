//! A JSON document as the report parsers read it, and the lookups they make on it.
//!
//! An object keeps its entries in the order in which its map yields them; a lookup
//! by key finds the first entry with that key.

use vstd::prelude::*;
use crate::text::{decimal, decimal_string};

verus! {

/// A JSON number: an integer that is not negative, a negative integer, or a number
/// with a fraction or an exponent.
#[derive(Debug, Clone, Copy, PartialEq, Eq, Structural)]
pub enum JsonNumber {
    Unsigned(u64),
    Negative(i64),
    Fraction,
}

/// A JSON value.
#[derive(Debug)]
pub enum Json {
    Null,
    Bool(bool),
    Number(JsonNumber),
    Str(String),
    Array(Vec<Json>),
    Object(Vec<(String, Json)>),
}

/// An optional reference, as the value it refers to.
pub open spec fn opt(o: Option<&Json>) -> Option<Json> {
    match o {
        Some(j) => Some(*j),
        None => None,
    }
}

/// The value of the first entry with key `key`.
pub open spec fn lookup(entries: Seq<(String, Json)>, key: Seq<char>) -> Option<Json>
    decreases entries.len(),
{
    if entries.len() == 0 {
        None
    } else if entries[0].0@ == key {
        Some(entries[0].1)
    } else {
        lookup(entries.drop_first(), key)
    }
}

/// `j.get(key)`: the member `key` of an object; nothing for any other value.
pub open spec fn field(j: Option<Json>, key: Seq<char>) -> Option<Json> {
    match j {
        Some(Json::Object(entries)) => lookup(entries@, key),
        _ => None,
    }
}

/// `j.get(i)`: element `i` of an array; nothing for any other value or index.
pub open spec fn item(j: Option<Json>, i: int) -> Option<Json> {
    match j {
        Some(Json::Array(items)) => if 0 <= i < items@.len() {
            Some(items@[i])
        } else {
            None
        },
        _ => None,
    }
}

/// `items.get(i)` on a list of values.
pub open spec fn slot(items: Seq<Json>, i: int) -> Option<Json> {
    if 0 <= i < items.len() {
        Some(items[i])
    } else {
        None
    }
}

/// `j.as_array()`.
pub open spec fn array_items(j: Option<Json>) -> Option<Seq<Json>> {
    match j {
        Some(Json::Array(items)) => Some(items@),
        _ => None,
    }
}

/// `j.as_array()`, an empty list where `j` is no array.
pub open spec fn items_or_empty(j: Option<Json>) -> Seq<Json> {
    match array_items(j) {
        Some(items) => items,
        None => Seq::<Json>::empty(),
    }
}

/// `j.as_object()`: the entries of an object.
pub open spec fn object_entries(j: Option<Json>) -> Option<Seq<(String, Json)>> {
    match j {
        Some(Json::Object(entries)) => Some(entries@),
        _ => None,
    }
}

/// `j.as_str().unwrap_or("")`.
pub open spec fn text_or_empty(j: Option<Json>) -> Seq<char> {
    match j {
        Some(Json::Str(s)) => s@,
        _ => Seq::<char>::empty(),
    }
}

/// `j.as_u64().unwrap_or(0)`.
pub open spec fn unsigned_or_zero(j: Option<Json>) -> u64 {
    match j {
        Some(Json::Number(JsonNumber::Unsigned(n))) => n,
        _ => 0,
    }
}

/// The decimal numeral of `j.as_u64().unwrap_or(0)`.
pub open spec fn unsigned_text(j: Option<Json>) -> Seq<char> {
    decimal(unsigned_or_zero(j) as nat)
}

/// The value of the first entry with key `key`.
pub fn lookup_entry<'a>(entries: &'a Vec<(String, Json)>, key: &str) -> (res: Option<&'a Json>)
    ensures
        opt(res) == lookup(entries@, key@),
{
    let k = String::from_str(key);
    let n = entries.len();
    let mut i: usize = 0;
    assert(entries@.skip(0) =~= entries@);
    while i < n
        invariant
            n == entries@.len(),
            i <= n,
            k@ == key@,
            lookup(entries@, key@) == lookup(entries@.skip(i as int), key@),
        decreases n - i,
    {
        assert(entries@.skip(i as int)[0] == entries@[i as int]);
        assert(entries@.skip(i as int).drop_first() =~= entries@.skip(i + 1));
        if entries[i].0 == k {
            return Some(&entries[i].1);
        }
        i = i + 1;
    }
    None
}

/// `j.and_then(|v| v.get(key))`.
pub fn get_field<'a>(j: Option<&'a Json>, key: &str) -> (res: Option<&'a Json>)
    ensures
        opt(res) == field(opt(j), key@),
{
    match j {
        Some(Json::Object(entries)) => lookup_entry(entries, key),
        _ => None,
    }
}

/// `j.and_then(|v| v.get(i))` for an index into an array.
pub fn get_item<'a>(j: Option<&'a Json>, i: usize) -> (res: Option<&'a Json>)
    ensures
        opt(res) == item(opt(j), i as int),
{
    match j {
        Some(Json::Array(items)) => {
            if i < items.len() {
                Some(&items[i])
            } else {
                None
            }
        },
        _ => None,
    }
}

/// `items.get(i)` on a list of values.
pub fn get_slot<'a>(items: &'a Vec<Json>, i: usize) -> (res: Option<&'a Json>)
    ensures
        opt(res) == slot(items@, i as int),
{
    if i < items.len() {
        Some(&items[i])
    } else {
        None
    }
}

/// `j.and_then(|v| v.as_array())`.
pub fn get_array<'a>(j: Option<&'a Json>) -> (res: Option<&'a Vec<Json>>)
    ensures
        res is Some <==> array_items(opt(j)) is Some,
        res matches Some(items) ==> items@ == array_items(opt(j))->0,
{
    match j {
        Some(Json::Array(items)) => Some(items),
        _ => None,
    }
}

/// `j.and_then(|v| v.as_object())`.
pub fn get_object<'a>(j: Option<&'a Json>) -> (res: Option<&'a Vec<(String, Json)>>)
    ensures
        res is Some <==> object_entries(opt(j)) is Some,
        res matches Some(entries) ==> entries@ == object_entries(opt(j))->0,
{
    match j {
        Some(Json::Object(entries)) => Some(entries),
        _ => None,
    }
}

/// `j.and_then(|v| v.as_str()).unwrap_or("")`.
pub fn text_of(j: Option<&Json>) -> (res: String)
    ensures
        res@ == text_or_empty(opt(j)),
{
    match j {
        Some(Json::Str(s)) => s.clone(),
        _ => String::new(),
    }
}

/// The decimal numeral of `j.and_then(|v| v.as_u64()).unwrap_or(0)`.
pub fn unsigned_text_of(j: Option<&Json>) -> (res: String)
    ensures
        res@ == unsigned_text(opt(j)),
{
    let n: u64 = match j {
        Some(Json::Number(JsonNumber::Unsigned(n))) => *n,
        _ => 0,
    };
    decimal_string(n)
}

} // verus!
