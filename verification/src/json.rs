//! Trusted boundary around `serde_json`: the generic JSON value type, names
//! for what a value holds, and thin wrappers over the accessors the manifest
//! codec uses.  Everything below the wrappers is verified against these
//! contracts.

use vstd::prelude::*;

verus! {

#[verifier::external_type_specification]
#[verifier::external_body]
pub struct ExValue(serde_json::Value);

/// The members of a JSON object value, keyed by member name.  Meaningful
/// only when [`json_is_object`] holds of the value.
pub uninterp spec fn json_entries(v: serde_json::Value) -> Map<Seq<char>, serde_json::Value>;

/// Whether a JSON value is an object; relied on from `serde_json::Value::is_object`.
pub uninterp spec fn json_is_object(v: serde_json::Value) -> bool;

/// The character content of a JSON string value, `None` for every other
/// kind; relied on from `serde_json::Value::as_str`.
pub uninterp spec fn json_str(v: serde_json::Value) -> Option<Seq<char>>;

/// The elements of a JSON array value, `None` for every other kind; relied
/// on from `serde_json::Value::as_array`.
pub uninterp spec fn json_arr(v: serde_json::Value) -> Option<Seq<serde_json::Value>>;

/// The JSON value that a text parses to, `None` when the text is not valid
/// JSON; the result of `serde_json::from_str` depends on the text alone.
pub uninterp spec fn parsed_json(s: Seq<char>) -> Option<serde_json::Value>;

/// The indented rendering of a JSON value; the result of
/// `serde_json::to_string_pretty` depends on the value alone.
pub uninterp spec fn pretty_json(v: serde_json::Value) -> Seq<char>;

/// Relies on serde_json::from_str: parses JSON text into a generic value;
/// the error is carried as its message.
#[verifier::external_body]
pub fn json_parse(s: &str) -> (r: Result<serde_json::Value, String>)
    ensures
        match r {
            Ok(v) => parsed_json(s@) == Some(v),
            Err(_) => parsed_json(s@) is None,
        },
{
    match serde_json::from_str(s) {
        Ok(v) => Ok(v),
        Err(e) => Err(e.to_string()),
    }
}

/// Relies on serde_json::to_string_pretty: renders a value as indented JSON
/// text.  Its documented failure cases are a `Serialize` impl that decides
/// to fail and a map with non-string keys; neither can arise for `Value`,
/// so the unreachable arm is absorbed here.
#[verifier::external_body]
pub fn json_pretty(v: &serde_json::Value) -> (r: String)
    ensures
        r@ == pretty_json(*v),
{
    serde_json::to_string_pretty(v).unwrap_or(String::new())
}

/// The member map of an object with no members.
pub open spec fn no_entries() -> Map<Seq<char>, serde_json::Value> {
    Map::empty()
}

/// Relies on serde_json::Map::new and the Value::Object constructor: a fresh
/// object with no members.
#[verifier::external_body]
pub fn json_new_object() -> (r: serde_json::Value)
    ensures
        json_is_object(r),
        json_entries(r) == no_entries(),
        json_str(r) is None,
        json_arr(r) is None,
{
    serde_json::Value::Object(serde_json::Map::new())
}

/// Relies on the Value::String constructor.
#[verifier::external_body]
pub fn json_string(s: &str) -> (r: serde_json::Value)
    ensures
        json_str(r) == Some(s@),
        !json_is_object(r),
        json_arr(r) is None,
{
    serde_json::Value::String(s.to_owned())
}

/// Relies on the Value::Array constructor.
#[verifier::external_body]
pub fn json_array(items: Vec<serde_json::Value>) -> (r: serde_json::Value)
    ensures
        json_arr(r) == Some(items@),
        !json_is_object(r),
        json_str(r) is None,
{
    serde_json::Value::Array(items)
}

/// Relies on serde_json::Value::is_object.
#[verifier::external_body]
pub fn json_is_obj(v: &serde_json::Value) -> (r: bool)
    ensures
        r == json_is_object(*v),
{
    v.is_object()
}

/// Relies on serde_json::Value::as_str.
#[verifier::external_body]
pub fn json_as_str<'a>(v: &'a serde_json::Value) -> (r: Option<&'a str>)
    ensures
        match r {
            Some(s) => json_str(*v) == Some(s@),
            None => json_str(*v) is None,
        },
{
    v.as_str()
}

/// Relies on serde_json::Value::as_array.
#[verifier::external_body]
pub fn json_as_array<'a>(v: &'a serde_json::Value) -> (r: Option<&'a Vec<serde_json::Value>>)
    ensures
        match r {
            Some(a) => json_arr(*v) == Some(a@),
            None => json_arr(*v) is None,
        },
{
    v.as_array()
}

/// Relies on serde_json::Value::get with a string index: member lookup on an
/// object, `None` on every other kind.
#[verifier::external_body]
pub fn json_get<'a>(v: &'a serde_json::Value, key: &str) -> (r: Option<&'a serde_json::Value>)
    ensures
        match r {
            Some(x) => json_is_object(*v) && json_entries(*v).dom().contains(key@) && *x
                == json_entries(*v)[key@],
            None => !(json_is_object(*v) && json_entries(*v).dom().contains(key@)),
        },
{
    v.get(key)
}

/// Relies on serde_json::Map::insert through Value::as_object_mut: sets a
/// member of an object, returning the member it replaced.
#[verifier::external_body]
pub fn json_insert(v: &mut serde_json::Value, key: &str, val: serde_json::Value) -> (r: Option<
    serde_json::Value,
>)
    requires
        json_is_object(*old(v)),
    ensures
        json_is_object(*final(v)),
        json_entries(*final(v)) == json_entries(*old(v)).insert(key@, val),
        match r {
            Some(x) => json_entries(*old(v)).dom().contains(key@) && x == json_entries(*old(v))[key@],
            None => !json_entries(*old(v)).dom().contains(key@),
        },
{
    match v.as_object_mut() {
        Some(m) => m.insert(key.to_owned(), val),
        None => None,
    }
}

/// Relies on serde_json::Map::remove through Value::as_object_mut: takes a
/// member out of an object and hands it back.
#[verifier::external_body]
pub fn json_remove(v: &mut serde_json::Value, key: &str) -> (r: Option<serde_json::Value>)
    requires
        json_is_object(*old(v)),
    ensures
        json_is_object(*final(v)),
        json_entries(*final(v)) == json_entries(*old(v)).remove(key@),
        match r {
            Some(x) => json_entries(*old(v)).dom().contains(key@) && x == json_entries(*old(v))[key@],
            None => !json_entries(*old(v)).dom().contains(key@),
        },
{
    match v.as_object_mut() {
        Some(m) => m.remove(key),
        None => None,
    }
}

/// Relies on serde_json::Map::iter through Value::as_object: the members of
/// an object, each key paired with its value, every key exactly once.
#[verifier::external_body]
pub fn json_object_entries<'a>(v: &'a serde_json::Value) -> (r: Vec<
    (&'a String, &'a serde_json::Value),
>)
    requires
        json_is_object(*v),
    ensures
        forall|i: int|
            0 <= i < r@.len() ==> json_entries(*v).contains_pair(
                (#[trigger] r@[i]).0@,
                *r@[i].1,
            ),
        forall|i: int, j: int| 0 <= i < j < r@.len() ==> (#[trigger] r@[i]).0@ != (#[trigger] r@[j]).0@,
        forall|k: Seq<char>|
            json_entries(*v).dom().contains(k) ==> exists|i: int|
                0 <= i < r@.len() && (#[trigger] r@[i]).0@ == k,
{
    match v.as_object() {
        Some(m) => m.iter().collect(),
        None => Vec::new(),
    }
}

} // verus!
