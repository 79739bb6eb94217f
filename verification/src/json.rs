//! The few `serde_json` calls that the library's models make.
use vstd::prelude::*;
use crate::keyed::{keys_unique, text_values, to_map};
use crate::text::opt_text;

verus! {

/// A JSON document as `serde_json` holds it.
#[verifier::external_type_specification]
#[verifier::external_body]
pub struct ExJsonValue(serde_json::Value);

/// The error `serde_json` reports for text that is not JSON of the expected shape.
#[verifier::external_type_specification]
#[verifier::external_body]
pub struct ExJsonError(serde_json::Error);

/// The compact JSON text of a document, as `serde_json::to_string` writes
/// it: the characters a document holds, one document to one text.
pub uninterp spec fn json_text_of(v: serde_json::Value) -> Seq<char>;

/// What `serde_json::from_str::<serde_json::Value>` makes of the text `s`:
/// the compact text of the document it reads, or `None` where it reports an
/// error.
pub uninterp spec fn json_document_text(s: Seq<char>) -> Option<Seq<char>>;

/// Whether `serde_json::from_str::<serde_json::Value>` accepts the text `s`.
pub open spec fn json_accepts(s: Seq<char>) -> bool {
    json_document_text(s) is Some
}

/// What `serde_json::Value::get` with the member name `key` finds in the
/// document whose compact text is `doc`: the compact text of the member, or
/// `None` for another kind of document or a missing member.
pub uninterp spec fn json_member_text(doc: Seq<char>, key: Seq<char>) -> Option<Seq<char>>;

/// What `serde_json::Value::as_str` gives for the document whose compact
/// text is `doc`: the string it is, or `None` for another kind of document.
pub uninterp spec fn json_string_text(doc: Seq<char>) -> Option<Seq<char>>;

/// What `serde_json::from_str::<Vec<String>>` gives for the text `s`: the
/// list of strings, or `None` where it reports an error.
pub uninterp spec fn json_string_list(s: Seq<char>) -> Option<Seq<Seq<char>>>;

/// `serde_json::from_str::<serde_json::Value>`: parses JSON text. The
/// document read is the one the name `json_document_text` gives for the
/// text; an error comes exactly where that name gives none.
#[verifier::external_body]
pub(crate) fn parse_json(s: &str) -> (r: Result<serde_json::Value, serde_json::Error>)
    ensures
        match r {
            Ok(v) => json_document_text(s@) == Some(json_text_of(v)),
            Err(_) => json_document_text(s@) is None,
        },
{
    serde_json::from_str::<serde_json::Value>(s)
}

/// `serde_json::Value::Object(serde_json::Map::new())`: an empty JSON
/// object, whose text is `{}`.
#[verifier::external_body]
pub(crate) fn empty_json_object() -> (r: serde_json::Value)
    ensures
        json_text_of(r) == seq!['{', '}'],
{
    serde_json::Value::Object(serde_json::Map::new())
}

/// `serde_json::to_string(..).unwrap_or_default()`: the compact JSON text
/// of a document (serialising a document never fails, so the default is
/// never taken).
#[verifier::external_body]
pub(crate) fn json_to_string(v: &serde_json::Value) -> (r: String)
    ensures
        r@ == json_text_of(*v),
{
    serde_json::to_string(v).unwrap_or_default()
}

/// `serde_json::from_str::<Vec<String>>`: reads a JSON array of strings.
/// The result is the name `json_string_list` applied to the text.
#[verifier::external_body]
pub(crate) fn parse_string_list(s: &str) -> (r: Result<Vec<String>, serde_json::Error>)
    ensures
        match r {
            Ok(v) => json_string_list(s@) == Some(v@.map_values(|x: String| x@)),
            Err(_) => json_string_list(s@) is None,
        },
{
    serde_json::from_str::<Vec<String>>(s)
}

/// `serde_json::to_string(&[String])`: the JSON text of a list of strings
/// (the empty string where serialization fails, which a list of strings
/// never does). The claim made of it is that reading the text back as a
/// list of strings gives the same strings: an array of JSON strings, each
/// escaped as the writer escapes it and unescaped by the reader.
#[verifier::external_body]
pub(crate) fn string_list_to_json(items: &[String]) -> (r: String)
    ensures
        json_string_list(r@) == Some(items@.map_values(|x: String| x@)),
{
    serde_json::to_string(items).unwrap_or_default()
}

/// What `serde_json::from_str::<BTreeMap<String, String>>` gives for the
/// text `s`: the object's members as a map from name to string value, or
/// `None` where it reports an error.
pub uninterp spec fn json_string_map(s: Seq<char>) -> Option<Map<Seq<char>, Seq<char>>>;

/// `serde_json::from_str::<BTreeMap<String, String>>`: reads a JSON object
/// whose members are strings. Its entries come back once each (a map has no
/// key twice), and the map they stand for is the name `json_string_map`
/// applied to the text.
#[verifier::external_body]
pub(crate) fn parse_string_map(s: &str) -> (r: Result<Vec<(String, String)>, serde_json::Error>)
    ensures
        match r {
            Ok(v) => keys_unique(v@) && json_string_map(s@) == Some(text_values(to_map(v@))),
            Err(_) => json_string_map(s@) is None,
        },
{
    serde_json::from_str::<std::collections::BTreeMap<String, String>>(s).map(|m| m.into_iter().collect())
}

/// `serde_json::to_string` of a map from strings to strings: the JSON object
/// text of the entries (the empty string where serialization fails, which
/// string members never make it do). The claim made of it is that reading
/// the text back as such a map gives the same members.
#[verifier::external_body]
pub(crate) fn string_map_to_json(entries: &[(String, String)]) -> (r: String)
    requires
        keys_unique(entries@),
    ensures
        json_string_map(r@) == Some(text_values(to_map(entries@))),
{
    let m: std::collections::BTreeMap<&String, &String> = entries.iter().map(|e| (&e.0, &e.1)).collect();
    serde_json::to_string(&m).unwrap_or_default()
}

/// `serde_json::Value::get` with a member name: the member `key` of an
/// object (`None` for another kind of document or a missing member), as
/// the name `json_member_text` gives it for the document's text.
#[verifier::external_body]
pub(crate) fn json_member<'a>(v: &'a serde_json::Value, key: &str) -> (r: Option<&'a serde_json::Value>)
    ensures
        match r {
            Some(m) => json_member_text(json_text_of(*v), key@) == Some(json_text_of(*m)),
            None => json_member_text(json_text_of(*v), key@) is None,
        },
{
    v.get(key)
}

/// `serde_json::Value::as_str`, copied into a `String`: the text of a JSON
/// string (`None` for another kind of document), as the name
/// `json_string_text` gives it for the document's text.
#[verifier::external_body]
pub(crate) fn json_as_string(v: &serde_json::Value) -> (r: Option<String>)
    ensures
        match r {
            Some(t) => json_string_text(json_text_of(*v)) == Some(t@),
            None => json_string_text(json_text_of(*v)) is None,
        },
{
    v.as_str().map(|s| s.to_owned())
}

/// The compact text of the JSON string holding `s`, as `serde_json` writes
/// a `serde_json::Value::String`.
pub uninterp spec fn json_string_value_text(s: Seq<char>) -> Seq<char>;

/// `serde_json::Value::String`: the JSON string holding `s`.
#[verifier::external_body]
pub(crate) fn json_string(s: &str) -> (r: serde_json::Value)
    ensures
        json_text_of(r) == json_string_value_text(s@),
{
    serde_json::Value::String(s.to_owned())
}

/// What `serde_json::Value::is_object` says of the document whose compact
/// text is `doc`.
pub uninterp spec fn json_object_text(doc: Seq<char>) -> bool;

/// `serde_json::Value::is_object`: whether a document is a JSON object.
#[verifier::external_body]
pub(crate) fn json_is_object(v: &serde_json::Value) -> (r: bool)
    ensures
        r == json_object_text(json_text_of(*v)),
{
    v.is_object()
}

/// What `serde_json::Map::insert` of the member `key` with the document
/// whose text is `val` makes of the object whose text is `doc`, by compact
/// texts (a document that is not an object is handed back as it is).
pub uninterp spec fn json_with_member_text(doc: Seq<char>, key: Seq<char>, val: Seq<char>) -> Seq<char>;

/// `serde_json::Map::insert` on the members of an object: sets member
/// `key` to `val`; a document that is not an object comes back unchanged.
#[verifier::external_body]
pub(crate) fn json_insert_member(v: serde_json::Value, key: &str, val: serde_json::Value) -> (r: serde_json::Value)
    ensures
        json_text_of(r) == json_with_member_text(json_text_of(v), key@, json_text_of(val)),
{
    match v {
        serde_json::Value::Object(mut m) => {
            m.insert(key.to_owned(), val);
            serde_json::Value::Object(m)
        },
        other => other,
    }
}

/// `serde_json::Value::clone`: a copy of a document, with the same text.
#[verifier::external_body]
pub(crate) fn json_clone(v: &serde_json::Value) -> (r: serde_json::Value)
    ensures
        json_text_of(r) == json_text_of(*v),
{
    v.clone()
}

/// What `serde_json::Value::is_null` says of the document whose compact
/// text is `doc`.
pub uninterp spec fn json_null_text(doc: Seq<char>) -> bool;

/// `serde_json::Value::is_null`: whether a document is JSON `null`.
#[verifier::external_body]
pub(crate) fn json_is_null(v: &serde_json::Value) -> (r: bool)
    ensures
        r == json_null_text(json_text_of(*v)),
{
    v.is_null()
}

/// What `serde_json::Value::as_bool` gives for the document whose compact
/// text is `doc`.
pub uninterp spec fn json_bool_text(doc: Seq<char>) -> Option<bool>;

/// `serde_json::Value::as_bool`: the boolean a document is, if it is one.
#[verifier::external_body]
pub(crate) fn json_as_bool(v: &serde_json::Value) -> (r: Option<bool>)
    ensures
        r == json_bool_text(json_text_of(*v)),
{
    v.as_bool()
}

/// What `serde_json::Value::as_u64` gives for the document whose compact
/// text is `doc`.
pub uninterp spec fn json_u64_text(doc: Seq<char>) -> Option<u64>;

/// `serde_json::Value::as_u64`: the unsigned integer a document is, if it
/// is one that fits.
#[verifier::external_body]
pub(crate) fn json_as_u64(v: &serde_json::Value) -> (r: Option<u64>)
    ensures
        r == json_u64_text(json_text_of(*v)),
{
    v.as_u64()
}

/// What `serde_json::Value::as_array` gives for the document whose compact
/// text is `doc`: the compact texts of its elements, in order, or `None`
/// for another kind of document.
pub uninterp spec fn json_array_text(doc: Seq<char>) -> Option<Seq<Seq<char>>>;

/// `serde_json::Value::as_array`, copied: the elements of a JSON array, in
/// order (`None` for another kind of document).
#[verifier::external_body]
pub(crate) fn json_array_items(v: &serde_json::Value) -> (r: Option<Vec<serde_json::Value>>)
    ensures
        match r {
            Some(items) => json_array_text(json_text_of(*v)) == Some(
                items@.map_values(|x: serde_json::Value| json_text_of(x)),
            ),
            None => json_array_text(json_text_of(*v)) is None,
        },
{
    v.as_array().map(|a| a.clone())
}

/// What `serde_json::Value::as_object` gives for the document whose
/// compact text is `doc`: its members' names and compact texts, in the
/// order the map keeps them, or `None` for another kind of document.
pub uninterp spec fn json_members_text(doc: Seq<char>) -> Option<Seq<(Seq<char>, Seq<char>)>>;

/// `serde_json::Value::as_object`, its members copied in the map's order
/// (`None` for another kind of document). A map holds each name once.
#[verifier::external_body]
pub(crate) fn json_object_members(v: &serde_json::Value) -> (r: Option<Vec<(String, serde_json::Value)>>)
    ensures
        match r {
            Some(ms) => keys_unique(ms@) && json_members_text(json_text_of(*v)) == Some(
                ms@.map_values(|m: (String, serde_json::Value)| (m.0@, json_text_of(m.1))),
            ),
            None => json_members_text(json_text_of(*v)) is None,
        },
{
    match v.as_object() {
        Some(m) => Some(m.iter().map(|(k, x)| (k.clone(), x.clone())).collect()),
        None => None,
    }
}

/// The string member `key` of the document `doc`: its text where the
/// member is there and is a string.
pub open spec fn string_member(doc: Seq<char>, key: Seq<char>) -> Option<Seq<char>> {
    match json_member_text(doc, key) {
        Some(m) => json_string_text(m),
        None => None,
    }
}

/// Reads the string member `key` of a document.
pub fn read_string_member(v: &serde_json::Value, key: &str) -> (r: Option<String>)
    ensures
        opt_text(r) == string_member(json_text_of(*v), key@),
{
    match json_member(v, key) {
        Some(m) => json_as_string(m),
        None => None,
    }
}

/// The boolean member `key` of the document `doc`.
pub open spec fn bool_member(doc: Seq<char>, key: Seq<char>) -> Option<bool> {
    match json_member_text(doc, key) {
        Some(m) => json_bool_text(m),
        None => None,
    }
}

/// Reads the boolean member `key` of a document.
pub fn read_bool_member(v: &serde_json::Value, key: &str) -> (r: Option<bool>)
    ensures
        r == bool_member(json_text_of(*v), key@),
{
    match json_member(v, key) {
        Some(m) => json_as_bool(m),
        None => None,
    }
}

/// The unsigned integer member `key` of the document `doc`.
pub open spec fn u64_member(doc: Seq<char>, key: Seq<char>) -> Option<u64> {
    match json_member_text(doc, key) {
        Some(m) => json_u64_text(m),
        None => None,
    }
}

/// Reads the unsigned integer member `key` of a document.
pub fn read_u64_member(v: &serde_json::Value, key: &str) -> (r: Option<u64>)
    ensures
        r == u64_member(json_text_of(*v), key@),
{
    match json_member(v, key) {
        Some(m) => json_as_u64(m),
        None => None,
    }
}

/// The member `key` of `doc` where it is there and is an object.
pub open spec fn object_member(doc: Seq<char>, key: Seq<char>) -> Option<Seq<char>> {
    match json_member_text(doc, key) {
        Some(m) => if json_object_text(m) {
            Some(m)
        } else {
            None
        },
        None => None,
    }
}

/// The texts of the string elements among `items`, in order.
pub open spec fn string_items(items: Seq<Seq<char>>) -> Seq<Seq<char>>
    decreases items.len(),
{
    if items.len() == 0 {
        Seq::empty()
    } else {
        match json_string_text(items.last()) {
            Some(t) => string_items(items.drop_last()).push(t),
            None => string_items(items.drop_last()),
        }
    }
}

/// The string elements of the array member `key` of `doc`, where that
/// member is an array.
pub open spec fn string_array_member(doc: Seq<char>, key: Seq<char>) -> Option<Seq<Seq<char>>> {
    match json_member_text(doc, key) {
        Some(m) => match json_array_text(m) {
            Some(items) => Some(string_items(items)),
            None => None,
        },
        None => None,
    }
}

/// Reads the string elements of the array member `key` of a document.
pub fn read_string_array_member(v: &serde_json::Value, key: &str) -> (r: Option<Vec<String>>)
    ensures
        match r {
            Some(a) => string_array_member(json_text_of(*v), key@) == Some(a@.map_values(|x: String| x@)),
            None => string_array_member(json_text_of(*v), key@) is None,
        },
{
    let m = match json_member(v, key) {
        Some(m) => m,
        None => {
            return None;
        },
    };
    let items = match json_array_items(m) {
        Some(items) => items,
        None => {
            return None;
        },
    };
    let ghost texts = items@.map_values(|x: serde_json::Value| json_text_of(x));
    let mut out: Vec<String> = Vec::new();
    let mut i: usize = 0;
    while i < items.len()
        invariant
            i <= items@.len(),
            texts == items@.map_values(|x: serde_json::Value| json_text_of(x)),
            out@.map_values(|x: String| x@) == string_items(texts.take(i as int)),
        decreases items@.len() - i,
    {
        assert(texts.take(i + 1).drop_last() =~= texts.take(i as int));
        assert(texts.take(i + 1).last() == json_text_of(items@[i as int]));
        match json_as_string(&items[i]) {
            Some(t) => {
                let ghost before = out@;
                out.push(t);
                assert(out@.map_values(|x: String| x@) =~= before.map_values(|x: String| x@).push(out@.last()@));
            },
            None => {},
        }
        i += 1;
    }
    assert(texts.take(items@.len() as int) =~= texts);
    Some(out)
}

/// The members among `ms` whose values are strings, with those strings, in
/// order.
pub open spec fn string_pairs(ms: Seq<(Seq<char>, Seq<char>)>) -> Seq<(Seq<char>, Seq<char>)>
    decreases ms.len(),
{
    if ms.len() == 0 {
        Seq::empty()
    } else {
        match json_string_text(ms.last().1) {
            Some(t) => string_pairs(ms.drop_last()).push((ms.last().0, t)),
            None => string_pairs(ms.drop_last()),
        }
    }
}

/// The string-valued members of the object member `key` of `doc`, where
/// that member is an object.
pub open spec fn string_pairs_member(doc: Seq<char>, key: Seq<char>) -> Option<Seq<(Seq<char>, Seq<char>)>> {
    match json_member_text(doc, key) {
        Some(m) => match json_members_text(m) {
            Some(ms) => Some(string_pairs(ms)),
            None => None,
        },
        None => None,
    }
}

/// Pairs of strings read as pairs of their characters.
pub open spec fn pair_views(p: Seq<(String, String)>) -> Seq<(Seq<char>, Seq<char>)> {
    p.map_values(|x: (String, String)| (x.0@, x.1@))
}

/// The string-valued members of an object, in the map's order.
pub fn string_members(v: &serde_json::Value) -> (r: Option<Vec<(String, String)>>)
    ensures
        match r {
            Some(p) => json_members_text(json_text_of(*v)) matches Some(ms) && pair_views(p@) == string_pairs(ms),
            None => json_members_text(json_text_of(*v)) is None,
        },
{
    let ms = match json_object_members(v) {
        Some(ms) => ms,
        None => {
            return None;
        },
    };
    let ghost texts = ms@.map_values(|m: (String, serde_json::Value)| (m.0@, json_text_of(m.1)));
    let mut out: Vec<(String, String)> = Vec::new();
    let mut i: usize = 0;
    while i < ms.len()
        invariant
            i <= ms@.len(),
            texts == ms@.map_values(|m: (String, serde_json::Value)| (m.0@, json_text_of(m.1))),
            pair_views(out@) == string_pairs(texts.take(i as int)),
        decreases ms@.len() - i,
    {
        assert(texts.take(i + 1).drop_last() =~= texts.take(i as int));
        assert(texts.take(i + 1).last() == (ms@[i as int].0@, json_text_of(ms@[i as int].1)));
        match json_as_string(&ms[i].1) {
            Some(t) => {
                let ghost before = out@;
                out.push((ms[i].0.clone(), t));
                assert(pair_views(out@) =~= pair_views(before).push((ms@[i as int].0@, out@.last().1@)));
            },
            None => {},
        }
        i += 1;
    }
    assert(texts.take(ms@.len() as int) =~= texts);
    Some(out)
}

/// Reads the string-valued members of the object member `key` of a
/// document.
pub fn read_string_pairs_member(v: &serde_json::Value, key: &str) -> (r: Option<Vec<(String, String)>>)
    ensures
        match r {
            Some(p) => string_pairs_member(json_text_of(*v), key@) == Some(pair_views(p@)),
            None => string_pairs_member(json_text_of(*v), key@) is None,
        },
{
    match json_member(v, key) {
        Some(m) => string_members(m),
        None => None,
    }
}

} // verus!
