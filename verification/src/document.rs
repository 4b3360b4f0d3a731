//! Access to the fields of a BSON document, through the `bson` crate.
//!
//! A document is held as `bson::Document`; what this library reads of it is
//! named by [`document_entries`]: each key mapped to the part of its value that
//! the readers below can see.

use vstd::prelude::*;

verus! {

#[verifier::external_type_specification]
#[verifier::external_body]
pub struct ExDocument(bson::Document);

/// The value stored under a key of a document, as far as this library reads it.
pub enum FieldValue {
    /// A 32-bit integer.
    Int32(i32),
    /// A UTF-8 string.
    Text(Seq<char>),
    /// An object id, by its twelve bytes.
    ObjectId(Seq<u8>),
    /// An array; each element is the bytes of an object id, or `None` for an
    /// element of any other kind.
    Array(Seq<Option<Seq<u8>>>),
    /// A value of any other kind.
    Other,
}

/// What the document holds: each of its keys with the value stored there.
pub uninterp spec fn document_entries(doc: bson::Document) -> Map<Seq<char>, FieldValue>;

/// The integer stored under `key`, if there is one.
pub open spec fn entry_i32(entries: Map<Seq<char>, FieldValue>, key: Seq<char>) -> Option<i32> {
    if entries.contains_key(key) {
        match entries[key] {
            FieldValue::Int32(v) => Some(v),
            _ => None,
        }
    } else {
        None
    }
}

/// The string stored under `key`, if there is one.
pub open spec fn entry_text(entries: Map<Seq<char>, FieldValue>, key: Seq<char>) -> Option<Seq<char>> {
    if entries.contains_key(key) {
        match entries[key] {
            FieldValue::Text(s) => Some(s),
            _ => None,
        }
    } else {
        None
    }
}

/// The object id stored under `key`, if there is one.
pub open spec fn entry_object_id(entries: Map<Seq<char>, FieldValue>, key: Seq<char>) -> Option<Seq<u8>> {
    if entries.contains_key(key) {
        match entries[key] {
            FieldValue::ObjectId(b) => Some(b),
            _ => None,
        }
    } else {
        None
    }
}

/// The array stored under `key`, if there is one.
pub open spec fn entry_array(entries: Map<Seq<char>, FieldValue>, key: Seq<char>) -> Option<Seq<Option<Seq<u8>>>> {
    if entries.contains_key(key) {
        match entries[key] {
            FieldValue::Array(a) => Some(a),
            _ => None,
        }
    } else {
        None
    }
}

/// Calls `bson::Document::get_i32`, which gives the value under `key` when it
/// is an `Int32` and an error when the key is absent or holds another kind;
/// the error is dropped here.
#[verifier::external_body]
pub(crate) fn document_get_i32(doc: &bson::Document, key: &str) -> (r: Option<i32>)
    ensures
        r == entry_i32(document_entries(*doc), key@),
{
    doc.get_i32(key).ok()
}

/// Calls `bson::Document::get_str`, which gives the string under `key` when the
/// value is a `String`, and an error otherwise; the error is dropped here.
#[verifier::external_body]
pub(crate) fn document_get_str<'a>(doc: &'a bson::Document, key: &str) -> (r: Option<&'a str>)
    ensures
        r matches Some(s) ==> entry_text(document_entries(*doc), key@) == Some(s@),
        r is None ==> entry_text(document_entries(*doc), key@) is None,
{
    doc.get_str(key).ok()
}

/// Calls `bson::Document::get_object_id`, which gives the object id under
/// `key` when the value is an `ObjectId`, and an error otherwise; the id is
/// handed on as its twelve bytes (`ObjectId::bytes`), the error is dropped.
#[verifier::external_body]
pub(crate) fn document_get_object_id(doc: &bson::Document, key: &str) -> (r: Option<[u8; 12]>)
    ensures
        r matches Some(b) ==> entry_object_id(document_entries(*doc), key@) == Some(b@),
        r is None ==> entry_object_id(document_entries(*doc), key@) is None,
{
    doc.get_object_id(key).ok().map(|id| id.bytes())
}

/// The elements of an array, each reduced to the bytes of its object id, if it
/// is one.
pub open spec fn array_view(items: Seq<Option<[u8; 12]>>) -> Seq<Option<Seq<u8>>> {
    items.map_values(|o: Option<[u8; 12]>|
        match o {
            Some(b) => Some(b@),
            None => None,
        })
}

/// Calls `bson::Document::get_array`, which gives the array under `key` when
/// the value is an `Array`, and an error otherwise (dropped here). Each element
/// is converted one for one: an `ObjectId` (told apart by
/// `Bson::as_object_id`) to `Some` of its twelve bytes, any other element to
/// `None`; order and length are kept.
#[verifier::external_body]
pub(crate) fn document_get_array(doc: &bson::Document, key: &str) -> (r: Option<Vec<Option<[u8; 12]>>>)
    ensures
        r matches Some(items) ==> entry_array(document_entries(*doc), key@) == Some(array_view(items@)),
        r is None ==> entry_array(document_entries(*doc), key@) is None,
{
    doc.get_array(key).ok().map(|a| a.iter().map(|e| e.as_object_id().map(|id| id.bytes())).collect())
}

} // verus!
