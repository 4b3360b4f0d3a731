//! The records the service stores and sends: sources, categories, products,
//! wishlists and price datapoints, each read from a BSON document.

pub mod category;
pub mod datapoint;
pub mod product;
pub mod source;
pub mod wishlist;

use crate::document::{
    document_entries, document_get_object_id, document_get_str, entry_object_id, entry_text,
};
use crate::object_key::ObjectKey;
use vstd::prelude::*;




pub use category::{Category, CategoryView};
pub use datapoint::{Datapoint, DatapointView};
pub use product::{Product, ProductView};
pub use source::{Source, SourceView};
pub use wishlist::{Wishlist, WishlistView};


verus! {

/// The body of an error reply: an HTTP status code and a message.
#[derive(Debug)]
pub struct ErrorMessage {
    pub code: u16,
    pub message: String,
}

/// An optional string, by its characters.
pub open spec fn text_view(o: Option<String>) -> Option<Seq<char>> {
    match o {
        Some(s) => Some(s@),
        None => None,
    }
}

/// An optional id, by its bytes.
pub open spec fn key_view(o: Option<ObjectKey>) -> Option<Seq<u8>> {
    match o {
        Some(k) => Some(k@),
        None => None,
    }
}

/// A list of ids, by their bytes.
pub open spec fn keys_view(s: Seq<ObjectKey>) -> Seq<Seq<u8>> {
    s.map_values(|k: ObjectKey| k@)
}

/// The string stored under `key`, copied out of the document.
pub(crate) fn read_text(doc: &bson::Document, key: &str) -> (r: Option<String>)
    ensures
        text_view(r) == entry_text(document_entries(*doc), key@),
{
    match document_get_str(doc, key) {
        Some(s) => Some(s.to_owned()),
        None => None,
    }
}

/// The object id stored under `key`.
pub(crate) fn read_key(doc: &bson::Document, key: &str) -> (r: Option<ObjectKey>)
    ensures
        key_view(r) == entry_object_id(document_entries(*doc), key@),
{
    match document_get_object_id(doc, key) {
        Some(b) => Some(ObjectKey::from_bytes(b)),
        None => None,
    }
}

/// A copy of an optional string.
pub(crate) fn copy_text(o: &Option<String>) -> (r: Option<String>)
    ensures
        r == *o,
{
    match o {
        Some(s) => Some(s.clone()),
        None => None,
    }
}

} // verus!
