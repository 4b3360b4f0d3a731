//! The category a product is filed under.

use super::{copy_text, key_view, read_key, read_text, text_view};
use crate::document::{document_entries, entry_object_id, entry_text, FieldValue};
use crate::object_key::ObjectKey;
use vstd::prelude::*;

verus! {

/// A category, as stored in the `category` collection.
#[derive(Debug)]
pub struct Category {
    pub id: Option<ObjectKey>,
    pub name: Option<String>,
}

/// What a [`Category`] holds.
pub struct CategoryView {
    pub id: Option<Seq<u8>>,
    pub name: Option<Seq<char>>,
}

impl View for Category {
    type V = CategoryView;

    open spec fn view(&self) -> CategoryView {
        CategoryView { id: key_view(self.id), name: text_view(self.name) }
    }
}

/// The category that a document describes: its `_id` and `name`.
pub open spec fn category_of(entries: Map<Seq<char>, FieldValue>) -> CategoryView {
    CategoryView { id: entry_object_id(entries, "_id"@), name: entry_text(entries, "name"@) }
}

impl Category {
    /// The id of the category, if it was loaded.
    pub fn get_id(&self) -> (r: Option<&ObjectKey>)
        ensures
            r == match self.id {
                Some(k) => Some(&k),
                None => None::<&ObjectKey>,
            },
    {
        match &self.id {
            Some(k) => Some(k),
            None => None,
        }
    }

    /// Reads a category from its document.
    pub fn from_document(doc: &bson::Document) -> (c: Category)
        ensures
            c@ == category_of(document_entries(*doc)),
            document_entries(*doc).contains_key("_id"@) && document_entries(*doc)["_id"@] is ObjectId ==> c@.id == Some(document_entries(*doc)["_id"@]->ObjectId_0),
            !(document_entries(*doc).contains_key("_id"@) && document_entries(*doc)["_id"@] is ObjectId) ==> c@.id is None,
            document_entries(*doc).contains_key("name"@) && document_entries(*doc)["name"@] is Text ==> c@.name == Some(document_entries(*doc)["name"@]->Text_0),
            !(document_entries(*doc).contains_key("name"@) && document_entries(*doc)["name"@] is Text) ==> c@.name is None,
    {
        proof {
            lemma_category_reads_stored_fields(document_entries(*doc));
        }
        Category { id: read_key(doc, "_id"), name: read_text(doc, "name") }
    }
}

impl Default for Category {
    /// A category with neither id nor name.
    fn default() -> (c: Category)
        ensures
            c.id is None,
            c.name is None,
    {
        Category { id: None, name: None }
    }
}

impl Clone for Category {
    fn clone(&self) -> (r: Category)
        ensures
            r == *self,
    {
        Category { id: self.id, name: copy_text(&self.name) }
    }
}

/// A category read from a document holds, in each of its fields (id, name), exactly
/// the value stored under that field's key when the value is of the field's
/// kind, all of it, and nothing otherwise.
pub proof fn lemma_category_reads_stored_fields(entries: Map<Seq<char>, FieldValue>)
    ensures
        entries.contains_key("_id"@) && entries["_id"@] is ObjectId ==> category_of(entries).id == Some(entries["_id"@]->ObjectId_0),
        !(entries.contains_key("_id"@) && entries["_id"@] is ObjectId) ==> category_of(entries).id is None,
        entries.contains_key("name"@) && entries["name"@] is Text ==> category_of(entries).name == Some(entries["name"@]->Text_0),
        !(entries.contains_key("name"@) && entries["name"@] is Text) ==> category_of(entries).name is None,
{
}

} // verus!
