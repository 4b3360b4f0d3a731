//! The shop that a product is offered by.

use super::{copy_text, key_view, read_key, read_text, text_view};
use crate::document::{document_entries, entry_object_id, entry_text, FieldValue};
use crate::object_key::ObjectKey;
use vstd::prelude::*;

verus! {

/// A shop, as stored in the `source` collection.
#[derive(Debug)]
pub struct Source {
    pub id: Option<ObjectKey>,
    pub name: Option<String>,
    pub url: Option<String>,
}

/// What a [`Source`] holds.
pub struct SourceView {
    pub id: Option<Seq<u8>>,
    pub name: Option<Seq<char>>,
    pub url: Option<Seq<char>>,
}

impl View for Source {
    type V = SourceView;

    open spec fn view(&self) -> SourceView {
        SourceView { id: key_view(self.id), name: text_view(self.name), url: text_view(self.url) }
    }
}

/// The source that a document describes: `_id`, `name` and `url`, each absent
/// where the document lacks it or holds a value of another kind.
pub open spec fn source_of(entries: Map<Seq<char>, crate::document::FieldValue>) -> SourceView {
    SourceView {
        id: entry_object_id(entries, "_id"@),
        name: entry_text(entries, "name"@),
        url: entry_text(entries, "url"@),
    }
}

impl Source {
    /// Reads a source from its document.
    pub fn from_document(doc: &bson::Document) -> (s: Source)
        ensures
            s@ == source_of(document_entries(*doc)),
            document_entries(*doc).contains_key("_id"@) && document_entries(*doc)["_id"@] is ObjectId ==> s@.id == Some(document_entries(*doc)["_id"@]->ObjectId_0),
            !(document_entries(*doc).contains_key("_id"@) && document_entries(*doc)["_id"@] is ObjectId) ==> s@.id is None,
            document_entries(*doc).contains_key("name"@) && document_entries(*doc)["name"@] is Text ==> s@.name == Some(document_entries(*doc)["name"@]->Text_0),
            !(document_entries(*doc).contains_key("name"@) && document_entries(*doc)["name"@] is Text) ==> s@.name is None,
            document_entries(*doc).contains_key("url"@) && document_entries(*doc)["url"@] is Text ==> s@.url == Some(document_entries(*doc)["url"@]->Text_0),
            !(document_entries(*doc).contains_key("url"@) && document_entries(*doc)["url"@] is Text) ==> s@.url is None,
    {
        proof {
            lemma_source_reads_stored_fields(document_entries(*doc));
        }
        Source { id: read_key(doc, "_id"), name: read_text(doc, "name"), url: read_text(doc, "url") }
    }
}

impl Clone for Source {
    fn clone(&self) -> (r: Source)
        ensures
            r == *self,
    {
        Source { id: self.id, name: copy_text(&self.name), url: copy_text(&self.url) }
    }
}

/// A source read from a document holds, in each of its fields (id, name, url), exactly
/// the value stored under that field's key when the value is of the field's
/// kind, all of it, and nothing otherwise.
pub proof fn lemma_source_reads_stored_fields(entries: Map<Seq<char>, FieldValue>)
    ensures
        entries.contains_key("_id"@) && entries["_id"@] is ObjectId ==> source_of(entries).id == Some(entries["_id"@]->ObjectId_0),
        !(entries.contains_key("_id"@) && entries["_id"@] is ObjectId) ==> source_of(entries).id is None,
        entries.contains_key("name"@) && entries["name"@] is Text ==> source_of(entries).name == Some(entries["name"@]->Text_0),
        !(entries.contains_key("name"@) && entries["name"@] is Text) ==> source_of(entries).name is None,
        entries.contains_key("url"@) && entries["url"@] is Text ==> source_of(entries).url == Some(entries["url"@]->Text_0),
        !(entries.contains_key("url"@) && entries["url"@] is Text) ==> source_of(entries).url is None,
{
}

} // verus!
