//! A price observed on a date.

use super::{read_text, text_view};
use crate::document::{document_entries, document_get_i32, entry_i32, entry_text, FieldValue};
use vstd::prelude::*;

verus! {

/// A dated value, as stored in a product's price history.
#[derive(Debug)]
pub struct Datapoint {
    pub date: Option<String>,
    pub value: Option<i32>,
}

/// What a [`Datapoint`] holds.
pub struct DatapointView {
    pub date: Option<Seq<char>>,
    pub value: Option<i32>,
}

impl View for Datapoint {
    type V = DatapointView;

    open spec fn view(&self) -> DatapointView {
        DatapointView { date: text_view(self.date), value: self.value }
    }
}

/// The datapoint that a document describes: its `date` and `value`.
pub open spec fn datapoint_of(entries: Map<Seq<char>, FieldValue>) -> DatapointView {
    DatapointView { date: entry_text(entries, "date"@), value: entry_i32(entries, "value"@) }
}

impl Datapoint {
    /// Reads a datapoint from its document.
    pub fn from_document(doc: &bson::Document) -> (d: Datapoint)
        ensures
            d@ == datapoint_of(document_entries(*doc)),
            document_entries(*doc).contains_key("date"@) && document_entries(*doc)["date"@] is Text ==> d@.date == Some(document_entries(*doc)["date"@]->Text_0),
            !(document_entries(*doc).contains_key("date"@) && document_entries(*doc)["date"@] is Text) ==> d@.date is None,
            document_entries(*doc).contains_key("value"@) && document_entries(*doc)["value"@] is Int32 ==> d@.value == Some(document_entries(*doc)["value"@]->Int32_0),
            !(document_entries(*doc).contains_key("value"@) && document_entries(*doc)["value"@] is Int32) ==> d@.value is None,
    {
        proof {
            lemma_datapoint_reads_stored_fields(document_entries(*doc));
        }
        Datapoint { date: read_text(doc, "date"), value: document_get_i32(doc, "value") }
    }
}

/// A datapoint read from a document holds, in each of its fields (date, value), exactly
/// the value stored under that field's key when the value is of the field's
/// kind, all of it, and nothing otherwise.
pub proof fn lemma_datapoint_reads_stored_fields(entries: Map<Seq<char>, FieldValue>)
    ensures
        entries.contains_key("date"@) && entries["date"@] is Text ==> datapoint_of(entries).date == Some(entries["date"@]->Text_0),
        !(entries.contains_key("date"@) && entries["date"@] is Text) ==> datapoint_of(entries).date is None,
        entries.contains_key("value"@) && entries["value"@] is Int32 ==> datapoint_of(entries).value == Some(entries["value"@]->Int32_0),
        !(entries.contains_key("value"@) && entries["value"@] is Int32) ==> datapoint_of(entries).value is None,
{
}

} // verus!
