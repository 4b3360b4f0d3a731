//! A product seen on a wishlist.

use super::source::{Source, SourceView};
use super::{copy_text, key_view, read_key, read_text, text_view};
use crate::document::{document_entries, document_get_i32, entry_i32, entry_object_id, entry_text, FieldValue};
use crate::object_key::ObjectKey;
use vstd::prelude::*;

verus! {

/// A product, as stored in the `product` collection, with the shop it is
/// offered by once that has been loaded.
#[derive(Debug)]
pub struct Product {
    pub id: Option<ObjectKey>,
    pub name: Option<String>,
    pub price: Option<i32>,
    pub quantity: Option<i32>,
    pub stars: Option<i32>,
    pub url: Option<String>,
    pub url_img: Option<String>,
    pub item_id: Option<String>,
    pub first_seen: Option<i32>,
    pub last_seen: Option<i32>,
    pub source_id: Option<ObjectKey>,
    pub source: Option<Source>,
    pub category_id: Option<ObjectKey>,
}

/// What a [`Product`] holds.
pub struct ProductView {
    pub id: Option<Seq<u8>>,
    pub name: Option<Seq<char>>,
    pub price: Option<i32>,
    pub quantity: Option<i32>,
    pub stars: Option<i32>,
    pub url: Option<Seq<char>>,
    pub url_img: Option<Seq<char>>,
    pub item_id: Option<Seq<char>>,
    pub first_seen: Option<i32>,
    pub last_seen: Option<i32>,
    pub source_id: Option<Seq<u8>>,
    pub source: Option<SourceView>,
    pub category_id: Option<Seq<u8>>,
}

/// An optional source, by what it holds.
pub open spec fn source_view(o: Option<Source>) -> Option<SourceView> {
    match o {
        Some(s) => Some(s@),
        None => None,
    }
}

impl View for Product {
    type V = ProductView;

    open spec fn view(&self) -> ProductView {
        ProductView {
            id: key_view(self.id),
            name: text_view(self.name),
            price: self.price,
            quantity: self.quantity,
            stars: self.stars,
            url: text_view(self.url),
            url_img: text_view(self.url_img),
            item_id: text_view(self.item_id),
            first_seen: self.first_seen,
            last_seen: self.last_seen,
            source_id: key_view(self.source_id),
            source: source_view(self.source),
            category_id: key_view(self.category_id),
        }
    }
}

/// The product that a document describes. Its shop is not part of the
/// document: `source` is absent, and `source_id` comes from the key `source`
/// and `category_id` from the key `category`.
pub open spec fn product_of(entries: Map<Seq<char>, FieldValue>) -> ProductView {
    ProductView {
        id: entry_object_id(entries, "_id"@),
        name: entry_text(entries, "name"@),
        price: entry_i32(entries, "price"@),
        quantity: entry_i32(entries, "quantity"@),
        stars: entry_i32(entries, "stars"@),
        url: entry_text(entries, "url"@),
        url_img: entry_text(entries, "url_img"@),
        item_id: entry_text(entries, "item_id"@),
        first_seen: entry_i32(entries, "first_seen"@),
        last_seen: entry_i32(entries, "last_seen"@),
        source_id: entry_object_id(entries, "source"@),
        source: None,
        category_id: entry_object_id(entries, "category"@),
    }
}

impl Product {
    /// The id of the shop the product is offered by, if it was loaded.
    pub fn get_source_id(&self) -> (r: Option<&ObjectKey>)
        ensures
            r == match self.source_id {
                Some(k) => Some(&k),
                None => None::<&ObjectKey>,
            },
    {
        match &self.source_id {
            Some(k) => Some(k),
            None => None,
        }
    }

    /// Attaches the shop; nothing else changes.
    pub fn set_source(&mut self, source: Source)
        ensures
            *final(self) == (Product { source: Some(source), ..*old(self) }),
    {
        self.source = Some(source);
    }

    /// When the product was first seen.
    pub fn get_first_seen(&self) -> (r: Option<i32>)
        ensures
            r == self.first_seen,
    {
        self.first_seen
    }

    /// Reads a product from its document.
    pub fn from_document(doc: &bson::Document) -> (p: Product)
        ensures
            p@ == product_of(document_entries(*doc)),
            document_entries(*doc).contains_key("_id"@) && document_entries(*doc)["_id"@] is ObjectId ==> p@.id == Some(document_entries(*doc)["_id"@]->ObjectId_0),
            !(document_entries(*doc).contains_key("_id"@) && document_entries(*doc)["_id"@] is ObjectId) ==> p@.id is None,
            document_entries(*doc).contains_key("name"@) && document_entries(*doc)["name"@] is Text ==> p@.name == Some(document_entries(*doc)["name"@]->Text_0),
            !(document_entries(*doc).contains_key("name"@) && document_entries(*doc)["name"@] is Text) ==> p@.name is None,
            document_entries(*doc).contains_key("price"@) && document_entries(*doc)["price"@] is Int32 ==> p@.price == Some(document_entries(*doc)["price"@]->Int32_0),
            !(document_entries(*doc).contains_key("price"@) && document_entries(*doc)["price"@] is Int32) ==> p@.price is None,
            document_entries(*doc).contains_key("quantity"@) && document_entries(*doc)["quantity"@] is Int32 ==> p@.quantity == Some(document_entries(*doc)["quantity"@]->Int32_0),
            !(document_entries(*doc).contains_key("quantity"@) && document_entries(*doc)["quantity"@] is Int32) ==> p@.quantity is None,
            document_entries(*doc).contains_key("stars"@) && document_entries(*doc)["stars"@] is Int32 ==> p@.stars == Some(document_entries(*doc)["stars"@]->Int32_0),
            !(document_entries(*doc).contains_key("stars"@) && document_entries(*doc)["stars"@] is Int32) ==> p@.stars is None,
            document_entries(*doc).contains_key("url"@) && document_entries(*doc)["url"@] is Text ==> p@.url == Some(document_entries(*doc)["url"@]->Text_0),
            !(document_entries(*doc).contains_key("url"@) && document_entries(*doc)["url"@] is Text) ==> p@.url is None,
            document_entries(*doc).contains_key("url_img"@) && document_entries(*doc)["url_img"@] is Text ==> p@.url_img == Some(document_entries(*doc)["url_img"@]->Text_0),
            !(document_entries(*doc).contains_key("url_img"@) && document_entries(*doc)["url_img"@] is Text) ==> p@.url_img is None,
            document_entries(*doc).contains_key("item_id"@) && document_entries(*doc)["item_id"@] is Text ==> p@.item_id == Some(document_entries(*doc)["item_id"@]->Text_0),
            !(document_entries(*doc).contains_key("item_id"@) && document_entries(*doc)["item_id"@] is Text) ==> p@.item_id is None,
            document_entries(*doc).contains_key("first_seen"@) && document_entries(*doc)["first_seen"@] is Int32 ==> p@.first_seen == Some(document_entries(*doc)["first_seen"@]->Int32_0),
            !(document_entries(*doc).contains_key("first_seen"@) && document_entries(*doc)["first_seen"@] is Int32) ==> p@.first_seen is None,
            document_entries(*doc).contains_key("last_seen"@) && document_entries(*doc)["last_seen"@] is Int32 ==> p@.last_seen == Some(document_entries(*doc)["last_seen"@]->Int32_0),
            !(document_entries(*doc).contains_key("last_seen"@) && document_entries(*doc)["last_seen"@] is Int32) ==> p@.last_seen is None,
            document_entries(*doc).contains_key("source"@) && document_entries(*doc)["source"@] is ObjectId ==> p@.source_id == Some(document_entries(*doc)["source"@]->ObjectId_0),
            !(document_entries(*doc).contains_key("source"@) && document_entries(*doc)["source"@] is ObjectId) ==> p@.source_id is None,
            document_entries(*doc).contains_key("category"@) && document_entries(*doc)["category"@] is ObjectId ==> p@.category_id == Some(document_entries(*doc)["category"@]->ObjectId_0),
            !(document_entries(*doc).contains_key("category"@) && document_entries(*doc)["category"@] is ObjectId) ==> p@.category_id is None,
    {
        proof {
            lemma_product_reads_stored_fields(document_entries(*doc));
        }
        Product {
            id: read_key(doc, "_id"),
            name: read_text(doc, "name"),
            price: document_get_i32(doc, "price"),
            quantity: document_get_i32(doc, "quantity"),
            stars: document_get_i32(doc, "stars"),
            url: read_text(doc, "url"),
            url_img: read_text(doc, "url_img"),
            item_id: read_text(doc, "item_id"),
            first_seen: document_get_i32(doc, "first_seen"),
            last_seen: document_get_i32(doc, "last_seen"),
            source_id: read_key(doc, "source"),
            source: None,
            category_id: read_key(doc, "category"),
        }
    }
}

impl Clone for Product {
    fn clone(&self) -> (r: Product)
        ensures
            r == *self,
    {
        let source = match &self.source {
            Some(s) => Some(s.clone()),
            None => None,
        };
        Product {
            id: self.id,
            name: copy_text(&self.name),
            price: self.price,
            quantity: self.quantity,
            stars: self.stars,
            url: copy_text(&self.url),
            url_img: copy_text(&self.url_img),
            item_id: copy_text(&self.item_id),
            first_seen: self.first_seen,
            last_seen: self.last_seen,
            source_id: self.source_id,
            source,
            category_id: self.category_id,
        }
    }
}

/// A product read from a document holds, in each of its fields (id, name, price, quantity, stars, url, url_img, item_id, first_seen, last_seen, source_id, category_id), exactly
/// the value stored under that field's key when the value is of the field's
/// kind, all of it, and nothing otherwise.
pub proof fn lemma_product_reads_stored_fields(entries: Map<Seq<char>, FieldValue>)
    ensures
        entries.contains_key("_id"@) && entries["_id"@] is ObjectId ==> product_of(entries).id == Some(entries["_id"@]->ObjectId_0),
        !(entries.contains_key("_id"@) && entries["_id"@] is ObjectId) ==> product_of(entries).id is None,
        entries.contains_key("name"@) && entries["name"@] is Text ==> product_of(entries).name == Some(entries["name"@]->Text_0),
        !(entries.contains_key("name"@) && entries["name"@] is Text) ==> product_of(entries).name is None,
        entries.contains_key("price"@) && entries["price"@] is Int32 ==> product_of(entries).price == Some(entries["price"@]->Int32_0),
        !(entries.contains_key("price"@) && entries["price"@] is Int32) ==> product_of(entries).price is None,
        entries.contains_key("quantity"@) && entries["quantity"@] is Int32 ==> product_of(entries).quantity == Some(entries["quantity"@]->Int32_0),
        !(entries.contains_key("quantity"@) && entries["quantity"@] is Int32) ==> product_of(entries).quantity is None,
        entries.contains_key("stars"@) && entries["stars"@] is Int32 ==> product_of(entries).stars == Some(entries["stars"@]->Int32_0),
        !(entries.contains_key("stars"@) && entries["stars"@] is Int32) ==> product_of(entries).stars is None,
        entries.contains_key("url"@) && entries["url"@] is Text ==> product_of(entries).url == Some(entries["url"@]->Text_0),
        !(entries.contains_key("url"@) && entries["url"@] is Text) ==> product_of(entries).url is None,
        entries.contains_key("url_img"@) && entries["url_img"@] is Text ==> product_of(entries).url_img == Some(entries["url_img"@]->Text_0),
        !(entries.contains_key("url_img"@) && entries["url_img"@] is Text) ==> product_of(entries).url_img is None,
        entries.contains_key("item_id"@) && entries["item_id"@] is Text ==> product_of(entries).item_id == Some(entries["item_id"@]->Text_0),
        !(entries.contains_key("item_id"@) && entries["item_id"@] is Text) ==> product_of(entries).item_id is None,
        entries.contains_key("first_seen"@) && entries["first_seen"@] is Int32 ==> product_of(entries).first_seen == Some(entries["first_seen"@]->Int32_0),
        !(entries.contains_key("first_seen"@) && entries["first_seen"@] is Int32) ==> product_of(entries).first_seen is None,
        entries.contains_key("last_seen"@) && entries["last_seen"@] is Int32 ==> product_of(entries).last_seen == Some(entries["last_seen"@]->Int32_0),
        !(entries.contains_key("last_seen"@) && entries["last_seen"@] is Int32) ==> product_of(entries).last_seen is None,
        entries.contains_key("source"@) && entries["source"@] is ObjectId ==> product_of(entries).source_id == Some(entries["source"@]->ObjectId_0),
        !(entries.contains_key("source"@) && entries["source"@] is ObjectId) ==> product_of(entries).source_id is None,
        entries.contains_key("category"@) && entries["category"@] is ObjectId ==> product_of(entries).category_id == Some(entries["category"@]->ObjectId_0),
        !(entries.contains_key("category"@) && entries["category"@] is ObjectId) ==> product_of(entries).category_id is None,
        product_of(entries).source is None,
{
}

} // verus!
