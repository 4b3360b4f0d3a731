//! A snapshot of the wishlist: which products were on it at a time.

use super::product::{Product, ProductView};
use super::{key_view, keys_view, read_key};
use crate::document::{
    array_view, document_entries, document_get_array, document_get_i32, entry_array, entry_i32,
    entry_object_id, FieldValue,
};
use crate::object_key::ObjectKey;
use vstd::prelude::*;

verus! {

/// A wishlist snapshot, as stored in the `wishlist` collection: when it was
/// taken, the ids of the products on it, and the products once loaded.
#[derive(Debug)]
pub struct Wishlist {
    pub id: Option<ObjectKey>,
    pub timestamp: Option<i32>,
    pub product_ids: Option<Vec<ObjectKey>>,
    pub products: Option<Vec<Product>>,
}

/// What a [`Wishlist`] holds.
pub struct WishlistView {
    pub id: Option<Seq<u8>>,
    pub timestamp: Option<i32>,
    pub product_ids: Option<Seq<Seq<u8>>>,
    pub products: Option<Seq<ProductView>>,
}

/// A list of products, by what each holds.
pub open spec fn products_view(s: Seq<Product>) -> Seq<ProductView> {
    s.map_values(|p: Product| p@)
}

impl View for Wishlist {
    type V = WishlistView;

    open spec fn view(&self) -> WishlistView {
        WishlistView {
            id: key_view(self.id),
            timestamp: self.timestamp,
            product_ids: match self.product_ids {
                Some(v) => Some(keys_view(v@)),
                None => None,
            },
            products: match self.products {
                Some(v) => Some(products_view(v@)),
                None => None,
            },
        }
    }
}

/// The object ids among the elements of an array, in order; other elements
/// are skipped.
pub open spec fn object_ids_in(items: Seq<Option<Seq<u8>>>) -> Seq<Seq<u8>>
    decreases items.len(),
{
    if items.len() == 0 {
        Seq::empty()
    } else {
        let rest = object_ids_in(items.drop_last());
        match items.last() {
            Some(b) => rest.push(b),
            None => rest,
        }
    }
}

/// The wishlist that a document describes: `_id`, `timestamp`, and as product
/// ids the object ids in the array `products`; the products themselves are not
/// loaded.
pub open spec fn wishlist_of(entries: Map<Seq<char>, FieldValue>) -> WishlistView {
    WishlistView {
        id: entry_object_id(entries, "_id"@),
        timestamp: entry_i32(entries, "timestamp"@),
        product_ids: match entry_array(entries, "products"@) {
            Some(items) => Some(object_ids_in(items)),
            None => None,
        },
        products: None,
    }
}

/// The object ids among `items`, in order.
fn collect_object_ids(items: &Vec<Option<[u8; 12]>>) -> (ids: Vec<ObjectKey>)
    ensures
        keys_view(ids@) == object_ids_in(array_view(items@)),
{
    let mut ids: Vec<ObjectKey> = Vec::new();
    let mut i: usize = 0;
    while i < items.len()
        invariant
            i <= items.len(),
            keys_view(ids@) == object_ids_in(array_view(items@).take(i as int)),
        decreases items.len() - i,
    {
        let ghost seen = array_view(items@).take(i as int + 1);
        assert(seen.drop_last() =~= array_view(items@).take(i as int));
        match items[i] {
            Some(b) => {
                ids.push(ObjectKey::from_bytes(b));
            },
            None => {},
        }
        assert(keys_view(ids@) =~= object_ids_in(seen));
        i = i + 1;
    }
    assert(array_view(items@).take(items.len() as int) =~= array_view(items@));
    ids
}

impl Wishlist {
    /// The ids of the products on the wishlist, if they were loaded.
    pub fn get_product_ids(&self) -> (r: Option<&[ObjectKey]>)
        ensures
            r is Some <==> self.product_ids is Some,
            r matches Some(s) ==> s@ == self.product_ids->0@,
    {
        match &self.product_ids {
            Some(v) => Some(v.as_slice()),
            None => None,
        }
    }

    /// The products on the wishlist, if they were loaded.
    pub fn get_products(&self) -> (r: Option<&[Product]>)
        ensures
            r is Some <==> self.products is Some,
            r matches Some(s) ==> s@ == self.products->0@,
    {
        match &self.products {
            Some(v) => Some(v.as_slice()),
            None => None,
        }
    }

    /// Stores the loaded products; nothing else changes.
    pub fn set_products(&mut self, products: Vec<Product>)
        ensures
            *final(self) == (Wishlist { products: Some(products), ..*old(self) }),
    {
        self.products = Some(products);
    }

    /// When the snapshot was taken.
    pub fn get_timestamp(&self) -> (r: Option<i32>)
        ensures
            r == self.timestamp,
    {
        self.timestamp
    }

    /// Reads a wishlist from its document.
    pub fn from_document(doc: &bson::Document) -> (w: Wishlist)
        ensures
            w@ == wishlist_of(document_entries(*doc)),
            document_entries(*doc).contains_key("_id"@) && document_entries(*doc)["_id"@] is ObjectId ==> w@.id == Some(document_entries(*doc)["_id"@]->ObjectId_0),
            !(document_entries(*doc).contains_key("_id"@) && document_entries(*doc)["_id"@] is ObjectId) ==> w@.id is None,
            document_entries(*doc).contains_key("timestamp"@) && document_entries(*doc)["timestamp"@] is Int32 ==> w@.timestamp == Some(document_entries(*doc)["timestamp"@]->Int32_0),
            !(document_entries(*doc).contains_key("timestamp"@) && document_entries(*doc)["timestamp"@] is Int32) ==> w@.timestamp is None,
            w@.product_ids == match entry_array(document_entries(*doc), "products"@) {
                Some(items) => Some(
                    items.filter(|o: Option<Seq<u8>>| o is Some).map_values(
                        |o: Option<Seq<u8>>| o->0,
                    ),
                ),
                None => None,
            },
    {
        proof {
            lemma_wishlist_reads_stored_fields(document_entries(*doc));
            match entry_array(document_entries(*doc), "products"@) {
                Some(items) => lemma_object_ids_are_all_ids(items),
                None => {},
            }
        }
        let product_ids = match document_get_array(doc, "products") {
            Some(items) => Some(collect_object_ids(&items)),
            None => None,
        };
        Wishlist {
            id: read_key(doc, "_id"),
            timestamp: document_get_i32(doc, "timestamp"),
            product_ids,
            products: None,
        }
    }
}

/// The object ids among the elements of an array are every element that is
/// an object id, each once, in the array's order: the elements that are
/// `Some`, unwrapped. In particular there are as many of them as there are
/// object-id elements, however long the array is.
pub proof fn lemma_object_ids_are_all_ids(items: Seq<Option<Seq<u8>>>)
    ensures
        object_ids_in(items) == items.filter(|o: Option<Seq<u8>>| o is Some).map_values(
            |o: Option<Seq<u8>>| o->0,
        ),
        object_ids_in(items).len() == items.filter(|o: Option<Seq<u8>>| o is Some).len(),
    decreases items.len(),
{
    reveal(Seq::filter);
    if items.len() > 0 {
        lemma_object_ids_are_all_ids(items.drop_last());
        let f = items.filter(|o: Option<Seq<u8>>| o is Some);
        let g = items.drop_last().filter(|o: Option<Seq<u8>>| o is Some);
        if items.last() is Some {
            assert(f == g.push(items.last()));
            assert(f.map_values(|o: Option<Seq<u8>>| o->0) =~= g.map_values(
                |o: Option<Seq<u8>>| o->0,
            ).push(items.last()->0));
        } else {
            assert(f == g);
        }
    }
}

/// A wishlist read from a document lists as product ids every object id in
/// the document's `products` array, in order, and nothing else; it has none
/// when `products` is missing or not an array.
pub proof fn lemma_wishlist_ids_are_array_ids(entries: Map<Seq<char>, FieldValue>)
    ensures
        entries.contains_key("products"@) && entries["products"@] is Array ==> wishlist_of(
            entries,
        ).product_ids == Some(
            entries["products"@]->Array_0.filter(|o: Option<Seq<u8>>| o is Some).map_values(
                |o: Option<Seq<u8>>| o->0,
            ),
        ),
        !(entries.contains_key("products"@) && entries["products"@] is Array) ==> wishlist_of(
            entries,
        ).product_ids is None,
{
    if entries.contains_key("products"@) && entries["products"@] is Array {
        lemma_object_ids_are_all_ids(entries["products"@]->Array_0);
    }
}

/// A wishlist read from a document holds, in each of its fields (id, timestamp), exactly
/// the value stored under that field's key when the value is of the field's
/// kind, all of it, and nothing otherwise.
pub proof fn lemma_wishlist_reads_stored_fields(entries: Map<Seq<char>, FieldValue>)
    ensures
        entries.contains_key("_id"@) && entries["_id"@] is ObjectId ==> wishlist_of(entries).id == Some(entries["_id"@]->ObjectId_0),
        !(entries.contains_key("_id"@) && entries["_id"@] is ObjectId) ==> wishlist_of(entries).id is None,
        entries.contains_key("timestamp"@) && entries["timestamp"@] is Int32 ==> wishlist_of(entries).timestamp == Some(entries["timestamp"@]->Int32_0),
        !(entries.contains_key("timestamp"@) && entries["timestamp"@] is Int32) ==> wishlist_of(entries).timestamp is None,
{
}

} // verus!
