//! The decisions that the HTTP handlers take between their database round
//! trips. Each round trip itself is made by the caller; the functions here say
//! what to ask for next and what to make of the answer.

use crate::document::document_entries;
use crate::error::Error;
use crate::model::category::category_of;
use crate::model::source::source_of;
use crate::model::wishlist::wishlist_of;
use crate::model::{Category, Source, Wishlist};
use crate::object_key::ObjectKey;
use crate::query::ListQuery;
use vstd::prelude::*;

verus! {

/// The ids of the products on a wishlist, which an operation needs to have
/// been loaded with it.
pub fn required_product_ids(wishlist: &Wishlist) -> (r: Result<&[ObjectKey], Error>)
    ensures
        r is Ok <==> wishlist.product_ids is Some,
        r matches Ok(s) ==> s@ == wishlist.product_ids->0@,
        r matches Err(e) ==> e == Error::FieldNotLoaded("wishlist", "product_ids"),
{
    match wishlist.get_product_ids() {
        Some(ids) => Ok(ids),
        None => Err(Error::FieldNotLoaded("wishlist", "product_ids")),
    }
}

/// A page of the archive: the products that are not on the latest wishlist,
/// newest first, after skipping `skip` of them and giving at most `limit`.
pub struct ArchivePage<'a> {
    pub excluded: &'a [ObjectKey],
    pub skip: i64,
    pub limit: i64,
}

/// The page of the archive that a listing query asks for, given the latest
/// wishlist. The offset and size are handed to the database as signed
/// numbers, by the same bits.
pub fn archive_page<'a>(latest: &'a Wishlist, list: &ListQuery) -> (r: Result<ArchivePage<'a>, Error>)
    ensures
        r is Ok <==> latest.product_ids is Some,
        r matches Ok(page) ==> {
            &&& page.excluded@ == latest.product_ids->0@
            &&& page.skip == list.offset as i64
            &&& page.limit == list.size as i64
        },
        r matches Err(e) ==> e == Error::FieldNotLoaded("wishlist", "product_ids"),
{
    let excluded = required_product_ids(latest)?;
    Ok(ArchivePage { excluded, skip: list.get_offset() as i64, limit: list.get_size() as i64 })
}

/// Which products a category listing selects.
pub enum CategoryFilter {
    /// The products filed under the category with this id.
    InCategory(ObjectKey),
    /// The products filed under no category.
    Uncategorized,
}

/// The filter for the products of a category, or of no category. A category
/// whose id was not loaded is refused, reported as a wishlist lacking its
/// product ids.
pub fn category_filter(category: Option<&Category>) -> (r: Result<CategoryFilter, Error>)
    ensures
        match category {
            None => r matches Ok(CategoryFilter::Uncategorized),
            Some(c) => match c.id {
                Some(k) => r matches Ok(CategoryFilter::InCategory(id)) && id == k,
                None => r matches Err(e) && e == Error::FieldNotLoaded("wishlist", "product_ids"),
            },
        },
{
    match category {
        Some(c) => match c.get_id() {
            Some(id) => Ok(CategoryFilter::InCategory(*id)),
            None => Err(Error::FieldNotLoaded("wishlist", "product_ids")),
        },
        None => Ok(CategoryFilter::Uncategorized),
    }
}

/// The category that a lookup found; a lookup that found nothing is an
/// empty result.
pub fn category_from_lookup(found: Option<&bson::Document>) -> (r: Result<Category, Error>)
    ensures
        match found {
            Some(d) => r matches Ok(c) && c@ == category_of(document_entries(*d)),
            None => r matches Err(e) && e == Error::EmptyResult,
        },
{
    match found {
        Some(d) => Ok(Category::from_document(d)),
        None => Err(Error::EmptyResult),
    }
}

/// The wishlist that a lookup found; a lookup that found nothing is an
/// empty result.
pub fn wishlist_from_lookup(found: Option<&bson::Document>) -> (r: Result<Wishlist, Error>)
    ensures
        match found {
            Some(d) => r matches Ok(w) && w@ == wishlist_of(document_entries(*d)),
            None => r matches Err(e) && e == Error::EmptyResult,
        },
{
    match found {
        Some(d) => Ok(Wishlist::from_document(d)),
        None => Err(Error::EmptyResult),
    }
}

/// The source that a lookup found; a lookup that found nothing is an empty
/// result.
pub fn source_from_lookup(found: Option<&bson::Document>) -> (r: Result<Source, Error>)
    ensures
        match found {
            Some(d) => r matches Ok(s) && s@ == source_of(document_entries(*d)),
            None => r matches Err(e) && e == Error::EmptyResult,
        },
{
    match found {
        Some(d) => Ok(Source::from_document(d)),
        None => Err(Error::EmptyResult),
    }
}

} // verus!
