//! The query parameters that the listing routes take.

use vstd::prelude::*;

verus! {

/// The offset of a page when the request names none.
pub fn default_offset() -> (r: u64)
    ensures
        r == 0,
{
    0
}

/// The size of a page when the request names none.
pub fn default_size() -> (r: u64)
    ensures
        r == 10,
{
    10
}

/// A page of a listing: how many items to skip and how many to give.
pub struct ListQuery {
    pub offset: u64,
    pub size: u64,
}

impl ListQuery {
    /// The page that a request asks for; a parameter it leaves out takes its
    /// default (offset 0, size 10).
    pub fn new(offset: Option<u64>, size: Option<u64>) -> (q: ListQuery)
        ensures
            q.offset == match offset {
                Some(o) => o,
                None => 0,
            },
            q.size == match size {
                Some(s) => s,
                None => 10,
            },
    {
        let offset = match offset {
            Some(o) => o,
            None => default_offset(),
        };
        let size = match size {
            Some(s) => s,
            None => default_size(),
        };
        ListQuery { offset, size }
    }

    /// How many items to skip.
    pub fn get_offset(&self) -> (r: u64)
        ensures
            r == self.offset,
    {
        self.offset
    }

    /// How many items to give.
    pub fn get_size(&self) -> (r: u64)
        ensures
            r == self.size,
    {
        self.size
    }
}

/// The category whose products a request asks for; none for the products that
/// have no category.
pub struct CategoryQuery {
    pub category: Option<String>,
}

impl CategoryQuery {
    /// The query for this category name, or for uncategorized products.
    pub fn new(category: Option<String>) -> (q: CategoryQuery)
        ensures
            q.category == category,
    {
        CategoryQuery { category }
    }

    /// The category name asked for.
    pub fn get_category(&self) -> (r: Option<&str>)
        ensures
            r is Some <==> self.category is Some,
            r matches Some(s) ==> s@ == self.category->0@,
    {
        match &self.category {
            Some(s) => Some(s.as_str()),
            None => None,
        }
    }
}

} // verus!
