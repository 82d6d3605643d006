//! The paginated result: one page of a listing.

use vstd::prelude::*;

verus! {

/// One page of a listing: the items, in order, plus the metadata needed
/// to ask for the following page. A page is a terminal data product: it
/// does not fetch anything itself. The caller requests the next page by
/// building a fresh list operation on the same scope with the page
/// parameter advanced.
pub struct Page<T> {
    pub items: Vec<T>,
    pub next_page: Option<u32>,
}

impl<T> Page<T> {
    /// Wraps one page of items together with the next-page indicator the
    /// response carried, if any.
    pub fn new(items: Vec<T>, next_page: Option<u32>) -> (r: Self)
        ensures
            r.items == items,
            r.next_page == next_page,
    {
        Page { items, next_page }
    }

    /// The page number to request next, when the response named one.
    pub fn next_page_number(&self) -> (r: Option<u32>)
        ensures
            r == self.next_page,
    {
        self.next_page
    }

    /// Hands the page's items out, in order.
    pub fn into_items(self) -> (r: Vec<T>)
        ensures
            r == self.items,
    {
        self.items
    }
}

} // verus!
