//! The paginated listing walk: list endpoints answer one page at a time,
//! and the walk accumulates pages in order, starting at page 1, until a
//! page arrives without a successor. The caller issues one remote request
//! per page (taking one admission-gate permit per request, never holding
//! it across pages) and feeds each page into the walk.

use vstd::prelude::*;

verus! {

/// The number of items requested per page.
pub const PAGE_SIZE: u8 = 100;

/// State of one walk over a paginated list endpoint.
pub struct PageWalk<T> {
    items: Vec<T>,
    next_page: u32,
    pages_fetched: u32,
    done: bool,
}

impl<T> PageWalk<T> {
    /// Everything collected so far, in page order.
    pub closed spec fn collected(self) -> Seq<T> {
        self.items@
    }

    /// The page the next request must ask for.
    pub closed spec fn page(self) -> int {
        self.next_page as int
    }

    /// How many pages have been absorbed, which equals the number of page
    /// requests the caller has issued.
    pub closed spec fn pages(self) -> int {
        self.pages_fetched as int
    }

    /// Whether the forge has signalled that no further page exists.
    pub closed spec fn finished(self) -> bool {
        self.done
    }

    /// A fresh walk: nothing collected, the first request asks for page 1.
    pub fn new() -> (w: PageWalk<T>)
        ensures
            w.collected() == Seq::<T>::empty(),
            w.page() == 1,
            w.pages() == 0,
            !w.finished(),
    {
        PageWalk { items: Vec::new(), next_page: 1, pages_fetched: 0, done: false }
    }

    /// The page number to request next.
    pub fn next_request(&self) -> (p: u32)
        requires
            !self.finished(),
        ensures
            p == self.page(),
    {
        self.next_page
    }

    /// Whether the walk is complete.
    pub fn is_finished(&self) -> (b: bool)
        ensures
            b == self.finished(),
    {
        self.done
    }

    /// How many page requests have been issued so far.
    pub fn pages_requested(&self) -> (n: u32)
        ensures
            n == self.pages(),
    {
        self.pages_fetched
    }

    /// Absorbs one page answer: appends its items and either advances to
    /// the next page or, when the forge reports no successor, finishes.
    pub fn absorb(&mut self, mut page_items: Vec<T>, has_next: bool)
        requires
            !old(self).finished(),
            old(self).page() < u32::MAX,
            old(self).pages() < u32::MAX,
        ensures
            final(self).collected() == old(self).collected() + page_items@,
            final(self).pages() == old(self).pages() + 1,
            final(self).finished() == !has_next,
            has_next ==> final(self).page() == old(self).page() + 1,
            !has_next ==> final(self).page() == old(self).page(),
    {
        self.items.append(&mut page_items);
        self.pages_fetched = self.pages_fetched + 1;
        if has_next {
            self.next_page = self.next_page + 1;
        } else {
            self.done = true;
        }
    }

    /// Hands out the complete list once no further page exists. A failed
    /// page request never reaches this point: the caller abandons the walk
    /// instead, discarding the pages already collected.
    pub fn into_items(self) -> (v: Vec<T>)
        requires
            self.finished(),
        ensures
            v@ == self.collected(),
    {
        self.items
    }
}

/// Whether an account's repositories are listed through the organization
/// endpoint rather than the user endpoint, given the account type reported
/// by the forge, lowered to ASCII lowercase.
pub fn account_uses_org_listing(account_type: &String) -> (b: bool)
    ensures
        b == (account_type@ == "organization"@ || account_type@ == "enterprise"@),
{
    let org = String::from_str("organization");
    let ent = String::from_str("enterprise");
    *account_type == org || *account_type == ent
}

} // verus!
