//! The navigation bar's state: its tabs and the active one.

use vstd::prelude::*;
use crate::pages::Page;

verus! {

/// Navigation bar with page tabs and the active page.
pub struct Header {
    nav_pages: Vec<Page>,
    active_page: Page,
}

impl Header {
    /// The tabs, in display order.
    pub closed spec fn spec_nav_pages(&self) -> Seq<Page> {
        self.nav_pages@
    }

    /// The highlighted tab.
    pub closed spec fn spec_active_page(&self) -> Page {
        self.active_page
    }

    /// Creates a header with the given pages and initial active page.
    pub fn new(nav_pages: Vec<Page>, active_page: Page) -> (h: Self)
        ensures
            h.spec_nav_pages() == nav_pages@,
            h.spec_active_page() == active_page,
    {
        Self { nav_pages, active_page }
    }

    /// Sets the active navigation tab.
    pub fn change_page(&mut self, new_page: Page)
        ensures
            final(self).spec_active_page() == new_page,
            final(self).spec_nav_pages() == old(self).spec_nav_pages(),
    {
        self.active_page = new_page;
    }

    /// The tabs, in display order.
    pub fn nav_pages(&self) -> (p: &Vec<Page>)
        ensures
            p@ == self.spec_nav_pages(),
    {
        &self.nav_pages
    }

    /// The highlighted tab.
    pub fn active_page(&self) -> (p: Page)
        ensures
            p == self.spec_active_page(),
    {
        self.active_page
    }

    /// Whether `page` is the highlighted tab.
    pub fn is_active(&self, page: Page) -> (b: bool)
        ensures
            b == (page == self.spec_active_page()),
    {
        self.active_page == page
    }
}

} // verus!
