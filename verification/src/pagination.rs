//! Paging through a long reply a page at a time: the page store and the
//! move between pages.  Pages are counted from one.

use vstd::prelude::*;

verus! {

/// Which page to move to.
#[derive(Clone, Copy, Debug, PartialEq, Eq, Structural)]
pub enum PageChange {
    /// The first page.
    First,
    /// One page back.
    Previous,
    /// One page forward.
    Next,
    /// The last page.
    Last,
}

/// A paged reply: its pages and the one currently shown, counted from one.
pub struct Pagination {
    /// The rendered pages, in order.
    pub pages: Vec<String>,
    /// The page currently shown, counted from one.
    pub current_page: usize,
    /// How many pages the reply has in all.
    pub total_page_count: usize,
}

/// The page number a move asks for, counted from one.
pub open spec fn page_target(p: Pagination, which_page: PageChange) -> int {
    match which_page {
        PageChange::First => 1,
        PageChange::Previous => p.current_page - 1,
        PageChange::Next => p.current_page + 1,
        PageChange::Last => p.pages@.len() as int,
    }
}

impl Pagination {
    /// A shown page number is always at least one; a move back needs a page
    /// to go back to, a move to the last page needs a page to exist, and a
    /// move forward must not outrun the counter.
    pub fn change_page(&mut self, which_page: PageChange)
        requires
            old(self).current_page >= 1,
            which_page is Previous ==> old(self).current_page >= 2,
            which_page is Last ==> old(self).pages@.len() >= 1,
            which_page is Next ==> old(self).current_page < usize::MAX,
        ensures
            final(self).pages == old(self).pages,
            final(self).total_page_count == old(self).total_page_count,
            ({
                let target = page_target(*old(self), which_page);
                if 1 <= target <= old(self).pages@.len() {
                    final(self).current_page == target
                } else {
                    final(self).current_page == old(self).current_page
                }
            }),
    {
        let new_page_num: usize = match which_page {
            PageChange::First => 1,
            PageChange::Previous => self.current_page - 1,
            PageChange::Next => self.current_page + 1,
            PageChange::Last => self.pages.len(),
        };
        if new_page_num >= 1 && new_page_num <= self.pages.len() {
            self.current_page = new_page_num;
        }
    }
}

} // verus!
