//! The pages of the navigation bar.

use vstd::prelude::*;

verus! {

#[derive(Debug, PartialEq, Eq, Clone, Copy, Structural)]
pub enum Page {
    Books,
    Series,
    AddBook,
    Unread,
    Ongoing,
}

pub const PAGES: [Page; 5] = [Page::Books, Page::Unread, Page::Series, Page::Ongoing, Page::AddBook];

impl Page {
    /// Every page, in the order of the navigation bar.
    pub open spec fn spec_variants() -> Seq<Page> {
        seq![Page::Books, Page::Unread, Page::Series, Page::Ongoing, Page::AddBook]
    }

    /// The title of the page.
    pub open spec fn spec_name(self) -> Seq<char> {
        match self {
            Page::Books => "Books"@,
            Page::Unread => "Unread"@,
            Page::Series => "Series"@,
            Page::AddBook => "Add a Book"@,
            Page::Ongoing => "Ongoing"@,
        }
    }

    /// The path at which the page is served.
    pub open spec fn spec_location(self) -> Seq<char> {
        match self {
            Page::Books => "/"@,
            Page::Unread => "/unread"@,
            Page::AddBook => "/add"@,
            Page::Series => "/series"@,
            Page::Ongoing => "/ongoing"@,
        }
    }

    /// Every page, in the order of the navigation bar.
    pub fn variants() -> (r: &'static [Page])
        ensures
            r@ == Page::spec_variants(),
    {
        &PAGES
    }

    /// The title of the page.
    pub fn name(&self) -> (r: &'static str)
        ensures
            r@ == self.spec_name(),
    {
        match self {
            Page::Books => "Books",
            Page::Unread => "Unread",
            Page::Series => "Series",
            Page::AddBook => "Add a Book",
            Page::Ongoing => "Ongoing",
        }
    }

    /// The path at which the page is served.
    pub fn location(&self) -> (r: &'static str)
        ensures
            r@ == self.spec_location(),
    {
        match self {
            Page::Books => "/",
            Page::Unread => "/unread",
            Page::AddBook => "/add",
            Page::Series => "/series",
            Page::Ongoing => "/ongoing",
        }
    }
}

/// The navigation bar shows every page, and each of them once.
pub proof fn lemma_every_page_once(page: Page)
    ensures
        Page::spec_variants().contains(page),
        forall|i: int, j: int|
            0 <= i < j < Page::spec_variants().len() ==> Page::spec_variants()[i] != Page::spec_variants()[j],
{
    let all = Page::spec_variants();
    match page {
        Page::Books => assert(all[0] == page),
        Page::Unread => assert(all[1] == page),
        Page::Series => assert(all[2] == page),
        Page::Ongoing => assert(all[3] == page),
        Page::AddBook => assert(all[4] == page),
    }
}

} // verus!
