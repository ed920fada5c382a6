//! Walking through a listing page by page.
//!
//! Each request of a listing asks for the page that follows the last one
//! received: its offset is that page's offset plus its limit. An empty page
//! ends the listing, and so does a request that failed.
use vstd::prelude::*;

use crate::request::routing::Route;
use crate::types::List;

verus! {

/// One page of a listing.
#[derive(Debug)]
pub struct Page<T>(List<T>);

impl<T> Page<T> {
    /// The listing this page holds.
    pub closed spec fn inner(&self) -> &List<T> {
        &self.0
    }

    /// The page of a listing response.
    pub fn new(list: List<T>) -> (r: Self)
        ensures
            r.inner() == list,
    {
        Page(list)
    }

    /// The listing this page holds.
    pub fn list(&self) -> (r: &List<T>)
        ensures
            r == self.inner(),
    {
        &self.0
    }

    /// The items of the page, in order.
    pub fn into_data(self) -> (r: Vec<T>)
        ensures
            r@ == self.inner().data@,
    {
        self.0.data
    }
}

/// Where a walk through a listing stands.
#[derive(Clone, Copy, Debug, PartialEq, Eq, Structural)]
pub enum PageState {
    /// No page was asked for yet.
    Start,
    /// The last page received had this offset and limit.
    Next { offset: u32, limit: u32 },
    /// The listing has ended.
    Completed,
}

/// The offset the next request asks for, by the state: `Some(None)` for the
/// first request, which keeps the filter's own offset; `Some(Some(n))` for a
/// later one; `None` when the listing has ended.
pub open spec fn next_offset(state: PageState) -> Option<Option<u64>> {
    match state {
        PageState::Start => Some(None),
        PageState::Next { offset, limit } => Some(Some((offset + limit) as u64)),
        PageState::Completed => None,
    }
}

/// The state after a page with this offset, limit and number of items was
/// received.
pub open spec fn state_after_page(offset: u32, limit: u32, items: nat) -> PageState {
    if items == 0 {
        PageState::Completed
    } else {
        PageState::Next { offset, limit }
    }
}

/// A walk through the pages of the listing at one route.
pub struct Paginator {
    route: Route,
    state: PageState,
}

impl Paginator {
    /// The route of the listing.
    pub closed spec fn listing(&self) -> Route {
        self.route
    }

    /// Where the walk stands.
    pub closed spec fn current(&self) -> PageState {
        self.state
    }

    /// A walk that has not asked for a page yet.
    pub fn new(route: Route) -> (r: Self)
        ensures
            r.listing() == route,
            r.current() == PageState::Start,
    {
        Paginator { route, state: PageState::Start }
    }

    /// The route of the listing.
    pub fn route(&self) -> (r: Route)
        ensures
            r == self.listing(),
    {
        self.route
    }

    /// Starts the next request: returns the offset it asks for, as
    /// [`next_offset`] says, and leaves the walk completed until a page
    /// arrives, so that a failed request ends it.
    pub fn next_request(&mut self) -> (r: Option<Option<u64>>)
        ensures
            r == next_offset(old(self).current()),
            final(self).current() == PageState::Completed,
            final(self).listing() == old(self).listing(),
    {
        let state = self.state;
        self.state = PageState::Completed;
        match state {
            PageState::Start => Some(None),
            PageState::Next { offset, limit } => Some(Some(offset as u64 + limit as u64)),
            PageState::Completed => None,
        }
    }

    /// Records a page that arrived: returns it when it has items, and `None`
    /// when it is empty, which ends the walk.
    pub fn page_received<T>(&mut self, list: List<T>) -> (r: Option<Page<T>>)
        ensures
            final(self).current() == state_after_page(list.offset, list.limit, list.data@.len()),
            final(self).listing() == old(self).listing(),
            list.data@.len() == 0 ==> r is None,
            list.data@.len() > 0 ==> r == Some(Page::new_spec(list)),
    {
        if list.data.len() == 0 {
            self.state = PageState::Completed;
            None
        } else {
            self.state = PageState::Next { offset: list.offset, limit: list.limit };
            Some(Page(list))
        }
    }
}

impl<T> Page<T> {
    /// The page holding `list`.
    pub closed spec fn new_spec(list: List<T>) -> Page<T> {
        Page(list)
    }
}

/// Once a walk has ended it asks for nothing more: every later request
/// finds it completed and gets no offset.
pub proof fn lemma_completed_stays_completed()
    ensures
        next_offset(PageState::Completed) is None,
{
}

/// The request after a page with items asks for the page that follows it:
/// its offset is the page's offset plus its limit.
pub proof fn lemma_next_page_follows(offset: u32, limit: u32, items: nat)
    requires
        items > 0,
    ensures
        next_offset(state_after_page(offset, limit, items)) == Some(Some((offset + limit) as u64)),
{
}

/// How a walk goes on, over every page: the first request asks for no
/// offset; after a page with items the next request asks for the page's
/// offset plus its limit; after an empty page, or once completed, no
/// request is made.
pub proof fn lemma_paging(offset: u32, limit: u32, items: nat)
    ensures
        next_offset(PageState::Start) == Some(None::<u64>),
        next_offset(PageState::Completed) is None,
        items == 0 ==> next_offset(state_after_page(offset, limit, items)) is None,
        items > 0 ==> (next_offset(state_after_page(offset, limit, items)) matches Some(Some(o))
            && o == offset + limit),
{
}

} // verus!
