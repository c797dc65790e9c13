//! Listing a region's inventory page by page.
//!
//! The lister is driven from outside: take the pending request, send it,
//! hand in the answer, and so on until no request is pending. The first
//! request carries no marker; each later one carries the marker that came
//! with the page before it. A page without a marker is the last one. A
//! request that fails ends the listing, and nothing of the inventory is
//! handed out.

use crate::error::ScanError;
use vstd::prelude::*;

verus! {

/// One page of an inventory: its items, and the marker to ask for the next
/// page with, if there is a next page.
#[derive(Debug)]
pub struct Page<T> {
    pub items: Vec<T>,
    pub next_marker: Option<String>,
}

/// A page as plain data.
pub struct PageView<T> {
    pub items: Seq<T>,
    pub next_marker: Option<Seq<char>>,
}

impl<T> View for Page<T> {
    type V = PageView<T>;

    open spec fn view(&self) -> PageView<T> {
        PageView {
            items: self.items@,
            next_marker: match self.next_marker {
                Some(marker) => Some(marker@),
                None => None,
            },
        }
    }
}

/// The request for one page: the marker that the page before it came with,
/// or none for the first page.
#[derive(Debug)]
pub struct ListRequest {
    pub marker: Option<String>,
}

/// How far a listing has come.
#[derive(Clone, Copy, Debug, PartialEq, Eq, Structural)]
pub enum ListerStatus {
    /// A request is pending.
    Listing,
    /// The last page has come in.
    Complete,
    /// A request has failed.
    Failed,
}

/// Where a listing stands.
pub struct ListerView<T> {
    /// The items of the pages that have come in, in order.
    pub items: Seq<T>,
    /// The marker that came with the latest page.
    pub marker: Option<Seq<char>>,
    /// How many requests have been answered.
    pub requests: nat,
    pub status: ListerStatus,
}

impl<T> ListerView<T> {
    /// A listing before its first request.
    pub open spec fn initial() -> ListerView<T> {
        ListerView { items: Seq::empty(), marker: None, requests: 0, status: ListerStatus::Listing }
    }

    /// The marker of the pending request, if a request is pending.
    pub open spec fn pending(self) -> Option<Option<Seq<char>>> {
        if self.status == ListerStatus::Listing {
            Some(self.marker)
        } else {
            None
        }
    }

    /// The listing after the answer to the pending request: a page, or
    /// `None` for a request that failed. Without a pending request nothing
    /// changes.
    pub open spec fn accept(self, answer: Option<PageView<T>>) -> ListerView<T> {
        if self.status != ListerStatus::Listing {
            self
        } else {
            match answer {
                Some(page) => ListerView {
                    items: self.items + page.items,
                    marker: page.next_marker,
                    requests: self.requests + 1,
                    status: if page.next_marker is Some {
                        ListerStatus::Listing
                    } else {
                        ListerStatus::Complete
                    },
                },
                None => ListerView {
                    requests: self.requests + 1,
                    status: ListerStatus::Failed,
                    ..self
                },
            }
        }
    }

    /// The listing after the pages have come in one after another.
    pub open spec fn run(self, pages: Seq<PageView<T>>) -> ListerView<T>
        decreases pages.len(),
    {
        if pages.len() == 0 {
            self
        } else {
            self.accept(Some(pages[0])).run(pages.drop_first())
        }
    }

    /// What the listing hands out in the end: the inventory if it is
    /// complete, a listing error if it is not.
    pub open spec fn outcome(self) -> Result<Seq<T>, ScanError> {
        if self.status == ListerStatus::Complete {
            Ok(self.items)
        } else {
            Err(ScanError::Listing)
        }
    }
}

/// The items of all pages, in order.
pub open spec fn concat<T>(pages: Seq<PageView<T>>) -> Seq<T>
    decreases pages.len(),
{
    if pages.len() == 0 {
        Seq::empty()
    } else {
        pages[0].items + concat(pages.drop_first())
    }
}

/// Whether every page but the last comes with a marker, and the last one
/// without.
pub open spec fn last_page_ends<T>(pages: Seq<PageView<T>>) -> bool {
    &&& pages.len() >= 1
    &&& forall|i: int| 0 <= i < pages.len() - 1 ==> (#[trigger] pages[i]).next_marker is Some
    &&& pages.last().next_marker is None
}

/// Pagination is complete and makes no needless request: where every page
/// but the last comes with a marker, a fresh listing ends as complete
/// after as many requests as there are pages, and holds the items of all
/// pages in order.
pub proof fn lemma_pagination<T>(pages: Seq<PageView<T>>)
    requires
        last_page_ends(pages),
    ensures
        ListerView::<T>::initial().run(pages).status == ListerStatus::Complete,
        ListerView::<T>::initial().run(pages).items == concat(pages),
        ListerView::<T>::initial().run(pages).requests == pages.len(),
        ListerView::<T>::initial().run(pages).pending() is None,
        ListerView::<T>::initial().run(pages).outcome() == Ok::<Seq<T>, ScanError>(concat(pages)),
{
    lemma_run_from(ListerView::<T>::initial(), pages);
    assert(Seq::<T>::empty() + concat(pages) =~= concat(pages));
}

/// `lemma_pagination` for a listing under way.
proof fn lemma_run_from<T>(start: ListerView<T>, pages: Seq<PageView<T>>)
    requires
        start.status == ListerStatus::Listing,
        last_page_ends(pages),
    ensures
        start.run(pages).status == ListerStatus::Complete,
        start.run(pages).items == start.items + concat(pages),
        start.run(pages).requests == start.requests + pages.len(),
    decreases pages.len(),
{
    let next = start.accept(Some(pages[0]));
    let rest = pages.drop_first();
    if pages.len() == 1 {
        assert(pages[0] == pages.last());
        assert(concat(rest) =~= Seq::<T>::empty());
        assert(start.items + pages[0].items + concat(rest) =~= start.items + concat(pages));
    } else {
        assert(pages[0].next_marker is Some);
        assert forall|i: int| 0 <= i < rest.len() - 1 implies (#[trigger] rest[i]).next_marker
            is Some by {
            assert(rest[i] == pages[i + 1]);
        }
        assert(rest.last() == pages.last());
        lemma_run_from(next, rest);
        assert(next.items + concat(rest) =~= start.items + concat(pages));
    }
}

/// A listing in progress.
#[derive(Debug)]
pub struct Lister<T> {
    items: Vec<T>,
    marker: Option<String>,
    requests: usize,
    status: ListerStatus,
}

impl<T> View for Lister<T> {
    type V = ListerView<T>;

    closed spec fn view(&self) -> ListerView<T> {
        ListerView {
            items: self.items@,
            marker: match self.marker {
                Some(marker) => Some(marker@),
                None => None,
            },
            requests: self.requests as nat,
            status: self.status,
        }
    }
}

/// The answer to a request as plain data: the page, or nothing if the
/// request failed.
pub open spec fn answer_of<T, E>(response: Result<Page<T>, E>) -> Option<PageView<T>> {
    match response {
        Ok(page) => Some(page@),
        Err(_) => None,
    }
}

impl<T> Lister<T> {
    /// A listing before its first request.
    pub fn new() -> (lister: Self)
        ensures
            lister@ == ListerView::<T>::initial(),
    {
        Lister { items: Vec::new(), marker: None, requests: 0, status: ListerStatus::Listing }
    }

    /// The request to send next, or `None` once the listing has ended.
    pub fn next_request(&self) -> (request: Option<ListRequest>)
        ensures
            request is Some <==> self@.pending() is Some,
            request matches Some(r) ==> self@.pending() == Some(
                match r.marker {
                    Some(marker) => Some(marker@),
                    None => None,
                },
            ),
    {
        match self.status {
            ListerStatus::Listing => Some(ListRequest { marker: self.marker.clone() }),
            _ => None,
        }
    }

    /// Takes in the answer to the pending request. A page adds its items; a
    /// page without a marker completes the listing; a failure ends it.
    /// Without a pending request the answer is ignored.
    ///
    /// The number of requests must still fit its counter.
    pub fn accept<E>(&mut self, response: Result<Page<T>, E>)
        requires
            old(self)@.requests < usize::MAX,
        ensures
            final(self)@ == old(self)@.accept(answer_of(response)),
    {
        match self.status {
            ListerStatus::Listing => {},
            _ => {
                return ;
            },
        }
        self.requests = self.requests + 1;
        match response {
            Ok(page) => {
                let mut items = page.items;
                self.items.append(&mut items);
                self.status = if page.next_marker.is_some() {
                    ListerStatus::Listing
                } else {
                    ListerStatus::Complete
                };
                self.marker = page.next_marker;
            },
            Err(_) => {
                self.status = ListerStatus::Failed;
            },
        }
    }

    /// How far the listing has come.
    pub fn status(&self) -> (status: ListerStatus)
        ensures
            status == self@.status,
    {
        self.status
    }

    /// How many requests have been answered.
    pub fn requests(&self) -> (n: usize)
        ensures
            n == self@.requests,
    {
        self.requests
    }

    /// Ends the listing: the whole inventory if the listing is complete, a
    /// listing error if a request failed or pages are still missing.
    pub fn finish(self) -> (inventory: Result<Vec<T>, ScanError>)
        ensures
            match inventory {
                Ok(items) => self@.outcome() == Ok::<Seq<T>, ScanError>(items@),
                Err(e) => self@.outcome() == Err::<Seq<T>, ScanError>(e),
            },
    {
        match self.status {
            ListerStatus::Complete => Ok(self.items),
            _ => Err(ScanError::Listing),
        }
    }
}

} // verus!
