//! The cursor-based pagination engine.
//!
//! The engine drives repeated dispatcher calls with a page-token
//! cursor, accumulating records up to a caller-supplied total limit.
//! Continuation is inferred from one rule alone: a page is "full" when
//! it holds exactly the expected page size, and only then is the last
//! record's identifier promoted to the next cursor.  The limit is
//! checked only between pages, so the page that crosses it is still
//! accumulated whole.  Any dispatch failure aborts the whole
//! accumulation: the error is surfaced and the partial results are
//! discarded, never returned.

use crate::request::ApiError;
use crate::trading::activities::TradeActivity;
use vstd::prelude::*;

verus! {

/// The one continuation rule: a page promises another page exactly when
/// it is full, that is, holds exactly the expected page size and is not
/// empty.
pub open spec fn page_full(page_len: nat, expected: nat) -> bool {
    page_len == expected && page_len > 0
}

/// Whether a page of `page_len` records promises another page.
pub fn should_continue(page_len: usize, expected: usize) -> (r: bool)
    ensures
        r == page_full(page_len as nat, expected as nat),
{
    page_len == expected && page_len > 0
}

/// One synchronous `GET` against the activities route.  The transport
/// is an external collaborator: nothing is assumed of what it returns,
/// and the engine is verified for every outcome.
pub trait ActivityDispatcher {
    fn fetch(&mut self, url: &str) -> Result<Vec<TradeActivity>, ApiError>;
}

/// `pages` is a sequence of pages the dispatcher could have answered
/// with, in order, such that the engine asked for every one of them:
/// each was requested while the accumulated total was still below the
/// limit, and each page after the first was requested because the page
/// before it was full.
pub open spec fn valid_fetch_trace(
    pages: Seq<Seq<TradeActivity>>,
    max_total: nat,
    expected: nat,
) -> bool
    decreases pages.len(),
{
    if pages.len() == 0 {
        true
    } else {
        let prior = pages.drop_last();
        valid_fetch_trace(prior, max_total, expected) && prior.flatten().len() < max_total && (
        prior.len() == 0 || page_full(prior.last().len(), expected))
    }
}

/// A fetch trace after which the engine stops: either nothing was ever
/// fetched because the limit was zero, or the accumulated total reached
/// the limit, or the last page was not full.
pub open spec fn complete_trace(
    pages: Seq<Seq<TradeActivity>>,
    max_total: nat,
    expected: nat,
) -> bool {
    valid_fetch_trace(pages, max_total, expected) && if pages.len() == 0 {
        max_total == 0
    } else {
        pages.flatten().len() >= max_total || !page_full(pages.last().len(), expected)
    }
}

/// The engine's state between pages.
pub struct PageState {
    pub route: String,
    pub max_total: usize,
    pub expected_page_size: usize,
    pub cursor: Option<String>,
    pub records: Vec<TradeActivity>,
    pub finished: bool,
}

impl PageState {
    /// Whether another fetch is still owed: the engine has neither seen
    /// a short page nor reached the limit.
    pub open spec fn active(self) -> bool {
        !self.finished && self.records@.len() < self.max_total
    }

    /// An upper bound on the records still to be fetched; each
    /// continuing iteration lowers it.
    pub open spec fn fuel(self) -> int {
        if self.finished || self.records@.len() >= self.max_total {
            0
        } else {
            self.max_total - self.records@.len()
        }
    }

    /// The initial state: no cursor, nothing accumulated.
    pub fn new(route: String, max_total: usize, expected_page_size: usize) -> (r: Self)
        ensures
            r.route@ == route@,
            r.max_total == max_total,
            r.expected_page_size == expected_page_size,
            r.cursor is None,
            r.records@ == Seq::<TradeActivity>::empty(),
            !r.finished,
    {
        let r = Self {
            route,
            max_total,
            expected_page_size,
            cursor: None,
            records: Vec::new(),
            finished: false,
        };
        proof {
            assert(r.records@ =~= Seq::<TradeActivity>::empty());
        }
        r
    }

    /// The URL of the next fetch, if one is owed: the route itself, or
    /// the route with `&page_token={cursor}` appended once a cursor is
    /// held.
    pub fn next_url(&self) -> (r: Option<String>)
        ensures
            match r {
                Some(u) => self.active() && u@ == match self.cursor {
                    Some(c) => self.route@ + "&page_token="@ + c@,
                    None => self.route@,
                },
                None => !self.active(),
            },
    {
        if self.finished || self.records.len() >= self.max_total {
            None
        } else {
            match &self.cursor {
                Some(c) => {
                    let mut u = self.route.clone();
                    u.append("&page_token=");
                    u.append(c.as_str());
                    Some(u)
                },
                None => Some(self.route.clone()),
            }
        }
    }

    /// Accumulate one page.  Every record counts, even past the limit;
    /// a full page promotes its last record's identifier to the cursor,
    /// any other page finishes the run.
    pub fn accept_page(&mut self, page: Vec<TradeActivity>)
        ensures
            final(self).route@ == old(self).route@,
            final(self).max_total == old(self).max_total,
            final(self).expected_page_size == old(self).expected_page_size,
            final(self).records@ == old(self).records@ + page@,
            final(self).finished == !page_full(
                page@.len(),
                old(self).expected_page_size as nat,
            ),
            page_full(page@.len(), old(self).expected_page_size as nat)
                ==> (final(self).cursor matches Some(c) && c@ == page@.last().id@),
            !page_full(page@.len(), old(self).expected_page_size as nat)
                ==> final(self).cursor is None,
    {
        let full = should_continue(page.len(), self.expected_page_size);
        if full {
            let last_id = page[page.len() - 1].id.clone();
            self.cursor = Some(last_id);
        } else {
            self.cursor = None;
        }
        self.finished = !full;
        let mut page = page;
        self.records.append(&mut page);
    }

    /// Hand the accumulation over.
    pub fn into_records(self) -> (r: Vec<TradeActivity>)
        ensures
            r == self.records,
    {
        self.records
    }
}

/// Run the engine to completion against a dispatcher.
///
/// On success the result is exactly the concatenation of a complete
/// fetch trace: pages were requested strictly in sequence, each one
/// only while the total was below `max_total` and after a full
/// predecessor, and the run stopped as soon as a page came back short
/// or the limit was reached.  On failure the error is the dispatcher's
/// own, surfaced from a fetch the trace still owed, and every already
/// accumulated record is discarded.
pub fn paginate<D: ActivityDispatcher>(
    dispatcher: &mut D,
    route: String,
    max_total: usize,
    expected_page_size: usize,
) -> (r: Result<Vec<TradeActivity>, ApiError>)
    ensures
        match r {
            Ok(records) => exists|pages: Seq<Seq<TradeActivity>>|
                #[trigger] complete_trace(pages, max_total as nat, expected_page_size as nat)
                    && records@ == pages.flatten(),
            Err(_) => exists|pages: Seq<Seq<TradeActivity>>|
                #[trigger] valid_fetch_trace(pages, max_total as nat, expected_page_size as nat)
                    && pages.flatten().len() < max_total,
        },
{
    let mut st = PageState::new(route, max_total, expected_page_size);
    let ghost mut pages: Seq<Seq<TradeActivity>> = Seq::empty();
    proof {
        assert(pages.flatten() =~= Seq::<TradeActivity>::empty());
    }
    loop
        invariant
            st.max_total == max_total,
            st.expected_page_size == expected_page_size,
            valid_fetch_trace(pages, max_total as nat, expected_page_size as nat),
            st.records@ == pages.flatten(),
            st.finished == (pages.len() > 0 && !page_full(
                pages.last().len(),
                expected_page_size as nat,
            )),
        decreases st.fuel(),
    {
        match st.next_url() {
            None => {
                proof {
                    assert(complete_trace(pages, max_total as nat, expected_page_size as nat));
                }
                return Ok(st.into_records());
            },
            Some(url) => {
                match dispatcher.fetch(url.as_str()) {
                    Ok(page) => {
                        let ghost page_view = page@;
                        st.accept_page(page);
                        proof {
                            pages.lemma_flatten_push(page_view);
                            assert(pages.push(page_view).drop_last() =~= pages);
                            pages = pages.push(page_view);
                        }
                    },
                    Err(e) => {
                        proof {
                            assert(valid_fetch_trace(
                                pages,
                                max_total as nat,
                                expected_page_size as nat,
                            ) && pages.flatten().len() < max_total);
                        }
                        return Err(e);
                    },
                }
            },
        }
    }
}

} // verus!
