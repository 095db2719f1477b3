//! The script-history collector: reconstructs one script's complete
//! transaction history across paginated results. The first page is requested
//! without a cursor; while a page suggests more data (25 or more confirmed
//! entries on the first page, 25 or more entries on a later page), the next
//! page is requested with the last collected record's transaction id as
//! cursor, and the pages are concatenated in API-return order.

use vstd::prelude::*;
use crate::records::{TxRecord, TxRecordV, Txid, record_views};

verus! {

/// The number of confirmed records the service puts on one full page.
pub const PAGE_SIZE: usize = 25;

/// How many records of the stretch are confirmed.
pub open spec fn confirmed_count(s: Seq<TxRecordV>) -> int
    decreases s.len(),
{
    if s.len() == 0 {
        0
    } else {
        confirmed_count(s.drop_last()) + if s.last().confirmed {
            1int
        } else {
            0int
        }
    }
}

/// At most every record of a stretch is confirmed.
pub proof fn lemma_confirmed_count_bounds(s: Seq<TxRecordV>)
    ensures
        0 <= confirmed_count(s) <= s.len(),
    decreases s.len(),
{
    if s.len() > 0 {
        lemma_confirmed_count_bounds(s.drop_last());
    }
}

/// Count the confirmed records of a page.
pub fn count_confirmed(page: &Vec<TxRecord>) -> (n: usize)
    ensures
        n == confirmed_count(record_views(page@)),
{
    let ghost s = record_views(page@);
    proof {
        lemma_confirmed_count_bounds(s);
    }
    let mut n: usize = 0;
    let mut i: usize = 0;
    while i < page.len()
        invariant
            i <= page.len(),
            s == record_views(page@),
            n == confirmed_count(s.take(i as int)),
            n <= i,
        decreases page.len() - i,
    {
        proof {
            assert(s.take(i + 1 as int).drop_last() =~= s.take(i as int));
            assert(s.take(i + 1 as int).last() == s[i as int]);
        }
        if page[i].confirmed {
            n = n + 1;
        }
        i = i + 1;
    }
    proof {
        assert(s.take(s.len() as int) =~= s);
    }
    n
}

/// Collects one script's history page by page. Create one per script, feed
/// it each fetched page, and take the concatenated history once it is done.
#[derive(Debug)]
pub struct Collector {
    /// The records collected so far, in API-return order.
    pub history: Vec<TxRecord>,
    /// Whether the first page has not been received yet.
    pub first_page_pending: bool,
    /// Whether the history is complete: a page was seen that rules out
    /// further data.
    pub done: bool,
}

impl Collector {
    /// Before the first page the history is empty; while pages are still
    /// expected after the first, the history is non-empty (so a cursor
    /// exists).
    pub open spec fn wf(&self) -> bool {
        &&& self.first_page_pending ==> self.history@.len() == 0 && !self.done
        &&& !self.first_page_pending && !self.done ==> self.history@.len() > 0
    }

    /// A collector awaiting a script's first page.
    pub fn new() -> (c: Self)
        ensures
            c.wf(),
            c.first_page_pending,
            !c.done,
            c.history@.len() == 0,
    {
        Collector { history: Vec::new(), first_page_pending: true, done: false }
    }

    /// Whether the history is complete.
    pub fn is_done(&self) -> (b: bool)
        ensures
            b == self.done,
    {
        self.done
    }

    /// The cursor for the next page request: none for the first page, and
    /// the last collected record's transaction id afterwards.
    pub fn next_cursor(&self) -> (c: Option<Txid>)
        requires
            self.wf(),
            !self.done,
        ensures
            self.first_page_pending ==> c is None,
            !self.first_page_pending ==> (c matches Some(t) && t@ == self.history@.last().txid@),
    {
        if self.first_page_pending {
            None
        } else {
            Some(self.history[self.history.len() - 1].txid.dup())
        }
    }

    /// Record one fetched page. Returns whether another page must be
    /// fetched: on the first page, exactly when it holds `PAGE_SIZE` or more
    /// confirmed records; on a later page, exactly when it holds `PAGE_SIZE`
    /// or more records. So a script whose first page holds fewer than
    /// `PAGE_SIZE` confirmed records is complete after exactly one fetch,
    /// and a history whose confirmed count is an exact multiple of
    /// `PAGE_SIZE` is completed by one additional, empty page.
    pub fn on_page(&mut self, page: Vec<TxRecord>) -> (more: bool)
        requires
            old(self).wf(),
            !old(self).done,
        ensures
            final(self).wf(),
            final(self).history@ == old(self).history@ + page@,
            !final(self).first_page_pending,
            old(self).first_page_pending ==> (final(self).done <==> confirmed_count(
                record_views(page@),
            ) < PAGE_SIZE),
            !old(self).first_page_pending ==> (final(self).done <==> page@.len() < PAGE_SIZE),
            more == !final(self).done,
    {
        let full: bool = if self.first_page_pending {
            let n = count_confirmed(&page);
            proof {
                lemma_confirmed_count_bounds(record_views(page@));
            }
            n >= PAGE_SIZE
        } else {
            page.len() >= PAGE_SIZE
        };
        let mut page = page;
        self.history.append(&mut page);
        self.first_page_pending = false;
        self.done = !full;
        full
    }

    /// The complete history, in API-return order.
    pub fn into_history(self) -> (h: Vec<TxRecord>)
        requires
            self.done,
        ensures
            h@ == self.history@,
    {
        self.history
    }
}

} // verus!
