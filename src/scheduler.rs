//! The crawl scheduler: hands out URLs to the bookstore capabilities with at
//! most `limit` tasks in flight, fails URLs of no known bookstore at once, and
//! keeps the tally of the run. The caller runs the tasks and reports each
//! completion; completion order carries no meaning.
use vstd::prelude::*;

use crate::source::{dispatch, site_of, Sites};

verus! {

/// The outcome counts of a run.
#[derive(Debug, Clone, Copy, PartialEq, Eq)]
pub struct RunSummary {
    /// Records built.
    pub successes: usize,
    /// URLs that failed, unknown sources included.
    pub failures: usize,
    /// URLs that matched no bookstore and were never fetched.
    pub unknown_source: usize,
    /// URLs handed to a bookstore capability.
    pub dispatched: usize,
}

/// What the caller does next.
#[derive(Debug, Clone, Copy, PartialEq, Eq)]
pub enum Dispatch {
    /// Start a task for the URL at `index`, with the capability of `site`.
    Start { index: usize, site: Sites },
    /// `limit` tasks are in flight: wait for one to complete.
    Full,
    /// Every URL has been handed out or failed: wait for the tasks in flight.
    Exhausted,
}

pub open spec fn str_seq_views(v: Seq<String>) -> Seq<Seq<char>> {
    v.map_values(|s: String| s@)
}

/// The number of URLs in `urls[from..to]` that match no bookstore.
pub open spec fn unknown_between(urls: Seq<Seq<char>>, from: int, to: int) -> nat
    decreases to - from,
{
    if to <= from {
        0
    } else {
        unknown_between(urls, from, to - 1) + if site_of(urls[to - 1]) is None {
            1nat
        } else {
            0nat
        }
    }
}

pub struct Scheduler {
    urls: Vec<String>,
    limit: usize,
    next: usize,
    in_flight: usize,
    dispatched: usize,
    successes: usize,
    failures: usize,
    unknown: usize,
}

impl Scheduler {
    pub closed spec fn spec_urls(&self) -> Seq<Seq<char>> {
        str_seq_views(self.urls@)
    }

    pub closed spec fn spec_limit(&self) -> nat {
        self.limit as nat
    }

    /// How many URLs have been handed out or failed so far.
    pub closed spec fn spec_next(&self) -> nat {
        self.next as nat
    }

    pub closed spec fn spec_in_flight(&self) -> nat {
        self.in_flight as nat
    }

    pub closed spec fn spec_dispatched(&self) -> nat {
        self.dispatched as nat
    }

    pub closed spec fn spec_successes(&self) -> nat {
        self.successes as nat
    }

    pub closed spec fn spec_failures(&self) -> nat {
        self.failures as nat
    }

    pub closed spec fn spec_unknown(&self) -> nat {
        self.unknown as nat
    }

    /// The scheduler's invariant: never more than `limit` tasks in flight,
    /// and every URL handed out is accounted for exactly once.
    pub open spec fn wf(&self) -> bool {
        &&& 1 <= self.spec_limit()
        &&& self.spec_in_flight() <= self.spec_limit()
        &&& self.spec_next() <= self.spec_urls().len()
        &&& self.spec_unknown() == unknown_between(self.spec_urls(), 0, self.spec_next() as int)
        &&& self.spec_dispatched() + self.spec_unknown() == self.spec_next()
        &&& self.spec_successes() + self.spec_failures() + self.spec_in_flight()
            == self.spec_dispatched()
    }

    /// In every state that a run reaches, no more than `limit` tasks are in
    /// flight: `new` establishes the invariant and every step keeps it.
    pub proof fn lemma_in_flight_bounded(&self)
        requires
            self.wf(),
        ensures
            self.spec_in_flight() <= self.spec_limit(),
    {
    }

    /// A scheduler over `urls` with at most `limit` tasks at a time.
    pub fn new(urls: Vec<String>, limit: usize) -> (r: Scheduler)
        requires
            limit >= 1,
        ensures
            r.wf(),
            r.spec_urls() == str_seq_views(urls@),
            r.spec_limit() == limit,
            r.spec_next() == 0,
            r.spec_in_flight() == 0,
            r.spec_successes() == 0,
            r.spec_failures() == 0,
    {
        Scheduler {
            urls,
            limit,
            next: 0,
            in_flight: 0,
            dispatched: 0,
            successes: 0,
            failures: 0,
            unknown: 0,
        }
    }

    /// The URL at `index`.
    pub fn url(&self, index: usize) -> (r: &str)
        requires
            index < self.spec_urls().len(),
        ensures
            r@ == self.spec_urls()[index as int],
    {
        self.urls[index].as_str()
    }

    /// Hands out the next URL of a known bookstore while fewer than `limit`
    /// tasks are in flight. URLs of no known bookstore met on the way fail at
    /// once and are counted, without a task.
    pub fn next_task(&mut self) -> (r: Dispatch)
        requires
            old(self).wf(),
        ensures
            final(self).wf(),
            final(self).spec_in_flight() <= final(self).spec_limit(),
            final(self).spec_urls() == old(self).spec_urls(),
            final(self).spec_limit() == old(self).spec_limit(),
            final(self).spec_successes() == old(self).spec_successes(),
            final(self).spec_failures() == old(self).spec_failures(),
            old(self).spec_next() <= final(self).spec_next(),
            forall|j: int|
                old(self).spec_next() <= j < final(self).spec_next() && !(r matches Dispatch::Start {
                    index,
                    ..
                } && j == index) ==> site_of(#[trigger] old(self).spec_urls()[j]) is None,
            match r {
                Dispatch::Start { index, site } => {
                    &&& old(self).spec_in_flight() < old(self).spec_limit()
                    &&& old(self).spec_next() <= index
                    &&& final(self).spec_next() == index + 1
                    &&& site_of(old(self).spec_urls()[index as int]) == Some(site)
                    &&& final(self).spec_in_flight() == old(self).spec_in_flight() + 1
                },
                Dispatch::Full => {
                    &&& old(self).spec_in_flight() == old(self).spec_limit()
                    &&& old(self).spec_next() < old(self).spec_urls().len()
                    &&& final(self).spec_next() == old(self).spec_next()
                    &&& final(self).spec_in_flight() == old(self).spec_in_flight()
                },
                Dispatch::Exhausted => {
                    &&& final(self).spec_next() == final(self).spec_urls().len()
                    &&& final(self).spec_in_flight() == old(self).spec_in_flight()
                },
            },
    {
        if self.in_flight == self.limit && self.next < self.urls.len() {
            return Dispatch::Full;
        }
        let ghost start = self.next;
        while self.next < self.urls.len()
            invariant
                self.wf(),
                self.in_flight < self.limit || self.next == self.urls.len(),
                self.urls == old(self).urls,
                self.limit == old(self).limit,
                self.in_flight == old(self).in_flight,
                self.successes == old(self).successes,
                self.failures == old(self).failures,
                start == old(self).next,
                start <= self.next,
                forall|j: int| start <= j < self.next ==> site_of(#[trigger] self.spec_urls()[j]) is None,
            decreases self.urls.len() - self.next,
        {
            let index = self.next;
            let site = dispatch(self.urls[index].as_str());
            self.next = self.next + 1;
            match site {
                Some(site) => {
                    self.in_flight = self.in_flight + 1;
                    self.dispatched = self.dispatched + 1;
                    return Dispatch::Start { index, site };
                },
                None => {
                    self.unknown = self.unknown + 1;
                },
            }
        }
        Dispatch::Exhausted
    }

    /// Records that a task in flight has completed, with a record or not.
    pub fn complete(&mut self, success: bool)
        requires
            old(self).wf(),
            old(self).spec_in_flight() > 0,
        ensures
            final(self).wf(),
            final(self).spec_urls() == old(self).spec_urls(),
            final(self).spec_limit() == old(self).spec_limit(),
            final(self).spec_next() == old(self).spec_next(),
            final(self).spec_in_flight() == old(self).spec_in_flight() - 1,
            final(self).spec_successes() == old(self).spec_successes() + if success {
                1nat
            } else {
                0nat
            },
            final(self).spec_failures() == old(self).spec_failures() + if success {
                0nat
            } else {
                1nat
            },
    {
        self.in_flight = self.in_flight - 1;
        if success {
            self.successes = self.successes + 1;
        } else {
            self.failures = self.failures + 1;
        }
    }

    /// How many URLs are finished: records built, tasks failed and URLs of no
    /// known bookstore.
    pub fn completed(&self) -> (r: usize)
        requires
            self.wf(),
        ensures
            r == self.spec_successes() + self.spec_failures() + self.spec_unknown(),
    {
        self.successes + self.failures + self.unknown
    }

    /// Tells whether every URL is finished.
    pub fn is_done(&self) -> (r: bool)
        requires
            self.wf(),
        ensures
            r == (self.spec_next() == self.spec_urls().len() && self.spec_in_flight() == 0),
            r ==> self.spec_successes() + self.spec_failures() + self.spec_unknown()
                == self.spec_urls().len(),
    {
        self.next == self.urls.len() && self.in_flight == 0
    }

    /// The tally so far.
    pub fn summary(&self) -> (r: RunSummary)
        requires
            self.wf(),
        ensures
            r.successes == self.spec_successes(),
            r.failures == self.spec_failures() + self.spec_unknown(),
            r.unknown_source == self.spec_unknown(),
            r.dispatched == self.spec_dispatched(),
    {
        RunSummary {
            successes: self.successes,
            failures: self.failures + self.unknown,
            unknown_source: self.unknown,
            dispatched: self.dispatched,
        }
    }
}

} // verus!
