//! The supported bookstores, and how a URL is matched to one of them.
use vstd::prelude::*;

use crate::retry::RetryPolicy;

verus! {

/// How many times Labirint's fetcher retries a request.
pub const MAX_RETRIES: u32 = 1;

/// The longest backoff, in seconds, between two attempts on Labirint.
pub const BACKOFF_CAP_SECS: u64 = 8;

/// `pat` occurs in `s` starting at position `i`.
pub open spec fn occurs_at(s: Seq<char>, pat: Seq<char>, i: int) -> bool {
    0 <= i && i + pat.len() <= s.len() && s.subrange(i, i + pat.len()) == pat
}

pub open spec fn contains_text(s: Seq<char>, pat: Seq<char>) -> bool {
    exists|i: int| occurs_at(s, pat, i)
}

pub(crate) fn matches_at(s: &str, pat: &str, i: usize) -> (r: bool)
    requires
        i + pat@.len() <= s@.len(),
        s@.len() <= usize::MAX,
    ensures
        r == occurs_at(s@, pat@, i as int),
{
    let m = pat.unicode_len();
    let mut k: usize = 0;
    while k < m
        invariant
            m == pat@.len(),
            i + m <= s@.len(),
            s@.len() <= usize::MAX,
            k <= m,
            forall|j: int| 0 <= j < k ==> s@[i + j] == pat@[j],
        decreases m - k,
    {
        if s.get_char(i + k) != pat.get_char(k) {
            proof {
                assert(s@.subrange(i as int, i + m)[k as int] != pat@[k as int]);
            }
            return false;
        }
        k = k + 1;
    }
    proof {
        assert(s@.subrange(i as int, i + m) =~= pat@);
    }
    true
}

/// Tells whether `pat` occurs in `s`.
pub fn contains_str(s: &str, pat: &str) -> (r: bool)
    ensures
        r == contains_text(s@, pat@),
{
    let n = s.unicode_len();
    let m = pat.unicode_len();
    if m > n {
        return false;
    }
    let mut i: usize = 0;
    loop
        invariant
            n == s@.len(),
            m == pat@.len(),
            m <= n,
            i <= n - m,
            forall|j: int| 0 <= j < i ==> !occurs_at(s@, pat@, j),
        decreases n - m - i,
    {
        if matches_at(s, pat, i) {
            return true;
        }
        if i == n - m {
            return false;
        }
        i = i + 1;
    }
}

/// A supported bookstore.
#[derive(Debug, Clone, Copy, PartialEq, Eq, Hash)]
pub enum Sites {
    Labirint,
    IgraSlov,
    Eksmo,
}

/// The bookstore whose host fragment a URL holds, tried in a fixed order.
pub open spec fn site_of(url: Seq<char>) -> Option<Sites> {
    if contains_text(url, "labirint"@) {
        Some(Sites::Labirint)
    } else if contains_text(url, "igraslov"@) {
        Some(Sites::IgraSlov)
    } else if contains_text(url, "eksmo"@) {
        Some(Sites::Eksmo)
    } else {
        None
    }
}

/// Matches a URL to its bookstore; `None` is an unknown source.
pub fn dispatch(url: &str) -> (r: Option<Sites>)
    ensures
        r == site_of(url@),
{
    if contains_str(url, "labirint") {
        Some(Sites::Labirint)
    } else if contains_str(url, "igraslov") {
        Some(Sites::IgraSlov)
    } else if contains_str(url, "eksmo") {
        Some(Sites::Eksmo)
    } else {
        None
    }
}

impl Sites {
    pub open spec fn spec_name(self) -> Seq<char> {
        match self {
            Sites::Labirint => "labirint"@,
            Sites::IgraSlov => "igra_slov"@,
            Sites::Eksmo => "eksmo"@,
        }
    }

    /// The tag written into the site column of the export.
    pub fn name(&self) -> (r: &'static str)
        ensures
            r@ == self.spec_name(),
    {
        match self {
            Sites::Labirint => "labirint",
            Sites::IgraSlov => "igra_slov",
            Sites::Eksmo => "eksmo",
        }
    }

    pub open spec fn spec_retry_policy(self) -> RetryPolicy {
        match self {
            Sites::Labirint => RetryPolicy { max_retries: MAX_RETRIES, cap_secs: BACKOFF_CAP_SECS },
            _ => RetryPolicy { max_retries: 0, cap_secs: 0 },
        }
    }

    /// How the fetcher of this bookstore retries: one retry with backoff
    /// capped at 8 s for Labirint, a single attempt for the others.
    pub fn retry_policy(&self) -> (r: RetryPolicy)
        ensures
            r == self.spec_retry_policy(),
    {
        match self {
            Sites::Labirint => RetryPolicy { max_retries: MAX_RETRIES, cap_secs: BACKOFF_CAP_SECS },
            _ => RetryPolicy::single_attempt(),
        }
    }

    pub open spec fn spec_accepts_url(self, url: Seq<char>) -> bool {
        match self {
            Sites::Labirint => contains_text(url, "books"@),
            _ => true,
        }
    }

    /// Tells whether this bookstore's fetcher takes the URL: Labirint only
    /// fetches book pages.
    pub fn accepts_url(&self, url: &str) -> (r: bool)
        ensures
            r == self.spec_accepts_url(url@),
    {
        match self {
            Sites::Labirint => contains_str(url, "books"),
            _ => true,
        }
    }
}

} // verus!
