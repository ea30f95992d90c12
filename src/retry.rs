//! The decisions of the page fetcher: how a response or a failure is
//! classified, how long to wait before the next attempt, and when to give up.
//! The caller performs each request and each wait; this module only decides.
use vstd::prelude::*;

verus! {

pub open spec fn pow2(n: nat) -> nat
    decreases n,
{
    if n == 0 {
        1
    } else {
        2 * pow2((n - 1) as nat)
    }
}

proof fn lemma_pow2_mono(a: nat, b: nat)
    requires
        a <= b,
    ensures
        pow2(a) <= pow2(b),
    decreases b,
{
    if a < b {
        lemma_pow2_mono(a, (b - 1) as nat);
    }
}

pub open spec fn min_nat(a: nat, b: nat) -> nat {
    if a <= b {
        a
    } else {
        b
    }
}

/// The backoff after failed attempt number `attempt` (from 0): `2^attempt`
/// seconds, never more than `cap`.
pub open spec fn backoff_spec(attempt: nat, cap: nat) -> nat {
    min_nat(pow2(attempt), cap)
}

/// Computes `min(2^attempt, cap)`.
pub fn backoff_secs(attempt: u32, cap: u64) -> (r: u64)
    ensures
        r == backoff_spec(attempt as nat, cap as nat),
{
    let mut w: u128 = 1;
    let mut k: u32 = 0;
    while k < attempt && w < cap as u128
        invariant
            k <= attempt,
            w == pow2(k as nat),
            w <= 2 * (cap as u128) || k == 0,
            w >= 1,
        decreases attempt - k,
    {
        w = w * 2;
        k = k + 1;
    }
    proof {
        if w >= cap {
            lemma_pow2_mono(k as nat, attempt as nat);
        }
    }
    if w < cap as u128 {
        w as u64
    } else {
        cap
    }
}

/// How a response status is treated.
#[derive(Debug, Clone, Copy, PartialEq, Eq)]
pub enum StatusClass {
    /// 2xx: the body is used.
    Success,
    /// 429 or 5xx: the request may be tried again.
    Retryable,
    /// Any other status: the fetch fails at once.
    Terminal,
}

pub open spec fn class_of(status: u16) -> StatusClass {
    if 200 <= status && status <= 299 {
        StatusClass::Success
    } else if status == 429 || (500 <= status && status <= 599) {
        StatusClass::Retryable
    } else {
        StatusClass::Terminal
    }
}

pub fn classify(status: u16) -> (r: StatusClass)
    ensures
        r == class_of(status),
{
    if 200 <= status && status <= 299 {
        StatusClass::Success
    } else if status == 429 || (500 <= status && status <= 599) {
        StatusClass::Retryable
    } else {
        StatusClass::Terminal
    }
}

/// What one attempt of a request came to.
#[derive(Debug, Clone, Copy, PartialEq, Eq)]
pub enum AttemptResult {
    /// A response arrived, with the server's retry-after value in seconds
    /// when it sent one.
    Response { status: u16, retry_after: Option<u64> },
    /// The connection failed.
    Network,
    /// The request timed out.
    Timeout,
}

/// Why a fetch failed.
#[derive(Debug, Clone, Copy, PartialEq, Eq)]
pub enum FetchError {
    Network,
    HttpStatus(u16),
    Timeout,
}

/// What the caller does next.
#[derive(Debug, Clone, Copy, PartialEq, Eq)]
pub enum NextStep {
    /// Read the body of the response that just arrived.
    Deliver,
    /// Sleep this many seconds, then try again.
    Wait(u64),
    /// Give up with this error.
    Fail(FetchError),
}

/// The limits of the retry loop: at most `max_retries` attempts after the
/// first, with backoff capped at `cap_secs`.
#[derive(Debug, Clone, Copy, PartialEq, Eq)]
pub struct RetryPolicy {
    pub max_retries: u32,
    pub cap_secs: u64,
}

impl RetryPolicy {
    /// A single attempt, never retried.
    pub fn single_attempt() -> (r: RetryPolicy)
        ensures
            r == (RetryPolicy { max_retries: 0, cap_secs: 0 }),
    {
        RetryPolicy { max_retries: 0, cap_secs: 0 }
    }
}

/// The error surfaced when a fetch ends on a failure of the connection: the
/// last status if any response came, else that failure.
pub open spec fn exhausted_error(last_status: Option<u16>, failure: FetchError) -> FetchError {
    match last_status {
        Some(s) => FetchError::HttpStatus(s),
        None => failure,
    }
}

/// The state of one logical fetch: how many attempts have failed so far and
/// the last status received.
#[derive(Debug, Clone, Copy, PartialEq, Eq)]
pub struct RetryState {
    pub policy: RetryPolicy,
    pub attempt: u32,
    pub last_status: Option<u16>,
    pub finished: bool,
}

impl RetryState {
    pub open spec fn wf(&self) -> bool {
        self.attempt <= self.policy.max_retries
    }

    /// The state at the start of a logical fetch: no attempt made yet.
    pub fn new(policy: RetryPolicy) -> (r: RetryState)
        ensures
            r.wf(),
            r.policy == policy,
            r.attempt == 0,
            r.last_status == None::<u16>,
            !r.finished,
    {
        RetryState { policy, attempt: 0, last_status: None, finished: false }
    }

    /// Decides what follows an attempt. A 2xx response is delivered. A 429 or
    /// 5xx response, a connection failure or a timeout is retried while
    /// retries remain, after the server's retry-after value or else the
    /// backoff. Any other status fails at once, without waiting.
    pub fn on_result(&mut self, res: AttemptResult) -> (r: NextStep)
        requires
            old(self).wf(),
            !old(self).finished,
        ensures
            final(self).wf(),
            final(self).policy == old(self).policy,
            final(self).finished <==> !(r is Wait),
            !(r is Wait) ==> final(self).attempt == old(self).attempt,
            ({
                let can_retry = old(self).attempt < old(self).policy.max_retries;
                let backoff = backoff_spec(old(self).attempt as nat, old(self).policy.cap_secs as nat);
                match res {
                    AttemptResult::Response { status, retry_after } => {
                        final(self).last_status == Some(status) && match class_of(status) {
                            StatusClass::Success => r == NextStep::Deliver,
                            StatusClass::Retryable => if can_retry {
                                r == NextStep::Wait(
                                    match retry_after {
                                        Some(s) => s,
                                        None => backoff as u64,
                                    },
                                ) && final(self).attempt == old(self).attempt + 1
                            } else {
                                r == NextStep::Fail(FetchError::HttpStatus(status))
                            },
                            StatusClass::Terminal => r == NextStep::Fail(
                                FetchError::HttpStatus(status),
                            ),
                        }
                    },
                    AttemptResult::Network => final(self).last_status == old(self).last_status
                        && if can_retry {
                        r == NextStep::Wait(backoff as u64) && final(self).attempt == old(
                            self,
                        ).attempt + 1
                    } else {
                        r == NextStep::Fail(exhausted_error(old(self).last_status, FetchError::Network))
                    },
                    AttemptResult::Timeout => final(self).last_status == old(self).last_status
                        && if can_retry {
                        r == NextStep::Wait(backoff as u64) && final(self).attempt == old(
                            self,
                        ).attempt + 1
                    } else {
                        r == NextStep::Fail(exhausted_error(old(self).last_status, FetchError::Timeout))
                    },
                }
            }),
    {
        let can_retry = self.attempt < self.policy.max_retries;
        let failure = match res {
            AttemptResult::Response { status, retry_after } => {
                self.last_status = Some(status);
                match classify(status) {
                    StatusClass::Success => {
                        self.finished = true;
                        return NextStep::Deliver;
                    },
                    StatusClass::Retryable => {
                        if can_retry {
                            let wait = match retry_after {
                                Some(s) => s,
                                None => backoff_secs(self.attempt, self.policy.cap_secs),
                            };
                            self.attempt = self.attempt + 1;
                            return NextStep::Wait(wait);
                        }
                        self.finished = true;
                        return NextStep::Fail(FetchError::HttpStatus(status));
                    },
                    StatusClass::Terminal => {
                        self.finished = true;
                        return NextStep::Fail(FetchError::HttpStatus(status));
                    },
                }
            },
            AttemptResult::Network => FetchError::Network,
            AttemptResult::Timeout => FetchError::Timeout,
        };
        if can_retry {
            let wait = backoff_secs(self.attempt, self.policy.cap_secs);
            self.attempt = self.attempt + 1;
            NextStep::Wait(wait)
        } else {
            self.finished = true;
            match self.last_status {
                Some(s) => NextStep::Fail(FetchError::HttpStatus(s)),
                None => NextStep::Fail(failure),
            }
        }
    }
}

} // verus!
