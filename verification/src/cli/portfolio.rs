//! Paging through an owner's names: batch sizes, the cursor of each request,
//! shrinking the batch after a time-out, and when to stop.

use vstd::prelude::*;

use crate::sdk::errors::SdkError;
use crate::text::{chars_of, contains_chars, lower_chars, lowercase_chars, vec_contains_chars};

verus! {

/// Names fetched per request unless asked otherwise.
pub const DEFAULT_BATCH_SIZE: usize = 50;

/// The smallest batch a request may ask for.
pub const MIN_BATCH_SIZE: usize = 1;

#[derive(Debug, Clone, Copy, PartialEq, Eq, Structural)]
pub struct PortfolioOptions {
    pub batch_size: usize,
    /// At most this many names in all.
    pub limit: Option<usize>,
    /// Only this page (counted from 1) of `batch_size` names.
    pub page: Option<usize>,
}

impl Default for PortfolioOptions {
    fn default() -> (o: Self)
        ensures
            o == (PortfolioOptions { batch_size: DEFAULT_BATCH_SIZE, limit: None, page: None }),
    {
        PortfolioOptions { batch_size: DEFAULT_BATCH_SIZE, limit: None, page: None }
    }
}

impl PortfolioOptions {
    /// The same options with the batch size raised to at least one.
    pub fn normalized(self) -> (o: Self)
        ensures
            o == (PortfolioOptions {
                batch_size: if self.batch_size < MIN_BATCH_SIZE {
                    MIN_BATCH_SIZE
                } else {
                    self.batch_size
                },
                ..self
            }),
    {
        PortfolioOptions {
            batch_size: if self.batch_size < MIN_BATCH_SIZE {
                MIN_BATCH_SIZE
            } else {
                self.batch_size
            },
            limit: self.limit,
            page: self.page,
        }
    }
}

/// Whether a failure message, ASCII lower-cased, mentions a time-out.
pub open spec fn mentions_timeout(message: Seq<char>) -> bool {
    contains_chars(lower_chars(message), "timeout"@) || contains_chars(
        lower_chars(message),
        "timed out"@,
    )
}

/// Whether a failed page request timed out, so that a smaller batch may
/// succeed.
pub open spec fn timed_out(err: SdkError) -> bool {
    match err {
        SdkError::Transport(m) => mentions_timeout(m@),
        SdkError::InvalidRequest(m) => mentions_timeout(m@),
        SdkError::TransactionTimeout { .. } => true,
        _ => false,
    }
}

fn message_mentions_timeout(message: &str) -> (r: bool)
    ensures
        r == mentions_timeout(message@),
{
    let lower = lowercase_chars(message);
    vec_contains_chars(&lower, &chars_of("timeout")) || vec_contains_chars(
        &lower,
        &chars_of("timed out"),
    )
}

pub fn is_timeout_error(err: &SdkError) -> (r: bool)
    ensures
        r == timed_out(*err),
{
    match err {
        SdkError::Transport(message) => message_mentions_timeout(message.as_str()),
        SdkError::InvalidRequest(message) => message_mentions_timeout(message.as_str()),
        SdkError::TransactionTimeout { .. } => true,
        _ => false,
    }
}

/// Where a listing stands: the cursor of the next request, the batch size
/// in use, and how many names were fetched so far.
#[derive(Debug, Clone, Copy, PartialEq, Eq, Structural)]
pub struct PortfolioProgress {
    pub cursor: Option<usize>,
    pub page_size: usize,
    pub fetched: usize,
}

/// What to do after a page request failed.
#[derive(Debug, Clone, Copy, PartialEq, Eq, Structural)]
pub enum FailureStep {
    /// Ask again with this smaller batch size.
    Retry(usize),
    /// Report the failure and stop.
    GiveUp,
}

/// What to do after a page arrived.
#[derive(Debug, Clone, Copy, PartialEq, Eq, Structural)]
pub enum PageStep {
    /// Ask for the next page from this cursor.
    Continue(usize),
    /// The listing is complete.
    Done,
}

/// The first cursor: the start of the requested page, or the beginning.
pub open spec fn first_cursor(o: PortfolioOptions) -> Option<usize> {
    match o.page {
        Some(p) => Some(((if p == 0 {
            0
        } else {
            p - 1
        }) * o.batch_size) as usize),
        None => None,
    }
}

/// Whether the first cursor fits in a `usize`.
pub open spec fn first_cursor_fits(o: PortfolioOptions) -> bool {
    match o.page {
        Some(p) => (if p == 0 {
            0
        } else {
            p - 1
        }) * o.batch_size <= usize::MAX,
        None => true,
    }
}

/// Starts a listing with normalised options.
pub fn start_portfolio(options: PortfolioOptions) -> (p: PortfolioProgress)
    requires
        first_cursor_fits(options),
    ensures
        p == (PortfolioProgress {
            cursor: first_cursor(options),
            page_size: options.batch_size,
            fetched: 0,
        }),
{
    let cursor = match options.page {
        Some(page) => Some(page.saturating_sub(1) * options.batch_size),
        None => None,
    };
    PortfolioProgress { cursor, page_size: options.batch_size, fetched: 0 }
}

/// How many names the next request asks for: the batch size, capped by
/// what the limit leaves; `None` once the limit is reached.
pub open spec fn next_request(o: PortfolioOptions, p: PortfolioProgress) -> Option<usize> {
    match o.limit {
        Some(limit) => {
            let remaining = if limit > p.fetched {
                (limit - p.fetched) as usize
            } else {
                0usize
            };
            if remaining == 0 {
                None
            } else if remaining < p.page_size {
                Some(remaining)
            } else {
                Some(p.page_size)
            }
        },
        None => Some(p.page_size),
    }
}

pub fn requested_size(options: PortfolioOptions, progress: PortfolioProgress) -> (r: Option<usize>)
    ensures
        r == next_request(options, progress),
{
    match options.limit {
        Some(limit) => {
            let remaining = limit.saturating_sub(progress.fetched);
            if remaining == 0 {
                None
            } else if remaining < progress.page_size {
                Some(remaining)
            } else {
                Some(progress.page_size)
            }
        },
        None => Some(progress.page_size),
    }
}

/// After a failed request: a time-out with room to shrink halves the batch
/// (never below the minimum); anything else ends the listing.
pub open spec fn failure_step(p: PortfolioProgress, timed_out: bool) -> FailureStep {
    if timed_out && p.page_size > MIN_BATCH_SIZE {
        FailureStep::Retry(if p.page_size / 2 < MIN_BATCH_SIZE {
            MIN_BATCH_SIZE
        } else {
            p.page_size / 2
        })
    } else {
        FailureStep::GiveUp
    }
}

pub fn after_failure(progress: PortfolioProgress, timed_out: bool) -> (s: FailureStep)
    ensures
        s == failure_step(progress, timed_out),
{
    if timed_out && progress.page_size > MIN_BATCH_SIZE {
        let half = progress.page_size / 2;
        FailureStep::Retry(if half < MIN_BATCH_SIZE {
            MIN_BATCH_SIZE
        } else {
            half
        })
    } else {
        FailureStep::GiveUp
    }
}

/// After a page of `received` names with next cursor `next`: a single page
/// was asked for, the cursor did not move, or no page is left, and the
/// listing is done; otherwise it continues from `next`.
pub open spec fn page_step(o: PortfolioOptions, p: PortfolioProgress, next: Option<usize>) -> PageStep {
    if o.page is Some || p.cursor == next || next is None {
        PageStep::Done
    } else {
        PageStep::Continue(next->0)
    }
}

pub fn after_page(
    options: PortfolioOptions,
    progress: PortfolioProgress,
    received: usize,
    next_cursor: Option<usize>,
) -> (r: (PortfolioProgress, PageStep))
    requires
        progress.fetched + received <= usize::MAX,
    ensures
        r.0 == (PortfolioProgress {
            fetched: (progress.fetched + received) as usize,
            cursor: match r.1 {
                PageStep::Continue(c) => Some(c),
                PageStep::Done => progress.cursor,
            },
            ..progress
        }),
        r.1 == page_step(options, progress, next_cursor),
{
    let fetched = progress.fetched + received;
    let step = if options.page.is_some() || progress.cursor == next_cursor || next_cursor.is_none() {
        PageStep::Done
    } else {
        match next_cursor {
            Some(c) => PageStep::Continue(c),
            None => PageStep::Done,
        }
    };
    let cursor = match step {
        PageStep::Continue(c) => Some(c),
        PageStep::Done => progress.cursor,
    };
    (PortfolioProgress { cursor, fetched, ..progress }, step)
}

/// Shrinking after a time-out always makes progress: the new batch is
/// smaller but never below the minimum, so a listing cannot retry forever.
pub proof fn law_timeout_shrinks_batch(p: PortfolioProgress, timed_out: bool)
    ensures
        failure_step(p, timed_out) matches FailureStep::Retry(n) ==> MIN_BATCH_SIZE <= n
            < p.page_size,
        !timed_out ==> failure_step(p, timed_out) == FailureStep::GiveUp,
        p.page_size <= MIN_BATCH_SIZE ==> failure_step(p, timed_out) == FailureStep::GiveUp,
{
}

/// A listing never asks for more than its limit leaves, nor for more than
/// the batch size.
pub proof fn law_requests_respect_limit(o: PortfolioOptions, p: PortfolioProgress)
    ensures
        next_request(o, p) matches Some(n) ==> n <= p.page_size && (o.limit matches Some(l)
            ==> p.fetched + n <= l),
        o.limit matches Some(l) && p.fetched >= l ==> next_request(o, p) is None,
{
}

} // verus!
