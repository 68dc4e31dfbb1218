//! Upvote tokens: each upload of new images hands out a token worth a fixed number of
//! upvotes, kept in a cache; every counted upvote spends one, and a spent token is dropped.
use vstd::prelude::*;
use vstd::string::*;
use crate::text::concat2;

verus! {

/// The cache key of an upvote token: `upvote.<token>`.
pub fn upvote_cache_key(token: &str) -> (r: String)
    ensures
        r@ == "upvote."@ + token@,
{
    concat2("upvote.", token)
}

/// What happens to an upvote request once the token's remaining upvotes are known.
#[derive(Debug, Clone, Copy, PartialEq, Eq)]
pub enum UpvoteAdmission {
    /// The token is unknown or spent: drop the cache entry and answer 403 "No upvote token".
    Refuse,
    /// The token still has this many upvotes: count the upvote in the database.
    Proceed(i8),
}

/// Decides on an upvote request from the cached number of remaining upvotes of its token.
pub fn admit_upvote(remaining: Option<i8>) -> (r: UpvoteAdmission)
    ensures
        r == spec_admit_upvote(remaining),
{
    match remaining {
        None => UpvoteAdmission::Refuse,
        Some(x) => if x == 0 {
            UpvoteAdmission::Refuse
        } else {
            UpvoteAdmission::Proceed(x)
        },
    }
}

/// See `admit_upvote`.
pub open spec fn spec_admit_upvote(remaining: Option<i8>) -> UpvoteAdmission {
    match remaining {
        None => UpvoteAdmission::Refuse,
        Some(x) => if x == 0 {
            UpvoteAdmission::Refuse
        } else {
            UpvoteAdmission::Proceed(x)
        },
    }
}

/// What happens once the database has counted (or not) the upvote.
#[derive(Debug, Clone, Copy, PartialEq, Eq)]
pub enum UpvoteOutcome {
    /// No public image was upvoted: answer 403 with the number of rows affected; the token
    /// keeps its upvotes.
    NotCounted(u64),
    /// The token's last upvote was spent: drop the cache entry, send the removal of the
    /// cookie, and answer 200 with the number of rows affected.
    Spent(u64),
    /// The upvote was counted: store the remaining upvotes and answer 200 with the number of
    /// rows affected.
    Counted(u64, i8),
}

/// See `after_upvote`.
pub open spec fn spec_after_upvote(remaining: i8, rows_affected: u64) -> UpvoteOutcome {
    if rows_affected == 0 {
        UpvoteOutcome::NotCounted(rows_affected)
    } else if remaining - 1 == 0 {
        UpvoteOutcome::Spent(rows_affected)
    } else {
        UpvoteOutcome::Counted(rows_affected, (remaining - 1) as i8)
    }
}

/// Decides what follows once the database reports how many rows the upvote changed.
pub fn after_upvote(remaining: i8, rows_affected: u64) -> (r: UpvoteOutcome)
    requires
        remaining > i8::MIN,
    ensures
        r == spec_after_upvote(remaining, rows_affected),
{
    if rows_affected == 0 {
        return UpvoteOutcome::NotCounted(rows_affected);
    }
    let left = remaining - 1;
    if left == 0 {
        UpvoteOutcome::Spent(rows_affected)
    } else {
        UpvoteOutcome::Counted(rows_affected, left)
    }
}

/// One upvote request against the cached value of its token: the cached value afterwards
/// and whether an upvote was counted. `rows_affected` is what the database reports.
pub open spec fn upvote_step(cached: Option<i8>, rows_affected: u64) -> (Option<i8>, bool) {
    match spec_admit_upvote(cached) {
        UpvoteAdmission::Refuse => (None, false),
        UpvoteAdmission::Proceed(x) => match spec_after_upvote(x, rows_affected) {
            UpvoteOutcome::NotCounted(_) => (cached, false),
            UpvoteOutcome::Spent(_) => (None, true),
            UpvoteOutcome::Counted(_, left) => (Some(left), true),
        },
    }
}

/// The number of upvotes counted over a sequence of requests.
pub open spec fn counted_upvotes(cached: Option<i8>, requests: Seq<u64>) -> nat
    decreases requests.len(),
{
    if requests.len() == 0 {
        0
    } else {
        let (next, counted) = upvote_step(cached, requests[0]);
        (if counted { 1nat } else { 0nat }) + counted_upvotes(next, requests.drop_first())
    }
}

/// A token never counts more upvotes than it was granted: whatever requests follow, a token
/// cached with `n` remaining upvotes counts at most `n`, and a dropped token counts none.
pub proof fn law_upvote_budget(cached: Option<i8>, requests: Seq<u64>)
    requires
        cached matches Some(n) ==> n >= 0,
    ensures
        counted_upvotes(cached, requests) <= match cached {
            Some(n) => n as nat,
            None => 0nat,
        },
    decreases requests.len(),
{
    if requests.len() > 0 {
        let (next, counted) = upvote_step(cached, requests[0]);
        law_upvote_budget(next, requests.drop_first());
    }
}

} // verus!
