//! Decisions of the location lookup: when to retry a failed request, and
//! which settlement name a reverse lookup reports.
use vstd::prelude::*;

verus! {

/// Attempts made before giving up.
pub const MAX_RETRIES: u32 = 3;

/// Wait before the second attempt; it doubles for each later one.
pub const INITIAL_RETRY_DELAY_MS: u64 = 500;

#[derive(Clone, Copy, PartialEq, Eq, Structural, Debug)]
pub enum RetryDecision {
    RetryAfterMs(u64),
    GiveUp,
}

pub open spec fn pow2(n: nat) -> nat
    decreases n,
{
    if n == 0 {
        1
    } else {
        2 * pow2((n - 1) as nat)
    }
}

/// After failed attempt `attempt` (counted from 1): give up when the error
/// is not worth retrying or the attempts are used up; else wait 500 ms,
/// doubled for each attempt already made beyond the first.
pub open spec fn retry_spec(attempt: u32, retryable: bool) -> RetryDecision {
    if !retryable || attempt >= MAX_RETRIES {
        RetryDecision::GiveUp
    } else {
        RetryDecision::RetryAfterMs(
            (INITIAL_RETRY_DELAY_MS * pow2((attempt - 1) as nat)) as u64,
        )
    }
}

pub fn retry_decision(attempt: u32, retryable: bool) -> (r: RetryDecision)
    requires
        attempt >= 1,
    ensures
        r == retry_spec(attempt, retryable),
{
    if !retryable || attempt >= MAX_RETRIES {
        return RetryDecision::GiveUp;
    }
    let mut delay: u64 = INITIAL_RETRY_DELAY_MS;
    let mut k: u32 = 1;
    while k < attempt
        invariant
            1 <= k <= attempt,
            attempt < MAX_RETRIES,
            delay == INITIAL_RETRY_DELAY_MS * pow2((k - 1) as nat),
        decreases attempt - k,
    {
        assert(pow2(k as nat) == 2 * pow2((k - 1) as nat));
        delay = delay * 2;
        k = k + 1;
    }
    RetryDecision::RetryAfterMs(delay)
}

/// The settlement a reverse lookup reports: the city, else the town, else
/// the village.
pub fn settlement_name(
    city: Option<String>,
    town: Option<String>,
    village: Option<String>,
) -> (r: Option<String>)
    ensures
        r == if city is Some {
            city
        } else if town is Some {
            town
        } else {
            village
        },
{
    match city {
        Some(c) => Some(c),
        None => match town {
            Some(t) => Some(t),
            None => village,
        },
    }
}

} // verus!
