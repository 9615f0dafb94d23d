//! The catch-up delivery protocol: given the ordinal a reader asks
//! for and the latest published ordinal, decide whether to serve the
//! segment's bytes, make the reader wait briefly for a segment about
//! to appear, or redirect it to the latest ordinal. A pruned or
//! invalid ordinal is never an error and never served stale: it always
//! resolves to a redirect.

use vstd::prelude::*;

verus! {

/// How far ahead of the latest published ordinal a request may point
/// and still be worth waiting for.
pub const LOOKAHEAD: u64 = 2;

/// How long a waiting reader sleeps between re-checks of the latest
/// ordinal, in milliseconds.
pub const POLL_INTERVAL_MS: u64 = 150;

/// How often a waiting reader re-checks before giving up and being
/// redirected; bounds the wait so a stalled capture cannot occupy a
/// worker forever.
pub const MAX_POLLS: u64 = 40;

/// The three answers the protocol can give a reader.
#[derive(Clone, Copy, Debug, PartialEq, Eq, Structural)]
pub enum FetchDecision {
    /// The requested segment is published and retained: serve its
    /// bytes.
    Serve,
    /// The requested segment is just ahead of the latest one: check
    /// again shortly.
    Wait,
    /// The requested segment is pruned, never existed, or is too far
    /// ahead: redirect the reader to the ordinal carried here.
    Redirect(u64),
}

/// The delivery rule. A request is served exactly when its ordinal is
/// published and still within the retention window; it waits exactly
/// when its ordinal is at most `LOOKAHEAD` past the latest published
/// one; everything else — ordinal 0, a pruned ordinal, one too far
/// ahead — redirects to the latest ordinal.
pub open spec fn spec_fetch_decision(requested: u64, current: u64, retention: u64) -> FetchDecision {
    if 1 <= requested && requested <= current && current - retention < requested {
        FetchDecision::Serve
    } else if current < requested && requested <= current + LOOKAHEAD {
        FetchDecision::Wait
    } else {
        FetchDecision::Redirect(current)
    }
}

/// Decides how to answer a reader requesting segment `requested` when
/// the latest published ordinal is `current`. A pruned ordinal
/// (`requested <= current - retention`) is never served, only
/// redirected.
pub fn fetch_decision(requested: u64, current: u64, retention: u64) -> (d: FetchDecision)
    ensures
        d == spec_fetch_decision(requested, current, retention),
        (requested >= 1 && requested + retention <= current) ==> d == FetchDecision::Redirect(
            current,
        ),
{
    if requested >= 1 && requested <= current && current - requested < retention {
        FetchDecision::Serve
    } else if requested > current && requested - current <= LOOKAHEAD {
        FetchDecision::Wait
    } else {
        FetchDecision::Redirect(current)
    }
}

/// One step of the bounded wait loop: the plain delivery rule, except
/// that a reader out of polling budget is redirected instead of made
/// to wait again.
pub fn poll_decision(requested: u64, current: u64, retention: u64, polls_remaining: u64) -> (d:
    FetchDecision)
    ensures
        d == (if spec_fetch_decision(requested, current, retention) == FetchDecision::Wait
            && polls_remaining == 0 {
            FetchDecision::Redirect(current)
        } else {
            spec_fetch_decision(requested, current, retention)
        }),
{
    let d = fetch_decision(requested, current, retention);
    match d {
        FetchDecision::Wait => {
            if polls_remaining == 0 {
                FetchDecision::Redirect(current)
            } else {
                d
            }
        },
        _ => d,
    }
}

} // verus!
