//! Decision logic of the accounts background service: which snapshot request is
//! handled next, which work handling it takes, and what one round of the
//! background loop does to a root bank.
//!
//! The library decides; it never touches an account. The runtime that owns the
//! banks performs the work it is asked for and reports back what came of it.

pub mod bank;
pub mod channel;
pub mod error;
pub mod handler;
pub mod handling;
pub mod history;
pub mod jitter;
pub mod package;
pub mod pruned;
pub mod request;
pub mod round;
pub mod service;

use vstd::prelude::*;

verus! {

/// How long the background loop sleeps between two rounds, in milliseconds.
pub const INTERVAL_MS: u64 = 100;

/// How many accounts may be shrunk per second.
pub const SHRUNKEN_ACCOUNT_PER_SEC: usize = 250;

/// How many accounts may be shrunk per round of the background loop: the share of
/// one round in `SHRUNKEN_ACCOUNT_PER_SEC`.
pub const SHRUNKEN_ACCOUNT_PER_INTERVAL: usize = 25;

/// The rounds of one second together may shrink `SHRUNKEN_ACCOUNT_PER_SEC` accounts.
pub proof fn law_shrink_budget_per_second()
    ensures
        SHRUNKEN_ACCOUNT_PER_INTERVAL as int * (1000int / INTERVAL_MS as int)
            == SHRUNKEN_ACCOUNT_PER_SEC as int,
{
}

} // verus!
