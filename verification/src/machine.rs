//! The shape of every multi-step operation on the brokerage.
//!
//! An operation that takes several round trips is a state and a function
//! from the state and the event that came back to a [`Transition`]: either
//! the next call to make, with the state to continue from, or the result.
//! The caller performs the call and hands the event back. An error that the
//! operation caught and went on from is handed out as a [`Notice`], so that
//! it can be logged.

use crate::broker::{BrokerCall, BrokerError};
use vstd::prelude::*;

verus! {

/// Settle delay after conflicting orders were cancelled, in seconds.
pub const CANCEL_SETTLE_SECS: u64 = 1;

/// Settle delay between a wash-trade rejection and the retry, in seconds.
pub const RETRY_SETTLE_SECS: u64 = 2;

/// Settle delay between an accepted order and the look at its status, in
/// seconds.
pub const FILL_SETTLE_SECS: u64 = 2;

/// What an operation does next.
#[derive(Debug)]
pub enum Step<S, T> {
    /// Make this call and continue from this state with what comes back.
    Call(S, BrokerCall),
    /// The operation is over.
    Done(T),
}

/// How bad a caught error is.
#[derive(Clone, Copy, Debug, PartialEq, Eq, Structural)]
pub enum Severity {
    Warning,
    Error,
}

/// What a caught error was about.
#[derive(Clone, Copy, Debug, PartialEq, Eq, Structural)]
pub enum Concern {
    /// The open orders could not be listed, so none was cancelled.
    ListingOrders,
    /// One conflicting order could not be cancelled.
    CancellingOrder,
    /// A position could not be read and counts as empty.
    ReadingPosition,
    /// There is no latest bar; the latest quote is asked for.
    LatestBar,
    /// The latest quote gave no price; the position is asked for its price.
    LatestQuote,
    /// The position in the other symbol could not be sold.
    SellingOpposite,
    /// The position in the symbol itself could not be sold.
    SellingStale,
    /// The position in the symbol itself is held for other orders.
    StaleHeldForOrders,
    /// No price could be had, so nothing is bought.
    Pricing,
    /// The submission was rejected as a wash trade and is tried again.
    WashTrade,
    /// The submission failed for good.
    Submitting,
    /// The order's status could not be read; the submission's answer stands.
    Polling,
    /// The signal names a symbol that is not traded.
    UnsupportedSymbol,
    /// The portfolio summary could not be made.
    Summarizing,
}

/// An error that was caught and did not end the operation, or the one that
/// ended it without a result.
#[derive(Debug)]
pub struct Notice {
    pub severity: Severity,
    pub concern: Concern,
    pub error: Option<BrokerError>,
}

/// The outcome of one step.
#[derive(Debug)]
pub struct Transition<S, T> {
    pub step: Step<S, T>,
    pub notice: Option<Notice>,
}

/// How far an operation is from its end: a pair that every step makes
/// smaller, first by its first part, then by its second.
pub type Rank = (nat, nat);

/// Whether `a` is nearer to the end than `b`.
pub open spec fn precedes(a: Rank, b: Rank) -> bool {
    a.0 < b.0 || (a.0 == b.0 && a.1 < b.1)
}

/// A warning about `error`.
pub open spec fn warning(concern: Concern, error: BrokerError) -> Option<Notice> {
    Some(Notice { severity: Severity::Warning, concern, error: Some(error) })
}

/// An error report about `error`.
pub open spec fn failure(concern: Concern, error: BrokerError) -> Option<Notice> {
    Some(Notice { severity: Severity::Error, concern, error: Some(error) })
}

/// Makes a warning about `error`.
#[verifier::when_used_as_spec(warning)]
pub fn warn(concern: Concern, error: BrokerError) -> (r: Option<Notice>)
    ensures
        r == warning(concern, error),
{
    Some(Notice { severity: Severity::Warning, concern, error: Some(error) })
}

/// Makes an error report about `error`.
#[verifier::when_used_as_spec(failure)]
pub fn fail(concern: Concern, error: BrokerError) -> (r: Option<Notice>)
    ensures
        r == failure(concern, error),
{
    Some(Notice { severity: Severity::Error, concern, error: Some(error) })
}

} // verus!
