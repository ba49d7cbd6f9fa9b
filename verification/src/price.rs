//! Finding the current price of a symbol.
//!
//! Three sources are tried in turn: the latest bar; if the brokerage knows
//! no bar, the latest quote; if the quote fails as well, the market value of
//! an existing position divided by its quantity.

use crate::broker::{AlpacaTrader, BrokerCall, BrokerError, BrokerEvent};
use crate::decimal::Decimal;
use crate::machine::{precedes, warn, warning, Concern, Rank, Step, Transition};
use crate::model::Position;
use vstd::prelude::*;
use vstd::string::*;

verus! {

/// How far a price lookup has come.
#[derive(Debug)]
pub enum PricePhase {
    /// The latest bar was asked for.
    Bar,
    /// The latest quote was asked for.
    Quote,
    /// The position was asked for, after the quote failed with this error.
    Holding { quote_error: BrokerError },
}

/// A price lookup under way.
#[derive(Debug)]
pub struct PriceLookup {
    pub symbol: String,
    pub phase: PricePhase,
}

/// The error of a quote that gave no price.
pub open spec fn quote_failure(event: BrokerEvent) -> BrokerError {
    match event {
        BrokerEvent::Quote(Err(e)) => e,
        _ => BrokerError::Unexpected,
    }
}

/// How a price lookup ends.
pub type Priced = Result<Decimal, BrokerError>;

/// The end of a lookup, with nothing to report.
pub open spec fn ended(priced: Priced) -> Transition<PriceLookup, Priced> {
    Transition { step: Step::Done(priced), notice: None }
}

/// The price that a position implies: its market value divided by its
/// quantity, where the quantity is not zero.
pub open spec fn implied_price(position: Option<Position>) -> Option<Decimal> {
    match position {
        Some(p) => Decimal::spec_quotient(p.market_value, p.qty),
        None => None,
    }
}

impl PriceLookup {
    /// How far the lookup is from its end: one for each source that is
    /// left.
    pub open spec fn rank(self) -> Rank {
        match self.phase {
            PricePhase::Bar => (3, 0),
            PricePhase::Quote => (2, 0),
            PricePhase::Holding { quote_error } => (1, 0),
        }
    }

    /// The lookup comes to an end: every step that does not end it goes on
    /// to the next source, for the same symbol.
    pub proof fn lemma_progress(self, event: BrokerEvent)
        ensures
            self.spec_step(event).step matches Step::Call(next, _) ==> precedes(
                next.rank(),
                self.rank(),
            ) && next.symbol == self.symbol,
    {
    }

    /// The step that the lookup takes on `event`.
    ///
    /// - A bar's closing price is the price. Without a bar (status 404) the
    ///   quote is asked for; any other failure of the bar ends the lookup.
    /// - A quote's price is the price. Where the quote fails, in whatever
    ///   way, the position is asked for.
    /// - A position with a quantity other than zero gives its market value
    ///   per share. Without one, the lookup ends with the quote's error.
    ///
    /// Each source that is passed over is reported as a warning.
    pub open spec fn spec_step(self, event: BrokerEvent) -> Transition<PriceLookup, Priced> {
        match self.phase {
            PricePhase::Bar => match event {
                BrokerEvent::Bar(Ok(price)) => ended(Ok(price)),
                BrokerEvent::Bar(Err(BrokerError::NotFound)) => Transition {
                    step: Step::Call(
                        PriceLookup { symbol: self.symbol, phase: PricePhase::Quote },
                        BrokerCall::GetLatestQuote { symbol: self.symbol },
                    ),
                    notice: warning(Concern::LatestBar, BrokerError::NotFound),
                },
                BrokerEvent::Bar(Err(e)) => ended(Err(e)),
                _ => ended(Err(BrokerError::Unexpected)),
            },
            PricePhase::Quote => match event {
                BrokerEvent::Quote(Ok(price)) => ended(Ok(price)),
                _ => Transition {
                    step: Step::Call(
                        PriceLookup {
                            symbol: self.symbol,
                            phase: PricePhase::Holding { quote_error: quote_failure(event) },
                        },
                        BrokerCall::GetPosition { symbol: self.symbol },
                    ),
                    notice: warning(Concern::LatestQuote, quote_failure(event)),
                },
            },
            PricePhase::Holding { quote_error } => match event {
                BrokerEvent::Position(Ok(position)) => match implied_price(position) {
                    Some(price) => ended(Ok(price)),
                    None => ended(Err(quote_error)),
                },
                BrokerEvent::Position(Err(e)) => Transition {
                    step: Step::Done(Err(quote_error)),
                    notice: warning(Concern::ReadingPosition, e),
                },
                _ => Transition {
                    step: Step::Done(Err(quote_error)),
                    notice: warning(Concern::ReadingPosition, BrokerError::Unexpected),
                },
            },
        }
    }

    /// Takes the next step of the lookup.
    pub fn step(self, event: BrokerEvent) -> (r: Transition<PriceLookup, Priced>)
        ensures
            r == self.spec_step(event),
    {
        let PriceLookup { symbol, phase } = self;
        match phase {
            PricePhase::Bar => match event {
                BrokerEvent::Bar(Ok(price)) => Transition { step: Step::Done(Ok(price)), notice: None },
                BrokerEvent::Bar(Err(BrokerError::NotFound)) => {
                    let again = symbol.clone();
                    Transition {
                        step: Step::Call(
                            PriceLookup { symbol, phase: PricePhase::Quote },
                            BrokerCall::GetLatestQuote { symbol: again },
                        ),
                        notice: warn(Concern::LatestBar, BrokerError::NotFound),
                    }
                },
                BrokerEvent::Bar(Err(e)) => Transition { step: Step::Done(Err(e)), notice: None },
                _ => Transition { step: Step::Done(Err(BrokerError::Unexpected)), notice: None },
            },
            PricePhase::Quote => match event {
                BrokerEvent::Quote(Ok(price)) => Transition {
                    step: Step::Done(Ok(price)),
                    notice: None,
                },
                other => {
                    let e = match other {
                        BrokerEvent::Quote(Err(e)) => e,
                        _ => BrokerError::Unexpected,
                    };
                    let again = symbol.clone();
                    let kept = e.clone();
                    Transition {
                        step: Step::Call(
                            PriceLookup { symbol, phase: PricePhase::Holding { quote_error: kept } },
                            BrokerCall::GetPosition { symbol: again },
                        ),
                        notice: warn(Concern::LatestQuote, e),
                    }
                },
            },
            PricePhase::Holding { quote_error } => match event {
                BrokerEvent::Position(Ok(Some(position))) => {
                    match Decimal::quotient(position.market_value, position.qty) {
                        Some(price) => Transition { step: Step::Done(Ok(price)), notice: None },
                        None => Transition { step: Step::Done(Err(quote_error)), notice: None },
                    }
                },
                BrokerEvent::Position(Ok(None)) => Transition {
                    step: Step::Done(Err(quote_error)),
                    notice: None,
                },
                BrokerEvent::Position(Err(e)) => Transition {
                    step: Step::Done(Err(quote_error)),
                    notice: warn(Concern::ReadingPosition, e),
                },
                _ => Transition {
                    step: Step::Done(Err(quote_error)),
                    notice: warn(Concern::ReadingPosition, BrokerError::Unexpected),
                },
            },
        }
    }
}

impl AlpacaTrader {
    /// Starts a price lookup for `symbol` by asking for the latest bar.
    pub fn get_current_price(&self, symbol: &str) -> (r: (PriceLookup, BrokerCall))
        ensures
            r.0.symbol@ == symbol@,
            r.0.phase is Bar,
            r.1 == (BrokerCall::GetLatestBar { symbol: r.0.symbol }),
    {
        let owned = symbol.to_owned();
        let again = owned.clone();
        (PriceLookup { symbol: owned, phase: PricePhase::Bar }, BrokerCall::GetLatestBar { symbol: again })
    }
}

} // verus!
