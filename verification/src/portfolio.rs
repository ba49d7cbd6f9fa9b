//! The portfolio summary: all positions and the account totals.

use crate::broker::{AlpacaTrader, BrokerCall, BrokerError, BrokerEvent};
use crate::decimal::Decimal;
use crate::machine::Step;
use crate::model::Position;
use vstd::prelude::*;

verus! {

/// What the account holds and is worth.
#[derive(Debug)]
pub struct PortfolioSummary {
    pub total_value: Decimal,
    pub cash: Decimal,
    pub buying_power: Decimal,
    pub positions: Vec<Position>,
}

/// How far the making of a summary has come.
#[derive(Debug)]
pub enum PortfolioQuery {
    /// The positions were asked for.
    Positions,
    /// The account was asked for; these are the positions.
    Account { positions: Vec<Position> },
}

/// How the making of a summary ends.
pub type Summarized = Result<PortfolioSummary, BrokerError>;

/// The price of one share of a position: its market value divided by its
/// quantity, and zero where that cannot be had.
pub open spec fn unit_price(position: Position) -> Decimal {
    match Decimal::spec_quotient(position.market_value, position.qty) {
        Some(price) => price,
        None => Decimal::of(0),
    }
}

impl Position {
    /// The price of one share: see [`unit_price`].
    pub fn current_price(&self) -> (r: Decimal)
        ensures
            r == unit_price(*self),
    {
        match Decimal::quotient(self.market_value, self.qty) {
            Some(price) => price,
            None => Decimal::zero(),
        }
    }
}

impl PortfolioQuery {
    /// The step that the query takes on `event`: the positions are followed
    /// by the account, and the summary holds the positions as they came and
    /// the account's totals. A failure of either ends the query with its
    /// error.
    pub open spec fn spec_step(self, event: BrokerEvent) -> Step<PortfolioQuery, Summarized> {
        match self {
            PortfolioQuery::Positions => match event {
                BrokerEvent::Positions(Ok(positions)) => Step::Call(
                    PortfolioQuery::Account { positions },
                    BrokerCall::GetAccount,
                ),
                BrokerEvent::Positions(Err(e)) => Step::Done(Err(e)),
                _ => Step::Done(Err(BrokerError::Unexpected)),
            },
            PortfolioQuery::Account { positions } => match event {
                BrokerEvent::Account(Ok(account)) => Step::Done(
                    Ok(
                        PortfolioSummary {
                            total_value: account.portfolio_value,
                            cash: account.cash,
                            buying_power: account.buying_power,
                            positions,
                        },
                    ),
                ),
                BrokerEvent::Account(Err(e)) => Step::Done(Err(e)),
                _ => Step::Done(Err(BrokerError::Unexpected)),
            },
        }
    }

    /// Takes the next step of the query.
    pub fn step(self, event: BrokerEvent) -> (r: Step<PortfolioQuery, Summarized>)
        ensures
            r == self.spec_step(event),
    {
        match self {
            PortfolioQuery::Positions => match event {
                BrokerEvent::Positions(Ok(positions)) => Step::Call(
                    PortfolioQuery::Account { positions },
                    BrokerCall::GetAccount,
                ),
                BrokerEvent::Positions(Err(e)) => Step::Done(Err(e)),
                _ => Step::Done(Err(BrokerError::Unexpected)),
            },
            PortfolioQuery::Account { positions } => match event {
                BrokerEvent::Account(Ok(account)) => Step::Done(
                    Ok(
                        PortfolioSummary {
                            total_value: account.portfolio_value,
                            cash: account.cash,
                            buying_power: account.buying_power,
                            positions,
                        },
                    ),
                ),
                BrokerEvent::Account(Err(e)) => Step::Done(Err(e)),
                _ => Step::Done(Err(BrokerError::Unexpected)),
            },
        }
    }
}

impl AlpacaTrader {
    /// Starts the making of a portfolio summary by asking for all
    /// positions.
    pub fn get_portfolio_summary(&self) -> (r: (PortfolioQuery, BrokerCall))
        ensures
            r.0 is Positions,
            r.1 is ListPositions,
    {
        (PortfolioQuery::Positions, BrokerCall::ListPositions)
    }
}

} // verus!
