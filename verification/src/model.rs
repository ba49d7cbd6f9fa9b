//! The records that the trading engine works on.

use crate::decimal::{decimal_micros, integer_value, parse_integer, Decimal};
use crate::text::{bytes_of, lowercase, lowercase_is};
use vstd::prelude::*;
use vstd::string::*;

verus! {

/// The side of an order.
#[derive(Clone, Copy, Debug, PartialEq, Eq, Structural)]
pub enum Side {
    Buy,
    Sell,
}

impl Side {
    /// The other side.
    pub open spec fn spec_opposite(self) -> Side {
        match self {
            Side::Buy => Side::Sell,
            Side::Sell => Side::Buy,
        }
    }

    /// The side that a conflicting resting order has.
    #[verifier::when_used_as_spec(spec_opposite)]
    pub fn opposite(self) -> (r: Side)
        ensures
            r == self.spec_opposite(),
    {
        match self {
            Side::Buy => Side::Sell,
            Side::Sell => Side::Buy,
        }
    }

    /// The word that the brokerage uses for this side.
    pub open spec fn word(self) -> Seq<char> {
        match self {
            Side::Buy => "buy"@,
            Side::Sell => "sell"@,
        }
    }

    /// The word that the brokerage uses for this side.
    pub fn as_str(self) -> (r: &'static str)
        ensures
            r@ == self.word(),
    {
        match self {
            Side::Buy => "buy",
            Side::Sell => "sell",
        }
    }
}

/// What a trading signal asks for.
#[derive(Clone, Copy, Debug, PartialEq, Eq, Structural)]
pub enum Action {
    Buy,
    Hold,
}

impl Action {
    /// The word that the logs use for this action.
    pub open spec fn word(self) -> Seq<char> {
        match self {
            Action::Buy => "BUY"@,
            Action::Hold => "HOLD"@,
        }
    }

    /// The word that the logs use for this action.
    pub fn as_str(self) -> (r: &'static str)
        ensures
            r@ == self.word(),
    {
        match self {
            Action::Buy => "BUY",
            Action::Hold => "HOLD",
        }
    }
}

/// Account totals as the brokerage reports them.
#[derive(Clone, Copy, Debug, PartialEq, Eq, Structural)]
pub struct AccountInfo {
    pub equity: Decimal,
    pub buying_power: Decimal,
    pub cash: Decimal,
    pub portfolio_value: Decimal,
}

/// An open position in one symbol.
#[derive(Debug)]
pub struct Position {
    pub symbol: String,
    pub qty: Decimal,
    pub market_value: Decimal,
    pub avg_entry_price: Decimal,
    pub unrealized_pl: Decimal,
    pub unrealized_plpc: Decimal,
}

/// An order as the brokerage reports it. The fields hold the text of the
/// report; [`TradeResult::from_order`] reads the numbers.
#[derive(Debug)]
pub struct OpenOrder {
    pub id: String,
    pub symbol: String,
    pub qty: String,
    pub side: String,
    pub order_type: String,
    pub status: String,
    pub filled_qty: Option<String>,
    pub filled_avg_price: Option<String>,
    pub submitted_at: String,
}

/// The outcome of a trade that was placed.
#[derive(Debug)]
pub struct TradeResult {
    pub order_id: String,
    pub symbol: String,
    pub qty: i32,
    pub side: String,
    pub status: String,
    pub filled_qty: Option<i32>,
    pub filled_avg_price: Option<Decimal>,
    pub submitted_at: String,
}

/// A market order, good for the day, that is to be submitted.
#[derive(Debug)]
pub struct OrderTicket {
    pub symbol: String,
    pub qty: i32,
    pub side: Side,
}

impl Clone for Position {
    fn clone(&self) -> (r: Self)
        ensures
            r == *self,
    {
        Position {
            symbol: self.symbol.clone(),
            qty: self.qty,
            market_value: self.market_value,
            avg_entry_price: self.avg_entry_price,
            unrealized_pl: self.unrealized_pl,
            unrealized_plpc: self.unrealized_plpc,
        }
    }
}

fn clone_optional_text(text: &Option<String>) -> (r: Option<String>)
    ensures
        r == *text,
{
    match text {
        Some(s) => Some(s.clone()),
        None => None,
    }
}

impl Clone for OpenOrder {
    fn clone(&self) -> (r: Self)
        ensures
            r == *self,
    {
        OpenOrder {
            id: self.id.clone(),
            symbol: self.symbol.clone(),
            qty: self.qty.clone(),
            side: self.side.clone(),
            order_type: self.order_type.clone(),
            status: self.status.clone(),
            filled_qty: clone_optional_text(&self.filled_qty),
            filled_avg_price: clone_optional_text(&self.filled_avg_price),
            submitted_at: self.submitted_at.clone(),
        }
    }
}

impl Clone for TradeResult {
    fn clone(&self) -> (r: Self)
        ensures
            r == *self,
    {
        TradeResult {
            order_id: self.order_id.clone(),
            symbol: self.symbol.clone(),
            qty: self.qty,
            side: self.side.clone(),
            status: self.status.clone(),
            filled_qty: self.filled_qty,
            filled_avg_price: self.filled_avg_price,
            submitted_at: self.submitted_at.clone(),
        }
    }
}

impl Clone for OrderTicket {
    fn clone(&self) -> (r: Self)
        ensures
            r == *self,
    {
        OrderTicket { symbol: self.symbol.clone(), qty: self.qty, side: self.side }
    }
}

impl OpenOrder {
    /// Whether the order is on `side`: the lower-case form of its side is
    /// the brokerage's word for `side`.
    pub open spec fn on_side(&self, side: Side) -> bool {
        lowercase(self.side@) == side.word()
    }

    /// Whether the order is on `side`.
    #[verifier::when_used_as_spec(on_side)]
    pub fn is_on_side(&self, side: Side) -> (r: bool)
        ensures
            r == self.on_side(side),
    {
        lowercase_is(self.side.as_str(), side.as_str())
    }
}

/// The whole number that `text` writes, or 0 where it writes none.
pub open spec fn quantity_of_text(text: Seq<u8>) -> int {
    match integer_value(text) {
        Some(v) => v,
        None => 0,
    }
}

impl TradeResult {
    /// The result that stands for `order`: the texts are those of the
    /// order, and the numbers are read from the order's texts. A quantity
    /// that is no whole number counts as 0; a filled quantity or price that
    /// cannot be read is absent.
    pub open spec fn of_order(order: OpenOrder) -> TradeResult {
        TradeResult {
            order_id: order.id,
            symbol: order.symbol,
            qty: quantity_of_text(bytes_of(order.qty@)) as i32,
            side: order.side,
            status: order.status,
            filled_qty: match order.filled_qty {
                Some(t) => match integer_value(bytes_of(t@)) {
                    Some(v) => Some(v as i32),
                    None => None,
                },
                None => None,
            },
            filled_avg_price: match order.filled_avg_price {
                Some(t) => match decimal_micros(bytes_of(t@)) {
                    Some(m) => Some(Decimal::of(m)),
                    None => None,
                },
                None => None,
            },
            submitted_at: order.submitted_at,
        }
    }

    /// Makes the trade result of an order report.
    pub fn from_order(order: OpenOrder) -> (r: TradeResult)
        ensures
            r == TradeResult::of_order(order),
    {
        let qty = match parse_integer(order.qty.as_str()) {
            Some(v) => v,
            None => 0,
        };
        let filled_qty = match &order.filled_qty {
            Some(t) => parse_integer(t.as_str()),
            None => None,
        };
        let filled_avg_price = match &order.filled_avg_price {
            Some(t) => Decimal::parse(t.as_str()),
            None => None,
        };
        TradeResult {
            order_id: order.id,
            symbol: order.symbol,
            qty,
            side: order.side,
            status: order.status,
            filled_qty,
            filled_avg_price,
            submitted_at: order.submitted_at,
        }
    }
}

} // verus!
