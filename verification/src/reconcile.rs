//! Carrying out a trading decision.
//!
//! A decision to buy a symbol is carried out in a fixed order:
//!
//! - the resting sell orders in the symbol are cancelled;
//! - the position in the other symbol is sold, whole;
//! - a position that is left in the symbol itself is sold;
//! - the price is looked up, the quantity is sized and the buy is submitted;
//! - a submission that is rejected as a wash trade is tried once more;
//! - the accepted order is looked at once for its fill.
//!
//! A failure while cancelling or selling is reported and the next step is
//! taken. A failure to find a price or to submit the buy ends the work
//! without a trade. A decision to hold does nothing at all.

use crate::broker::{AlpacaTrader, BrokerCall, BrokerError, BrokerEvent};
use crate::config::TradingConfig;
use crate::decimal::{trunc_div, whole_units, Decimal};
use crate::machine::{
    fail, failure, precedes, warn, warning, Concern, Notice, Rank, Severity, Step, Transition,
};
use crate::model::{Action, OrderTicket, Position, Side, TradeResult};
use crate::orders::{
    held_for_orders, is_held_for_orders, CancelPhase, Cancellation, PlacePhase, Placement,
};
use crate::price::{PriceLookup, PricePhase};
use crate::signals::TradingSignal;
use vstd::prelude::*;
use vstd::string::*;

verus! {

/// The number of shares to buy for `position_size` at `price`, both in
/// millionths: the quotient, rounded toward zero, but at least 1 and at most
/// `i32::MAX`. A price of zero buys as much as can be ordered.
pub open spec fn sized_quantity(position_size: int, price: int) -> int {
    if price == 0 {
        if position_size > 0 {
            i32::MAX as int
        } else {
            1
        }
    } else {
        let q = trunc_div(position_size, price);
        if q < 1 {
            1
        } else if q > i32::MAX {
            i32::MAX as int
        } else {
            q
        }
    }
}

/// The size of a buy is a positive number of shares whatever the price; for
/// a positive price it is the position size divided by the price and rounded
/// down, or one share where that is less than one.
pub proof fn lemma_sized_quantity(position_size: int, price: int)
    ensures
        1 <= sized_quantity(position_size, price) <= i32::MAX,
        price > 0 && position_size >= 0 && position_size / price <= i32::MAX ==> sized_quantity(
            position_size,
            price,
        ) == if position_size / price < 1 {
            1
        } else {
            position_size / price
        },
{
}

/// Sizes a buy: see [`sized_quantity`].
pub fn buy_quantity(position_size: Decimal, price: Decimal) -> (qty: i32)
    ensures
        qty == sized_quantity(position_size@, price@),
        qty >= 1,
{
    let size: i64 = position_size.micros();
    let each: i64 = price.micros();
    if each == 0 {
        return if size > 0 {
            2_147_483_647
        } else {
            1
        };
    }
    if (size < 0) != (each < 0) {
        return 1;
    }
    let a: u64 = if size < 0 {
        (-size) as u64
    } else {
        size as u64
    };
    let b: u64 = if each < 0 {
        (-each) as u64
    } else {
        each as u64
    };
    let q: u64 = a / b;
    if q < 1 {
        1
    } else if q > 2_147_483_647 {
        2_147_483_647
    } else {
        q as i32
    }
}

/// The position that an event reports.
pub open spec fn position_in(event: BrokerEvent) -> Option<Position> {
    match event {
        BrokerEvent::Position(Ok(position)) => position,
        _ => None,
    }
}

/// The whole shares that are there to sell: those of a long position. A
/// position that could not be read counts as none.
pub open spec fn sellable_shares(event: BrokerEvent) -> int {
    match position_in(event) {
        Some(position) => if position.qty@ > 0 {
            whole_units(position.qty@)
        } else {
            0
        },
        None => 0,
    }
}

/// What is reported of the reading of a position: a warning where it
/// failed.
pub open spec fn reading_notice(event: BrokerEvent) -> Option<Notice> {
    match event {
        BrokerEvent::Position(Ok(_)) => None,
        BrokerEvent::Position(Err(e)) => warning(Concern::ReadingPosition, e),
        _ => warning(Concern::ReadingPosition, BrokerError::Unexpected),
    }
}

/// What is reported of the sale of the other symbol: an error where it
/// failed.
pub open spec fn opposite_sale_notice(event: BrokerEvent) -> Option<Notice> {
    match event {
        BrokerEvent::Submitted(Ok(_)) => None,
        BrokerEvent::Submitted(Err(e)) => failure(Concern::SellingOpposite, e),
        _ => failure(Concern::SellingOpposite, BrokerError::Unexpected),
    }
}

/// What is reported of the sale of a stale position: a warning where the
/// shares are held for other orders, an error where the sale failed
/// otherwise.
pub open spec fn stale_sale_notice(event: BrokerEvent) -> Option<Notice> {
    match event {
        BrokerEvent::Submitted(Ok(_)) => None,
        BrokerEvent::Submitted(Err(e)) => if held_for_orders(e) {
            warning(Concern::StaleHeldForOrders, e)
        } else {
            failure(Concern::SellingStale, e)
        },
        _ => failure(Concern::SellingStale, BrokerError::Unexpected),
    }
}

/// Where the carrying out of a decision stands.
#[derive(Clone, Copy, Debug, PartialEq, Eq, Structural)]
pub enum Stage {
    Idle,
    CancelConflicts,
    LiquidateOpposite,
    LiquidateStale,
    Submit,
    RetrySubmit,
    Resolved,
    Failed,
}

impl Stage {
    /// The stage after a step was taken at stage `self`: the stage of the
    /// state while the work goes on; `Resolved` once it ended with a trade;
    /// `Failed` once it ended without one; and still `Idle` where it ended
    /// before it began.
    pub open spec fn spec_after(self, step: Step<Reconciliation, Outcome>) -> Stage {
        match step {
            Step::Call(state, _) => state.spec_stage(),
            Step::Done(Some(_)) => Stage::Resolved,
            Step::Done(None) => if self == Stage::Idle {
                Stage::Idle
            } else {
                Stage::Failed
            },
        }
    }

    /// The stage after a step: see [`Stage::spec_after`].
    pub fn after(self, step: &Step<Reconciliation, Outcome>) -> (r: Stage)
        ensures
            r == self.spec_after(*step),
    {
        match step {
            Step::Call(state, _) => state.stage(),
            Step::Done(Some(_)) => Stage::Resolved,
            Step::Done(None) => match self {
                Stage::Idle => Stage::Idle,
                _ => Stage::Failed,
            },
        }
    }
}

/// How far the carrying out of a decision has come.
#[derive(Debug)]
pub enum Phase {
    /// The resting sell orders in the target are being cancelled.
    CancelConflicts(Cancellation),
    /// The position in the other symbol was asked for.
    ReadingOpposite,
    /// The sale of the other symbol was submitted.
    SellingOpposite,
    /// The position in the target was asked for.
    ReadingStale,
    /// The sale of the stale position was submitted.
    SellingStale,
    /// The price of the target is being looked up.
    Pricing(PriceLookup),
    /// The buy is being placed: submitted, retried once if it must be, and
    /// looked at.
    Placing(Placement),
}

/// The carrying out of a decision to buy `target`.
#[derive(Debug)]
pub struct Reconciliation {
    /// The symbol to buy.
    pub target: String,
    /// The other tracked symbol, which must not be held beside the target.
    pub opposite: String,
    /// The amount to spend on the target.
    pub position_size: Decimal,
    pub phase: Phase,
}

/// How the carrying out ends: with the trade, or without one.
pub type Outcome = Option<TradeResult>;

impl Reconciliation {
    /// The same reconciliation in another phase.
    pub open spec fn at(self, phase: Phase) -> Reconciliation {
        Reconciliation {
            target: self.target,
            opposite: self.opposite,
            position_size: self.position_size,
            phase,
        }
    }

    /// The liquidation of the other symbol begins: its position is asked
    /// for.
    pub open spec fn read_opposite(self) -> Step<Reconciliation, Outcome> {
        Step::Call(
            self.at(Phase::ReadingOpposite),
            BrokerCall::GetPosition { symbol: self.opposite },
        )
    }

    /// The liquidation of a stale position begins: the position in the
    /// target is asked for.
    pub open spec fn read_stale(self) -> Step<Reconciliation, Outcome> {
        Step::Call(self.at(Phase::ReadingStale), BrokerCall::GetPosition { symbol: self.target })
    }

    /// The buying begins: the latest bar of the target is asked for.
    pub open spec fn look_up_price(self) -> Step<Reconciliation, Outcome> {
        Step::Call(
            self.at(Phase::Pricing(PriceLookup { symbol: self.target, phase: PricePhase::Bar })),
            BrokerCall::GetLatestBar { symbol: self.target },
        )
    }

    /// The sale of `shares` shares of `symbol`, where that is at least one
    /// share; `otherwise` where there is nothing to sell.
    pub open spec fn sell(
        self,
        symbol: String,
        shares: int,
        selling: Phase,
        otherwise: Step<Reconciliation, Outcome>,
    ) -> Step<Reconciliation, Outcome> {
        if shares >= 1 {
            Step::Call(
                self.at(selling),
                BrokerCall::SubmitOrder {
                    ticket: OrderTicket { symbol, qty: shares as i32, side: Side::Sell },
                },
            )
        } else {
            otherwise
        }
    }

    /// The buy that follows from a price.
    pub open spec fn buy_ticket(self, price: Decimal) -> OrderTicket {
        OrderTicket {
            symbol: self.target,
            qty: sized_quantity(self.position_size@, price@) as i32,
            side: Side::Buy,
        }
    }

    /// The step that the carrying out takes on `event`.
    ///
    /// - While conflicting orders are cancelled, the calls of the cancelling
    ///   are made. When it is over, however it ended, the position in the
    ///   other symbol is asked for.
    /// - A long position in the other symbol is sold, whole shares only;
    ///   then, or where there is nothing to sell, the position in the target
    ///   is asked for. A sale that fails is reported as an error and the work
    ///   goes on.
    /// - A long position in the target is sold likewise; then the price is
    ///   looked up. A sale that fails because the shares are held for other
    ///   orders is reported as a warning, any other as an error.
    /// - A price that is found sizes the buy, which is submitted. Without a
    ///   price the work ends without a trade.
    /// - The placing of the buy ends the work: with the trade where the buy
    ///   was accepted, without one where it failed.
    pub open spec fn spec_step(self, event: BrokerEvent) -> Transition<Reconciliation, Outcome> {
        match self.phase {
            Phase::CancelConflicts(c) => {
                let cleared = c.spec_step(event);
                match cleared.step {
                    Step::Call(clearing, call) => Transition {
                        step: Step::Call(self.at(Phase::CancelConflicts(clearing)), call),
                        notice: cleared.notice,
                    },
                    Step::Done(Ok(_)) => Transition {
                        step: self.read_opposite(),
                        notice: cleared.notice,
                    },
                    Step::Done(Err(e)) => Transition {
                        step: self.read_opposite(),
                        notice: warning(Concern::ListingOrders, e),
                    },
                }
            },
            Phase::ReadingOpposite => Transition {
                step: self.sell(
                    self.opposite,
                    sellable_shares(event),
                    Phase::SellingOpposite,
                    self.read_stale(),
                ),
                notice: reading_notice(event),
            },
            Phase::SellingOpposite => Transition {
                step: self.read_stale(),
                notice: opposite_sale_notice(event),
            },
            Phase::ReadingStale => Transition {
                step: self.sell(
                    self.target,
                    sellable_shares(event),
                    Phase::SellingStale,
                    self.look_up_price(),
                ),
                notice: reading_notice(event),
            },
            Phase::SellingStale => Transition {
                step: self.look_up_price(),
                notice: stale_sale_notice(event),
            },
            Phase::Pricing(lookup) => {
                let priced = lookup.spec_step(event);
                match priced.step {
                    Step::Call(looking, call) => Transition {
                        step: Step::Call(self.at(Phase::Pricing(looking)), call),
                        notice: priced.notice,
                    },
                    Step::Done(Ok(price)) => Transition {
                        step: Step::Call(
                            self.at(
                                Phase::Placing(
                                    Placement {
                                        ticket: self.buy_ticket(price),
                                        phase: PlacePhase::Submitting,
                                    },
                                ),
                            ),
                            BrokerCall::SubmitOrder { ticket: self.buy_ticket(price) },
                        ),
                        notice: priced.notice,
                    },
                    Step::Done(Err(e)) => Transition {
                        step: Step::Done(None),
                        notice: failure(Concern::Pricing, e),
                    },
                }
            },
            Phase::Placing(p) => {
                let placed = p.spec_step(event);
                match placed.step {
                    Step::Call(placing, call) => Transition {
                        step: Step::Call(self.at(Phase::Placing(placing)), call),
                        notice: placed.notice,
                    },
                    Step::Done(Ok(result)) => Transition {
                        step: Step::Done(Some(result)),
                        notice: placed.notice,
                    },
                    Step::Done(Err(e)) => Transition {
                        step: Step::Done(None),
                        notice: failure(Concern::Submitting, e),
                    },
                }
            },
        }
    }

    /// How far the carrying out is from its end.
    pub open spec fn rank(self) -> Rank {
        match self.phase {
            Phase::CancelConflicts(c) => (40 + c.rank().0, c.rank().1),
            Phase::ReadingOpposite => (39, 0),
            Phase::SellingOpposite => (38, 0),
            Phase::ReadingStale => (37, 0),
            Phase::SellingStale => (36, 0),
            Phase::Pricing(lookup) => (30 + lookup.rank().0, 0),
            Phase::Placing(p) => p.rank(),
        }
    }

    /// The carrying out comes to an end, whatever the brokerage answers:
    /// every step that does not end it brings it nearer to its end. No step
    /// goes back to an earlier one, and no list of orders is gone through
    /// twice.
    pub proof fn lemma_progress(self, event: BrokerEvent)
        ensures
            self.spec_step(event).step matches Step::Call(next, _) ==> precedes(
                next.rank(),
                self.rank(),
            ),
    {
        let taken = self.spec_step(event).step;
        match self.phase {
            Phase::CancelConflicts(c) => {
                c.lemma_progress(event);
                match c.spec_step(event).step {
                    Step::Call(clearing, call) => {
                        assert(taken == Step::<Reconciliation, Outcome>::Call(
                            self.at(Phase::CancelConflicts(clearing)),
                            call,
                        ));
                    },
                    Step::Done(_) => {
                        assert(taken == self.read_opposite());
                    },
                }
            },
            Phase::ReadingOpposite => {},
            Phase::SellingOpposite => {},
            Phase::ReadingStale => {},
            Phase::SellingStale => {},
            Phase::Pricing(lookup) => {
                lookup.lemma_progress(event);
                match lookup.spec_step(event).step {
                    Step::Call(looking, call) => {
                        assert(taken == Step::<Reconciliation, Outcome>::Call(
                            self.at(Phase::Pricing(looking)),
                            call,
                        ));
                    },
                    Step::Done(Ok(price)) => {
                        assert(taken matches Step::Call(next, _) && next.phase == Phase::Placing(
                            Placement { ticket: self.buy_ticket(price), phase: PlacePhase::Submitting },
                        ));
                    },
                    Step::Done(Err(_)) => {},
                }
            },
            Phase::Placing(p) => {
                p.lemma_progress(event);
                match p.spec_step(event).step {
                    Step::Call(placing, call) => {
                        assert(taken == Step::<Reconciliation, Outcome>::Call(
                            self.at(Phase::Placing(placing)),
                            call,
                        ));
                    },
                    Step::Done(_) => {},
                }
            },
        }
    }

    /// The stage that the carrying out is in.
    pub open spec fn spec_stage(&self) -> Stage {
        match self.phase {
            Phase::CancelConflicts(_) => Stage::CancelConflicts,
            Phase::ReadingOpposite => Stage::LiquidateOpposite,
            Phase::SellingOpposite => Stage::LiquidateOpposite,
            Phase::ReadingStale => Stage::LiquidateStale,
            Phase::SellingStale => Stage::LiquidateStale,
            Phase::Pricing(_) => Stage::Submit,
            Phase::Placing(p) => match p.phase {
                PlacePhase::Clearing(_) => Stage::CancelConflicts,
                PlacePhase::Submitting => Stage::Submit,
                PlacePhase::Reclearing(_) => Stage::RetrySubmit,
                PlacePhase::RetrySettling => Stage::RetrySubmit,
                PlacePhase::Resubmitting => Stage::RetrySubmit,
                PlacePhase::FillSettling { order } => Stage::Resolved,
                PlacePhase::Polling { order } => Stage::Resolved,
            },
        }
    }

    /// The stage that the carrying out is in.
    #[verifier::when_used_as_spec(spec_stage)]
    pub fn stage(&self) -> (r: Stage)
        ensures
            r == self.spec_stage(),
    {
        match &self.phase {
            Phase::CancelConflicts(_) => Stage::CancelConflicts,
            Phase::ReadingOpposite => Stage::LiquidateOpposite,
            Phase::SellingOpposite => Stage::LiquidateOpposite,
            Phase::ReadingStale => Stage::LiquidateStale,
            Phase::SellingStale => Stage::LiquidateStale,
            Phase::Pricing(_) => Stage::Submit,
            Phase::Placing(p) => match &p.phase {
                PlacePhase::Clearing(_) => Stage::CancelConflicts,
                PlacePhase::Submitting => Stage::Submit,
                PlacePhase::Reclearing(_) => Stage::RetrySubmit,
                PlacePhase::RetrySettling => Stage::RetrySubmit,
                PlacePhase::Resubmitting => Stage::RetrySubmit,
                PlacePhase::FillSettling { order } => Stage::Resolved,
                PlacePhase::Polling { order } => Stage::Resolved,
            },
        }
    }

    fn to_opposite(target: String, opposite: String, position_size: Decimal) -> (r: Step<
        Reconciliation,
        Outcome,
    >)
        ensures
            r == (Reconciliation { target, opposite, position_size, phase: Phase::ReadingOpposite }).read_opposite(),
    {
        let symbol = opposite.clone();
        Step::Call(
            Reconciliation { target, opposite, position_size, phase: Phase::ReadingOpposite },
            BrokerCall::GetPosition { symbol },
        )
    }

    fn to_stale(target: String, opposite: String, position_size: Decimal) -> (r: Step<
        Reconciliation,
        Outcome,
    >)
        ensures
            r == (Reconciliation { target, opposite, position_size, phase: Phase::ReadingStale }).read_stale(),
    {
        let symbol = target.clone();
        Step::Call(
            Reconciliation { target, opposite, position_size, phase: Phase::ReadingStale },
            BrokerCall::GetPosition { symbol },
        )
    }

    fn to_price(target: String, opposite: String, position_size: Decimal) -> (r: Step<
        Reconciliation,
        Outcome,
    >)
        ensures
            r == (Reconciliation { target, opposite, position_size, phase: Phase::ReadingStale }).look_up_price(),
    {
        let symbol = target.clone();
        let again = target.clone();
        Step::Call(
            Reconciliation {
                target,
                opposite,
                position_size,
                phase: Phase::Pricing(PriceLookup { symbol, phase: PricePhase::Bar }),
            },
            BrokerCall::GetLatestBar { symbol: again },
        )
    }

    fn shares_to_sell(event: &BrokerEvent) -> (r: i32)
        ensures
            r == sellable_shares(*event),
            r >= 0,
    {
        match event {
            BrokerEvent::Position(Ok(Some(position))) => {
                if position.qty.is_positive() {
                    position.qty.whole_shares()
                } else {
                    0
                }
            },
            _ => 0,
        }
    }

    fn note_reading(event: BrokerEvent) -> (r: Option<Notice>)
        ensures
            r == reading_notice(event),
    {
        match event {
            BrokerEvent::Position(Ok(_)) => None,
            BrokerEvent::Position(Err(e)) => warn(Concern::ReadingPosition, e),
            _ => warn(Concern::ReadingPosition, BrokerError::Unexpected),
        }
    }

    /// Takes the next step of the carrying out.
    pub fn step(self, event: BrokerEvent) -> (r: Transition<Reconciliation, Outcome>)
        ensures
            r == self.spec_step(event),
    {
        let Reconciliation { target, opposite, position_size, phase } = self;
        match phase {
            Phase::CancelConflicts(c) => {
                let Transition { step, notice } = c.step(event);
                match step {
                    Step::Call(clearing, call) => Transition {
                        step: Step::Call(
                            Reconciliation {
                                target,
                                opposite,
                                position_size,
                                phase: Phase::CancelConflicts(clearing),
                            },
                            call,
                        ),
                        notice,
                    },
                    Step::Done(Ok(_)) => Transition {
                        step: Reconciliation::to_opposite(target, opposite, position_size),
                        notice,
                    },
                    Step::Done(Err(e)) => Transition {
                        step: Reconciliation::to_opposite(target, opposite, position_size),
                        notice: warn(Concern::ListingOrders, e),
                    },
                }
            },
            Phase::ReadingOpposite => {
                let shares = Reconciliation::shares_to_sell(&event);
                let notice = Reconciliation::note_reading(event);
                if shares >= 1 {
                    let symbol = opposite.clone();
                    Transition {
                        step: Step::Call(
                            Reconciliation {
                                target,
                                opposite,
                                position_size,
                                phase: Phase::SellingOpposite,
                            },
                            BrokerCall::SubmitOrder {
                                ticket: OrderTicket { symbol, qty: shares, side: Side::Sell },
                            },
                        ),
                        notice,
                    }
                } else {
                    Transition {
                        step: Reconciliation::to_stale(target, opposite, position_size),
                        notice,
                    }
                }
            },
            Phase::SellingOpposite => {
                let notice = match event {
                    BrokerEvent::Submitted(Ok(_)) => None,
                    BrokerEvent::Submitted(Err(e)) => fail(Concern::SellingOpposite, e),
                    _ => fail(Concern::SellingOpposite, BrokerError::Unexpected),
                };
                Transition { step: Reconciliation::to_stale(target, opposite, position_size), notice }
            },
            Phase::ReadingStale => {
                let shares = Reconciliation::shares_to_sell(&event);
                let notice = Reconciliation::note_reading(event);
                if shares >= 1 {
                    let symbol = target.clone();
                    Transition {
                        step: Step::Call(
                            Reconciliation {
                                target,
                                opposite,
                                position_size,
                                phase: Phase::SellingStale,
                            },
                            BrokerCall::SubmitOrder {
                                ticket: OrderTicket { symbol, qty: shares, side: Side::Sell },
                            },
                        ),
                        notice,
                    }
                } else {
                    Transition {
                        step: Reconciliation::to_price(target, opposite, position_size),
                        notice,
                    }
                }
            },
            Phase::SellingStale => {
                let notice = match event {
                    BrokerEvent::Submitted(Ok(_)) => None,
                    BrokerEvent::Submitted(Err(e)) => {
                        if is_held_for_orders(&e) {
                            warn(Concern::StaleHeldForOrders, e)
                        } else {
                            fail(Concern::SellingStale, e)
                        }
                    },
                    _ => fail(Concern::SellingStale, BrokerError::Unexpected),
                };
                Transition { step: Reconciliation::to_price(target, opposite, position_size), notice }
            },
            Phase::Pricing(lookup) => {
                let Transition { step, notice } = lookup.step(event);
                match step {
                    Step::Call(looking, call) => Transition {
                        step: Step::Call(
                            Reconciliation {
                                target,
                                opposite,
                                position_size,
                                phase: Phase::Pricing(looking),
                            },
                            call,
                        ),
                        notice,
                    },
                    Step::Done(Ok(price)) => {
                        let ticket = OrderTicket {
                            symbol: target.clone(),
                            qty: buy_quantity(position_size, price),
                            side: Side::Buy,
                        };
                        let (placement, call) = Placement::submit_now(ticket);
                        Transition {
                            step: Step::Call(
                                Reconciliation {
                                    target,
                                    opposite,
                                    position_size,
                                    phase: Phase::Placing(placement),
                                },
                                call,
                            ),
                            notice,
                        }
                    },
                    Step::Done(Err(e)) => Transition {
                        step: Step::Done(None),
                        notice: fail(Concern::Pricing, e),
                    },
                }
            },
            Phase::Placing(p) => {
                let Transition { step, notice } = p.step(event);
                match step {
                    Step::Call(placing, call) => Transition {
                        step: Step::Call(
                            Reconciliation { target, opposite, position_size, phase: Phase::Placing(placing) },
                            call,
                        ),
                        notice,
                    },
                    Step::Done(Ok(result)) => Transition { step: Step::Done(Some(result)), notice },
                    Step::Done(Err(e)) => Transition {
                        step: Step::Done(None),
                        notice: fail(Concern::Submitting, e),
                    },
                }
            },
        }
    }
}

/// The first step on a decision to buy `target`: the open orders in the
/// target are asked for, so that the resting sell orders can be cancelled.
pub open spec fn begin(target: String, opposite: String, position_size: Decimal) -> Transition<
    Reconciliation,
    Outcome,
> {
    Transition {
        step: Step::Call(
            Reconciliation {
                target,
                opposite,
                position_size,
                phase: Phase::CancelConflicts(
                    Cancellation { symbol: target, side: Side::Buy, phase: CancelPhase::Listing },
                ),
            },
            BrokerCall::ListOpenOrders { symbol: Some(target) },
        ),
        notice: None,
    }
}

/// What is done on a signal.
///
/// - A signal to hold does nothing: no call is made and there is no trade.
/// - A signal to buy the configuration's symbol starts the buying of it,
///   with the inverse symbol as the one to sell; a signal to buy the inverse
///   symbol starts the buying of that, with the symbol as the one to sell.
/// - A signal to buy anything else does nothing and is reported.
pub open spec fn execution(config: TradingConfig, signal: TradingSignal) -> Transition<
    Reconciliation,
    Outcome,
> {
    if signal.action != Action::Buy {
        Transition { step: Step::Done(None), notice: None }
    } else if signal.symbol@ == config.symbol@ {
        begin(config.symbol, config.inverse_symbol, config.position_size)
    } else if signal.symbol@ == config.inverse_symbol@ {
        begin(config.inverse_symbol, config.symbol, config.position_size)
    } else {
        Transition {
            step: Step::Done(None),
            notice: Some(
                Notice {
                    severity: Severity::Warning,
                    concern: Concern::UnsupportedSymbol,
                    error: None,
                },
            ),
        }
    }
}

impl AlpacaTrader {
    fn begin_trade(&self, inverse: bool) -> (r: Transition<Reconciliation, Outcome>)
        ensures
            inverse ==> r == begin(
                self.config().inverse_symbol,
                self.config().symbol,
                self.config().position_size,
            ),
            !inverse ==> r == begin(
                self.config().symbol,
                self.config().inverse_symbol,
                self.config().position_size,
            ),
    {
        let config = self.settings();
        let (target, opposite) = if inverse {
            (config.inverse_symbol.clone(), config.symbol.clone())
        } else {
            (config.symbol.clone(), config.inverse_symbol.clone())
        };
        let (clearing, call) = Cancellation::start(target.clone(), Side::Buy);
        Transition {
            step: Step::Call(
                Reconciliation {
                    target,
                    opposite,
                    position_size: config.position_size,
                    phase: Phase::CancelConflicts(clearing),
                },
                call,
            ),
            notice: None,
        }
    }

    /// Starts to carry out a signal: see [`execution`].
    pub fn execute_trade(&self, signal: &TradingSignal) -> (r: Transition<Reconciliation, Outcome>)
        ensures
            r == execution(self.config(), *signal),
    {
        let config = self.settings();
        match signal.action {
            Action::Hold => Transition { step: Step::Done(None), notice: None },
            Action::Buy => {
                if signal.symbol == config.symbol {
                    self.begin_trade(false)
                } else if signal.symbol == config.inverse_symbol {
                    self.begin_trade(true)
                } else {
                    Transition {
                        step: Step::Done(None),
                        notice: Some(
                            Notice {
                                severity: Severity::Warning,
                                concern: Concern::UnsupportedSymbol,
                                error: None,
                            },
                        ),
                    }
                }
            },
        }
    }
}

} // verus!
