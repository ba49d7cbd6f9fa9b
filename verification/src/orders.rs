//! Cancelling conflicting orders and placing a market order.
//!
//! The brokerage rejects an order that would trade against a resting order
//! on the other side of the same symbol (a wash trade). So before an order
//! is placed, the resting orders on the other side are cancelled; and where
//! the submission is still rejected as a wash trade, they are cancelled
//! again and the submission is tried once more, and no more than once.

use crate::broker::{AlpacaTrader, BrokerCall, BrokerError, BrokerEvent};
use crate::machine::{
    precedes, warn, warning, Concern, Rank, Step, Transition, CANCEL_SETTLE_SECS,
    FILL_SETTLE_SECS, RETRY_SETTLE_SECS,
};
use crate::model::{OpenOrder, OrderTicket, Side, TradeResult};
use crate::text::{bytes_of, contains, occurs_in};
use vstd::prelude::*;
use vstd::string::*;

verus! {

/// The first index from `from` on at which an order stands on the other side
/// than `side`, or the length where there is none.
pub open spec fn next_conflict(orders: Seq<OpenOrder>, from: int, side: Side) -> int
    decreases orders.len() - from,
{
    if from < 0 || from >= orders.len() {
        orders.len() as int
    } else if orders[from].on_side(side.spec_opposite()) {
        from
    } else {
        next_conflict(orders, from + 1, side)
    }
}

/// `next_conflict` finds a conflicting order and passes over none.
pub proof fn lemma_next_conflict(orders: Seq<OpenOrder>, from: int, side: Side)
    requires
        0 <= from <= orders.len(),
    ensures
        from <= next_conflict(orders, from, side) <= orders.len(),
        next_conflict(orders, from, side) < orders.len() ==> orders[next_conflict(
            orders,
            from,
            side,
        )].on_side(side.spec_opposite()),
        forall|i: int|
            from <= i < next_conflict(orders, from, side) ==> !(#[trigger] orders[i]).on_side(
                side.spec_opposite(),
            ),
    decreases orders.len() - from,
{
    if from < orders.len() && !orders[from].on_side(side.spec_opposite()) {
        lemma_next_conflict(orders, from + 1, side);
    }
}

fn find_conflict(orders: &Vec<OpenOrder>, from: usize, side: Side) -> (r: usize)
    requires
        from <= orders.len(),
    ensures
        r == next_conflict(orders@, from as int, side),
        from <= r <= orders.len(),
{
    let mut i: usize = from;
    while i < orders.len()
        invariant
            from <= i <= orders.len(),
            next_conflict(orders@, from as int, side) == next_conflict(orders@, i as int, side),
        decreases orders.len() - i,
    {
        if orders[i].is_on_side(side.opposite()) {
            return i;
        }
        i = i + 1;
    }
    i
}

/// Whether the brokerage rejected a submission as a wash trade: its answer
/// says "wash trade".
pub open spec fn wash_trade(error: BrokerError) -> bool {
    error matches BrokerError::ApiRejection { status, body } && occurs_in(
        bytes_of(body@),
        bytes_of("wash trade"@),
    )
}

/// Whether the brokerage rejected a submission as a wash trade.
pub fn is_wash_trade(error: &BrokerError) -> (r: bool)
    ensures
        r == wash_trade(*error),
{
    match error {
        BrokerError::ApiRejection { status, body } => contains(body.as_str(), "wash trade"),
        _ => false,
    }
}

/// Whether the brokerage rejected a sale because the shares are held for
/// other orders: a body that says "insufficient qty".
pub open spec fn held_for_orders(error: BrokerError) -> bool {
    match error {
        BrokerError::ApiRejection { status, body } => occurs_in(
            bytes_of(body@),
            bytes_of("insufficient qty"@),
        ),
        BrokerError::Auth { body } => occurs_in(bytes_of(body@), bytes_of("insufficient qty"@)),
        _ => false,
    }
}

/// Whether the brokerage rejected a sale because the shares are held.
pub fn is_held_for_orders(error: &BrokerError) -> (r: bool)
    ensures
        r == held_for_orders(*error),
{
    match error {
        BrokerError::ApiRejection { status, body } => contains(body.as_str(), "insufficient qty"),
        BrokerError::Auth { body } => contains(body.as_str(), "insufficient qty"),
        _ => false,
    }
}

/// How far the cancelling of conflicting orders has come.
#[derive(Debug)]
pub enum CancelPhase {
    /// The open orders were asked for.
    Listing,
    /// The cancelling of `orders[at]` was asked for; `cancelled` of the
    /// orders before it are cancelled.
    Cancelling { orders: Vec<OpenOrder>, at: usize, cancelled: usize },
    /// The settle delay after `cancelled` cancellations is running.
    Settling { cancelled: usize },
}

/// The cancelling of the resting orders in `symbol` that conflict with a new
/// order on `side`.
#[derive(Debug)]
pub struct Cancellation {
    pub symbol: String,
    pub side: Side,
    pub phase: CancelPhase,
}

/// How the cancelling ends: with the number of orders cancelled, or with
/// the error that kept the open orders from being listed.
pub type Cancelled = Result<usize, BrokerError>;

impl Cancellation {
    /// Whether the order that is being cancelled is one of the list, and no
    /// more orders count as cancelled than came before it.
    pub open spec fn well_formed(self) -> bool {
        match self.phase {
            CancelPhase::Cancelling { orders, at, cancelled } => at < orders.len() && cancelled
                <= at,
            _ => true,
        }
    }

    /// How far the cancelling is from its end: the listing comes first, then
    /// the orders that are left, then the settle delay.
    pub open spec fn rank(self) -> Rank {
        match self.phase {
            CancelPhase::Listing => (2, 0),
            CancelPhase::Cancelling { orders, at, cancelled } => (
                1,
                if at < orders.len() {
                    (orders.len() - at) as nat
                } else {
                    0
                },
            ),
            CancelPhase::Settling { cancelled } => (0, 0),
        }
    }

    /// The cancelling comes to an end: every step that does not end it
    /// brings it nearer to its end.
    pub proof fn lemma_progress(self, event: BrokerEvent)
        ensures
            self.spec_step(event).step matches Step::Call(next, _) ==> precedes(
                next.rank(),
                self.rank(),
            ) && next.well_formed(),
    {
        match self.phase {
            CancelPhase::Listing => {
                if let BrokerEvent::OpenOrders(Ok(orders)) = event {
                    lemma_next_conflict(orders@, 0, self.side);
                }
            },
            CancelPhase::Cancelling { orders, at, cancelled } => {
                if self.well_formed() {
                    lemma_next_conflict(orders@, at + 1, self.side);
                }
            },
            CancelPhase::Settling { cancelled } => {},
        }
    }

    /// Where the cancelling goes on looking for conflicting orders after the
    /// step it is at: behind the order that is being cancelled.
    pub open spec fn resumes_at(self) -> int {
        match self.phase {
            CancelPhase::Cancelling { orders, at, cancelled } => at + 1,
            _ => 0,
        }
    }

    /// What holds of a step that asks to cancel `orders[at]`: the order is on
    /// the other side, and between it and where the looking resumed no order
    /// on the other side was passed over.
    pub open spec fn cancels_next_conflict(
        self,
        orders: Vec<OpenOrder>,
        at: usize,
        call: BrokerCall,
    ) -> bool {
        &&& at < orders.len()
        &&& call == (BrokerCall::CancelOrder { id: orders@[at as int].id })
        &&& orders@[at as int].on_side(self.side.spec_opposite())
        &&& forall|i: int|
            self.resumes_at() <= i < at ==> !(#[trigger] orders@[i]).on_side(
                self.side.spec_opposite(),
            )
    }

    /// Every conflicting order is cancelled, in the order of the list, and
    /// no other: each step that asks to cancel an order asks for the next
    /// one on the other side, in the list that was given.
    pub proof fn lemma_cancels_what_conflicts(self, event: BrokerEvent)
        requires
            self.well_formed(),
        ensures
            self.spec_step(event).step matches Step::Call(next, call) ==> (next.phase
                matches CancelPhase::Cancelling { orders, at, cancelled }
                ==> self.cancels_next_conflict(orders, at, call) && (self.phase
                matches CancelPhase::Cancelling { orders: before, at: _, cancelled: _ } ==> orders
                == before)),
    {
        let opposite = self.side.spec_opposite();
        match self.phase {
            CancelPhase::Listing => {
                if let BrokerEvent::OpenOrders(Ok(orders)) = event {
                    lemma_next_conflict(orders@, 0, self.side);
                    let at = next_conflict(orders@, 0, self.side);
                    if at < orders@.len() {
                        assert(self.spec_step(event).step == Cancellation::proceed(
                            self.symbol,
                            self.side,
                            orders,
                            0,
                            0,
                        ));
                        assert(self.resumes_at() == 0);
                        assert(self.cancels_next_conflict(
                            orders,
                            at as usize,
                            BrokerCall::CancelOrder { id: orders@[at].id },
                        ));
                    }
                }
            },
            CancelPhase::Cancelling { orders, at, cancelled } => {
                lemma_next_conflict(orders@, at + 1, self.side);
                let then = next_conflict(orders@, at + 1, self.side);
                if then < orders@.len() {
                    assert(self.resumes_at() == at + 1);
                    assert(self.cancels_next_conflict(
                        orders,
                        then as usize,
                        BrokerCall::CancelOrder { id: orders@[then].id },
                    ));
                }
            },
            CancelPhase::Settling { cancelled } => {},
        }
    }

    /// The list of orders that the cancelling works on after `event`: the
    /// one it was given, or the one it is going through.
    pub open spec fn listed(self, event: BrokerEvent) -> Option<Vec<OpenOrder>> {
        match self.phase {
            CancelPhase::Listing => match event {
                BrokerEvent::OpenOrders(Ok(orders)) => Some(orders),
                _ => None,
            },
            CancelPhase::Cancelling { orders, at, cancelled } => Some(orders),
            CancelPhase::Settling { cancelled } => None,
        }
    }

    /// No conflicting order is left out: when a step asks for no further
    /// cancellation, no order from where the looking resumed to the end of
    /// the list is on the other side.
    pub proof fn lemma_cancels_all_that_conflict(self, event: BrokerEvent)
        requires
            self.well_formed(),
            self.listed(event) is Some,
        ensures
            !(self.spec_step(event).step matches Step::Call(next, _) && next.phase is Cancelling)
                ==> forall|i: int|
                self.resumes_at() <= i < self.listed(event)->0@.len() ==> !(
                #[trigger] self.listed(event)->0@[i]).on_side(self.side.spec_opposite()),
    {
        let orders = self.listed(event)->0;
        lemma_next_conflict(orders@, self.resumes_at(), self.side);
        match self.phase {
            CancelPhase::Listing => {
                assert(self.spec_step(event).step == Cancellation::proceed(
                    self.symbol,
                    self.side,
                    orders,
                    0,
                    0,
                ));
            },
            _ => {},
        }
    }

    /// Goes on to the next conflicting order among `orders` from `from` on.
    /// When none is left, the cancelling ends: after a settle delay where
    /// anything was cancelled, at once where nothing was.
    pub open spec fn proceed(
        symbol: String,
        side: Side,
        orders: Vec<OpenOrder>,
        from: int,
        cancelled: usize,
    ) -> Step<Cancellation, Cancelled> {
        let at = next_conflict(orders@, from, side);
        if at < orders@.len() {
            Step::Call(
                Cancellation {
                    symbol,
                    side,
                    phase: CancelPhase::Cancelling { orders, at: at as usize, cancelled },
                },
                BrokerCall::CancelOrder { id: orders@[at].id },
            )
        } else if cancelled > 0 {
            Step::Call(
                Cancellation { symbol, side, phase: CancelPhase::Settling { cancelled } },
                BrokerCall::Settle { seconds: CANCEL_SETTLE_SECS },
            )
        } else {
            Step::Done(Ok(cancelled))
        }
    }

    /// The step that the cancelling takes on `event`.
    ///
    /// - The list of open orders starts the cancelling of each one that
    ///   conflicts, in the order of the list. A list that cannot be had ends
    ///   the cancelling with the error.
    /// - A cancellation that fails is reported as a warning and the next
    ///   conflicting order is taken up.
    /// - The settle delay ends the cancelling.
    pub open spec fn spec_step(self, event: BrokerEvent) -> Transition<Cancellation, Cancelled> {
        match self.phase {
            CancelPhase::Listing => match event {
                BrokerEvent::OpenOrders(Ok(orders)) => Transition {
                    step: Cancellation::proceed(self.symbol, self.side, orders, 0, 0),
                    notice: None,
                },
                BrokerEvent::OpenOrders(Err(e)) => Transition {
                    step: Step::Done(Err(e)),
                    notice: None,
                },
                _ => Transition { step: Step::Done(Err(BrokerError::Unexpected)), notice: None },
            },
            CancelPhase::Cancelling { orders, at, cancelled } => if !self.well_formed() {
                Transition { step: Step::Done(Err(BrokerError::Unexpected)), notice: None }
            } else {
                match event {
                    BrokerEvent::Cancelled(Ok(())) => Transition {
                        step: Cancellation::proceed(
                            self.symbol,
                            self.side,
                            orders,
                            at + 1,
                            (cancelled + 1) as usize,
                        ),
                        notice: None,
                    },
                    BrokerEvent::Cancelled(Err(e)) => Transition {
                        step: Cancellation::proceed(
                            self.symbol,
                            self.side,
                            orders,
                            at + 1,
                            cancelled,
                        ),
                        notice: warning(Concern::CancellingOrder, e),
                    },
                    _ => Transition {
                        step: Cancellation::proceed(
                            self.symbol,
                            self.side,
                            orders,
                            at + 1,
                            cancelled,
                        ),
                        notice: warning(Concern::CancellingOrder, BrokerError::Unexpected),
                    },
                }
            },
            CancelPhase::Settling { cancelled } => Transition {
                step: Step::Done(Ok(cancelled)),
                notice: None,
            },
        }
    }

    fn go_on(symbol: String, side: Side, orders: Vec<OpenOrder>, from: usize, cancelled: usize) -> (r:
        Step<Cancellation, Cancelled>)
        requires
            from <= orders.len(),
        ensures
            r == Cancellation::proceed(symbol, side, orders, from as int, cancelled),
    {
        let at = find_conflict(&orders, from, side);
        if at < orders.len() {
            let id = orders[at].id.clone();
            Step::Call(
                Cancellation { symbol, side, phase: CancelPhase::Cancelling { orders, at, cancelled } },
                BrokerCall::CancelOrder { id },
            )
        } else if cancelled > 0 {
            Step::Call(
                Cancellation { symbol, side, phase: CancelPhase::Settling { cancelled } },
                BrokerCall::Settle { seconds: CANCEL_SETTLE_SECS },
            )
        } else {
            Step::Done(Ok(cancelled))
        }
    }

    /// Takes the next step of the cancelling.
    pub fn step(self, event: BrokerEvent) -> (r: Transition<Cancellation, Cancelled>)
        ensures
            r == self.spec_step(event),
    {
        let Cancellation { symbol, side, phase } = self;
        match phase {
            CancelPhase::Listing => match event {
                BrokerEvent::OpenOrders(Ok(orders)) => Transition {
                    step: Cancellation::go_on(symbol, side, orders, 0, 0),
                    notice: None,
                },
                BrokerEvent::OpenOrders(Err(e)) => Transition {
                    step: Step::Done(Err(e)),
                    notice: None,
                },
                _ => Transition { step: Step::Done(Err(BrokerError::Unexpected)), notice: None },
            },
            CancelPhase::Cancelling { orders, at, cancelled } => {
                if !(at < orders.len() && cancelled <= at) {
                    return Transition {
                        step: Step::Done(Err(BrokerError::Unexpected)),
                        notice: None,
                    };
                }
                match event {
                    BrokerEvent::Cancelled(Ok(())) => Transition {
                        step: Cancellation::go_on(symbol, side, orders, at + 1, cancelled + 1),
                        notice: None,
                    },
                    BrokerEvent::Cancelled(Err(e)) => Transition {
                        step: Cancellation::go_on(symbol, side, orders, at + 1, cancelled),
                        notice: warn(Concern::CancellingOrder, e),
                    },
                    _ => Transition {
                        step: Cancellation::go_on(symbol, side, orders, at + 1, cancelled),
                        notice: warn(Concern::CancellingOrder, BrokerError::Unexpected),
                    },
                }
            },
            CancelPhase::Settling { cancelled } => Transition {
                step: Step::Done(Ok(cancelled)),
                notice: None,
            },
        }
    }

    /// Starts the cancelling by asking for the open orders in `symbol`.
    pub fn start(symbol: String, side: Side) -> (r: (Cancellation, BrokerCall))
        ensures
            r.0 == (Cancellation { symbol, side, phase: CancelPhase::Listing }),
            r.1 == (BrokerCall::ListOpenOrders { symbol: Some(symbol) }),
    {
        let listed = symbol.clone();
        (
            Cancellation { symbol, side, phase: CancelPhase::Listing },
            BrokerCall::ListOpenOrders { symbol: Some(listed) },
        )
    }
}

/// How far the placing of an order has come.
#[derive(Debug)]
pub enum PlacePhase {
    /// Conflicting orders are being cancelled before the first submission.
    Clearing(Cancellation),
    /// The order was submitted for the first time.
    Submitting,
    /// The first submission was rejected as a wash trade; conflicting
    /// orders are being cancelled again.
    Reclearing(Cancellation),
    /// The settle delay before the second submission is running.
    RetrySettling,
    /// The order was submitted for the second time.
    Resubmitting,
    /// The order was accepted; the settle delay before the look at its
    /// status is running.
    FillSettling { order: OpenOrder },
    /// The order's status was asked for.
    Polling { order: OpenOrder },
}

/// The placing of one market order.
#[derive(Debug)]
pub struct Placement {
    pub ticket: OrderTicket,
    pub phase: PlacePhase,
}

/// How the placing ends.
pub type Placed = Result<TradeResult, BrokerError>;

impl Placement {
    /// How far the placing is from its end.
    pub open spec fn rank(self) -> Rank {
        match self.phase {
            PlacePhase::Clearing(c) => (10 + c.rank().0, c.rank().1),
            PlacePhase::Submitting => (9, 0),
            PlacePhase::Reclearing(c) => (6 + c.rank().0, c.rank().1),
            PlacePhase::RetrySettling => (5, 0),
            PlacePhase::Resubmitting => (4, 0),
            PlacePhase::FillSettling { order } => (3, 0),
            PlacePhase::Polling { order } => (2, 0),
        }
    }

    /// The placing comes to an end: every step that does not end it brings
    /// it nearer to its end. In particular it submits no third time.
    pub proof fn lemma_progress(self, event: BrokerEvent)
        ensures
            self.spec_step(event).step matches Step::Call(next, _) ==> precedes(
                next.rank(),
                self.rank(),
            ) && next.ticket == self.ticket,
    {
        match self.phase {
            PlacePhase::Clearing(c) => {
                c.lemma_progress(event);
            },
            PlacePhase::Reclearing(c) => {
                c.lemma_progress(event);
            },
            _ => {},
        }
    }

    /// The submission of the ticket.
    pub open spec fn submit(ticket: OrderTicket, phase: PlacePhase) -> Step<Placement, Placed> {
        Step::Call(Placement { ticket, phase }, BrokerCall::SubmitOrder { ticket })
    }

    /// What follows the cancelling of conflicting orders, which took the
    /// step `cleared`: while it goes on, its calls are made; when it is
    /// over, however it ended, `then` follows. An error that ended it is
    /// reported as a warning.
    pub open spec fn after_clearing(
        ticket: OrderTicket,
        cleared: Transition<Cancellation, Cancelled>,
        again: bool,
        then: Step<Placement, Placed>,
    ) -> Transition<Placement, Placed> {
        match cleared.step {
            Step::Call(c, call) => Transition {
                step: Step::Call(
                    Placement {
                        ticket,
                        phase: if again {
                            PlacePhase::Reclearing(c)
                        } else {
                            PlacePhase::Clearing(c)
                        },
                    },
                    call,
                ),
                notice: cleared.notice,
            },
            Step::Done(Ok(_)) => Transition { step: then, notice: cleared.notice },
            Step::Done(Err(e)) => Transition {
                step: then,
                notice: warning(Concern::ListingOrders, e),
            },
        }
    }

    /// The step that the placing takes on `event`.
    ///
    /// - After the cancelling of conflicting orders the order is submitted.
    /// - An accepted order is looked at once more after a settle delay.
    /// - A first submission that is rejected as a wash trade leads to
    ///   another cancelling, a settle delay and a second submission. Any
    ///   other failure ends the placing with the error.
    /// - A second submission that fails ends the placing with the error.
    /// - The result is made from the order's status where that could be
    ///   read, else from the answer to the submission. A status that could
    ///   not be read is reported as a warning, unless the brokerage just
    ///   does not know the order.
    pub open spec fn spec_step(self, event: BrokerEvent) -> Transition<Placement, Placed> {
        match self.phase {
            PlacePhase::Clearing(c) => Placement::after_clearing(
                self.ticket,
                c.spec_step(event),
                false,
                Placement::submit(self.ticket, PlacePhase::Submitting),
            ),
            PlacePhase::Submitting => match event {
                BrokerEvent::Submitted(Ok(order)) => Transition {
                    step: Step::Call(
                        Placement { ticket: self.ticket, phase: PlacePhase::FillSettling { order } },
                        BrokerCall::Settle { seconds: FILL_SETTLE_SECS },
                    ),
                    notice: None,
                },
                BrokerEvent::Submitted(Err(e)) => if wash_trade(e) {
                    Transition {
                        step: Step::Call(
                            Placement {
                                ticket: self.ticket,
                                phase: PlacePhase::Reclearing(
                                    Cancellation {
                                        symbol: self.ticket.symbol,
                                        side: self.ticket.side,
                                        phase: CancelPhase::Listing,
                                    },
                                ),
                            },
                            BrokerCall::ListOpenOrders { symbol: Some(self.ticket.symbol) },
                        ),
                        notice: warning(Concern::WashTrade, e),
                    }
                } else {
                    Transition { step: Step::Done(Err(e)), notice: None }
                },
                _ => Transition { step: Step::Done(Err(BrokerError::Unexpected)), notice: None },
            },
            PlacePhase::Reclearing(c) => Placement::after_clearing(
                self.ticket,
                c.spec_step(event),
                true,
                Step::Call(
                    Placement { ticket: self.ticket, phase: PlacePhase::RetrySettling },
                    BrokerCall::Settle { seconds: RETRY_SETTLE_SECS },
                ),
            ),
            PlacePhase::RetrySettling => Transition {
                step: Placement::submit(self.ticket, PlacePhase::Resubmitting),
                notice: None,
            },
            PlacePhase::Resubmitting => match event {
                BrokerEvent::Submitted(Ok(order)) => Transition {
                    step: Step::Call(
                        Placement { ticket: self.ticket, phase: PlacePhase::FillSettling { order } },
                        BrokerCall::Settle { seconds: FILL_SETTLE_SECS },
                    ),
                    notice: None,
                },
                BrokerEvent::Submitted(Err(e)) => Transition {
                    step: Step::Done(Err(e)),
                    notice: None,
                },
                _ => Transition { step: Step::Done(Err(BrokerError::Unexpected)), notice: None },
            },
            PlacePhase::FillSettling { order } => if order.id@.len() > 0 {
                Transition {
                    step: Step::Call(
                        Placement { ticket: self.ticket, phase: PlacePhase::Polling { order } },
                        BrokerCall::GetOrder { id: order.id },
                    ),
                    notice: None,
                }
            } else {
                Transition { step: Step::Done(Ok(TradeResult::of_order(order))), notice: None }
            },
            PlacePhase::Polling { order } => match event {
                BrokerEvent::Order(Ok(Some(fresh))) => Transition {
                    step: Step::Done(Ok(TradeResult::of_order(fresh))),
                    notice: None,
                },
                BrokerEvent::Order(Ok(None)) => Transition {
                    step: Step::Done(Ok(TradeResult::of_order(order))),
                    notice: None,
                },
                BrokerEvent::Order(Err(e)) => Transition {
                    step: Step::Done(Ok(TradeResult::of_order(order))),
                    notice: warning(Concern::Polling, e),
                },
                _ => Transition {
                    step: Step::Done(Ok(TradeResult::of_order(order))),
                    notice: warning(Concern::Polling, BrokerError::Unexpected),
                },
            },
        }
    }

    fn submission(ticket: OrderTicket, phase: PlacePhase) -> (r: Step<Placement, Placed>)
        ensures
            r == Placement::submit(ticket, phase),
    {
        let sent = ticket.clone();
        Step::Call(Placement { ticket, phase }, BrokerCall::SubmitOrder { ticket: sent })
    }

    fn cleared(
        ticket: OrderTicket,
        cleared: Transition<Cancellation, Cancelled>,
        again: bool,
    ) -> (r: Transition<Placement, Placed>)
        ensures
            r == Placement::after_clearing(
                ticket,
                cleared,
                again,
                if again {
                    Step::Call(
                        Placement { ticket, phase: PlacePhase::RetrySettling },
                        BrokerCall::Settle { seconds: RETRY_SETTLE_SECS },
                    )
                } else {
                    Placement::submit(ticket, PlacePhase::Submitting)
                },
            ),
    {
        let Transition { step, notice } = cleared;
        match step {
            Step::Call(c, call) => Transition {
                step: Step::Call(
                    Placement {
                        ticket,
                        phase: if again {
                            PlacePhase::Reclearing(c)
                        } else {
                            PlacePhase::Clearing(c)
                        },
                    },
                    call,
                ),
                notice,
            },
            Step::Done(ended) => {
                let notice = match ended {
                    Ok(_) => notice,
                    Err(e) => warn(Concern::ListingOrders, e),
                };
                let then = if again {
                    Step::Call(
                        Placement { ticket, phase: PlacePhase::RetrySettling },
                        BrokerCall::Settle { seconds: RETRY_SETTLE_SECS },
                    )
                } else {
                    Placement::submission(ticket, PlacePhase::Submitting)
                };
                Transition { step: then, notice }
            },
        }
    }

    /// Takes the next step of the placing.
    pub fn step(self, event: BrokerEvent) -> (r: Transition<Placement, Placed>)
        ensures
            r == self.spec_step(event),
    {
        let Placement { ticket, phase } = self;
        match phase {
            PlacePhase::Clearing(c) => Placement::cleared(ticket, c.step(event), false),
            PlacePhase::Submitting => match event {
                BrokerEvent::Submitted(Ok(order)) => Transition {
                    step: Step::Call(
                        Placement { ticket, phase: PlacePhase::FillSettling { order } },
                        BrokerCall::Settle { seconds: FILL_SETTLE_SECS },
                    ),
                    notice: None,
                },
                BrokerEvent::Submitted(Err(e)) => {
                    if is_wash_trade(&e) {
                        let (again, call) = Cancellation::start(ticket.symbol.clone(), ticket.side);
                        Transition {
                            step: Step::Call(
                                Placement { ticket, phase: PlacePhase::Reclearing(again) },
                                call,
                            ),
                            notice: warn(Concern::WashTrade, e),
                        }
                    } else {
                        Transition { step: Step::Done(Err(e)), notice: None }
                    }
                },
                _ => Transition { step: Step::Done(Err(BrokerError::Unexpected)), notice: None },
            },
            PlacePhase::Reclearing(c) => Placement::cleared(ticket, c.step(event), true),
            PlacePhase::RetrySettling => Transition {
                step: Placement::submission(ticket, PlacePhase::Resubmitting),
                notice: None,
            },
            PlacePhase::Resubmitting => match event {
                BrokerEvent::Submitted(Ok(order)) => Transition {
                    step: Step::Call(
                        Placement { ticket, phase: PlacePhase::FillSettling { order } },
                        BrokerCall::Settle { seconds: FILL_SETTLE_SECS },
                    ),
                    notice: None,
                },
                BrokerEvent::Submitted(Err(e)) => Transition {
                    step: Step::Done(Err(e)),
                    notice: None,
                },
                _ => Transition { step: Step::Done(Err(BrokerError::Unexpected)), notice: None },
            },
            PlacePhase::FillSettling { order } => {
                if !order.id.as_str().is_empty() {
                    let id = order.id.clone();
                    Transition {
                        step: Step::Call(
                            Placement { ticket, phase: PlacePhase::Polling { order } },
                            BrokerCall::GetOrder { id },
                        ),
                        notice: None,
                    }
                } else {
                    Transition { step: Step::Done(Ok(TradeResult::from_order(order))), notice: None }
                }
            },
            PlacePhase::Polling { order } => match event {
                BrokerEvent::Order(Ok(Some(fresh))) => Transition {
                    step: Step::Done(Ok(TradeResult::from_order(fresh))),
                    notice: None,
                },
                BrokerEvent::Order(Ok(None)) => Transition {
                    step: Step::Done(Ok(TradeResult::from_order(order))),
                    notice: None,
                },
                BrokerEvent::Order(Err(e)) => Transition {
                    step: Step::Done(Ok(TradeResult::from_order(order))),
                    notice: warn(Concern::Polling, e),
                },
                _ => Transition {
                    step: Step::Done(Ok(TradeResult::from_order(order))),
                    notice: warn(Concern::Polling, BrokerError::Unexpected),
                },
            },
        }
    }

    /// Starts the placing with the submission itself, for a caller that has
    /// cancelled the conflicting orders already.
    pub fn submit_now(ticket: OrderTicket) -> (r: (Placement, BrokerCall))
        ensures
            Step::<Placement, Placed>::Call(r.0, r.1) == Placement::submit(
                ticket,
                PlacePhase::Submitting,
            ),
    {
        let sent = ticket.clone();
        (Placement { ticket, phase: PlacePhase::Submitting }, BrokerCall::SubmitOrder { ticket: sent })
    }
}

impl AlpacaTrader {
    /// Starts the cancelling of the resting orders in `symbol` that stand on
    /// the other side than `side`.
    pub fn cancel_opposite_orders(&self, symbol: &str, side: Side) -> (r: (Cancellation, BrokerCall))
        ensures
            r.0.symbol@ == symbol@,
            r.0.side == side,
            r.0.phase is Listing,
            r.1 == (BrokerCall::ListOpenOrders { symbol: Some(r.0.symbol) }),
    {
        Cancellation::start(symbol.to_owned(), side)
    }

    /// Starts the placing of a market order for `qty` shares of `symbol`:
    /// first the conflicting orders are cancelled, then the order is
    /// submitted.
    pub fn place_market_order(&self, side: Side, qty: i32, symbol: &str) -> (r: (
        Placement,
        BrokerCall,
    ))
        requires
            qty >= 1,
        ensures
            r.0.ticket.symbol@ == symbol@,
            r.0.ticket.qty == qty,
            r.0.ticket.side == side,
            r.0.phase == PlacePhase::Clearing(
                Cancellation { symbol: r.0.ticket.symbol, side, phase: CancelPhase::Listing },
            ),
            r.1 == (BrokerCall::ListOpenOrders { symbol: Some(r.0.ticket.symbol) }),
    {
        let ticket = OrderTicket { symbol: symbol.to_owned(), qty, side };
        let (clearing, call) = Cancellation::start(ticket.symbol.clone(), side);
        (Placement { ticket, phase: PlacePhase::Clearing(clearing) }, call)
    }
}

} // verus!
