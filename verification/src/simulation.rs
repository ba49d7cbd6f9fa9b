//! What the carrying out of a decision does to an account.
//!
//! Nothing here runs. A [`Run`] pairs the reconciliation's next step with the
//! shares that a brokerage holds, and [`replay`] feeds it the brokerage's
//! answers one after the other. The laws below hold of every sequence of
//! answers that a brokerage can give as long as it reports positions as they
//! are and fills the sales it is sent.

use crate::broker::{BrokerCall, BrokerEvent};
use crate::config::TradingConfig;
use crate::decimal::SCALE;
use crate::machine::Step;
use crate::model::{Action, Position, Side};
use crate::orders::PlacePhase;
use crate::reconcile::{execution, sized_quantity, Outcome, Phase, Reconciliation};
use crate::signals::TradingSignal;
use vstd::prelude::*;

verus! {

/// The shares held in each symbol, in millionths of a share.
pub type Holdings = Map<Seq<char>, int>;

/// A reconciliation at work on an account.
pub struct Run {
    /// What the reconciliation does next.
    pub step: Step<Reconciliation, Outcome>,
    /// What the account holds.
    pub held: Holdings,
}

/// The shares held in `symbol`; a symbol that the account does not list is
/// not held.
pub open spec fn shares_of(held: Holdings, symbol: Seq<char>) -> int {
    if held.dom().contains(symbol) {
        held[symbol]
    } else {
        0
    }
}

/// The quantity that a position report states; no position is a quantity of
/// zero.
pub open spec fn quantity_of(position: Option<Position>) -> int {
    match position {
        Some(p) => p.qty@,
        None => 0,
    }
}

/// The holdings after the brokerage answered `event` to `call`: an order
/// that it accepted is filled, which adds the shares of a buy and takes away
/// those of a sale. Nothing else changes what is held.
pub open spec fn settled(held: Holdings, call: BrokerCall, event: BrokerEvent) -> Holdings {
    match call {
        BrokerCall::SubmitOrder { ticket } => match event {
            BrokerEvent::Submitted(Ok(_)) => held.insert(
                ticket.symbol@,
                shares_of(held, ticket.symbol@) + (if ticket.side == Side::Buy {
                    ticket.qty * SCALE
                } else {
                    -(ticket.qty * SCALE)
                }),
            ),
            _ => held,
        },
        _ => held,
    }
}

/// Whether `event` is an answer that a brokerage without liquidation
/// failures gives to `call` when it holds `held`: a position is reported as
/// it is, and a sale is accepted. Every other answer is left open.
pub open spec fn faithful(held: Holdings, call: BrokerCall, event: BrokerEvent) -> bool {
    match call {
        BrokerCall::GetPosition { symbol } => event matches BrokerEvent::Position(Ok(position))
            && quantity_of(position) == shares_of(held, symbol@),
        BrokerCall::SubmitOrder { ticket } => ticket.side == Side::Sell ==> event
            matches BrokerEvent::Submitted(Ok(_)),
        _ => true,
    }
}

/// The run after the brokerage answered `event` to the pending call. A run
/// that is over stays as it is.
pub open spec fn advance(run: Run, event: BrokerEvent) -> Run {
    match run.step {
        Step::Call(state, call) => Run {
            step: state.spec_step(event).step,
            held: settled(run.held, call, event),
        },
        Step::Done(_) => run,
    }
}

/// The run after the brokerage gave `events`, one to each call in turn.
pub open spec fn replay(run: Run, events: Seq<BrokerEvent>) -> Run
    decreases events.len(),
{
    if events.len() == 0 {
        run
    } else {
        replay(advance(run, events[0]), events.drop_first())
    }
}

/// Whether each of `events` is a faithful answer to the call it answers.
pub open spec fn all_faithful(run: Run, events: Seq<BrokerEvent>) -> bool
    decreases events.len(),
{
    events.len() == 0 || ((run.step matches Step::Call(_, call) ==> faithful(
        run.held,
        call,
        events[0],
    )) && all_faithful(advance(run, events[0]), events.drop_first()))
}

/// A holding that can be sold whole by one order: a whole number of shares,
/// not negative and no more than `i32::MAX`.
pub open spec fn sellable_whole(shares: int) -> bool {
    &&& 0 <= shares <= i32::MAX * SCALE
    &&& shares % (SCALE as int) == 0
}

/// The buy orders that a run has yet to be allowed: two before the first
/// submission, one while the first is out or being retried, none after the
/// second.
pub open spec fn buys_left(step: Step<Reconciliation, Outcome>) -> nat {
    match step {
        Step::Done(_) => 0,
        Step::Call(state, call) => match state.phase {
            Phase::Placing(p) => match p.phase {
                PlacePhase::Clearing(_) => 2,
                PlacePhase::Submitting => 1,
                PlacePhase::Reclearing(_) => 1,
                PlacePhase::RetrySettling => 1,
                _ => 0,
            },
            _ => 2,
        },
    }
}

/// The buy orders among the calls that a run makes while it is given
/// `events`, the pending call of `run` included.
pub open spec fn buys_submitted(run: Run, events: Seq<BrokerEvent>) -> nat
    decreases events.len(),
{
    let now: nat = if run.step matches Step::Call(_, BrokerCall::SubmitOrder { ticket })
        && ticket.side == Side::Buy {
        1
    } else {
        0
    };
    if events.len() == 0 {
        now
    } else {
        now + buys_submitted(advance(run, events[0]), events.drop_first())
    }
}

/// What holds at every point of a run that buys `target`: until the other
/// symbol's position was read, it is held as at the start; once its sale is
/// out, the sale is for all of it; and from then on nothing of it is held and
/// no order touches it.
spec fn on_course(run: Run, target: String, opposite: String) -> bool {
    match run.step {
        Step::Done(_) => shares_of(run.held, opposite@) == 0,
        Step::Call(state, call) => {
            &&& state.target == target
            &&& state.opposite == opposite
            &&& match state.phase {
                Phase::CancelConflicts(_) => sellable_whole(shares_of(run.held, opposite@))
                    && !(call is SubmitOrder),
                Phase::ReadingOpposite => sellable_whole(shares_of(run.held, opposite@)) && call == (
                BrokerCall::GetPosition { symbol: opposite }),
                Phase::SellingOpposite => call matches BrokerCall::SubmitOrder { ticket }
                    && ticket.symbol == opposite && ticket.side == Side::Sell && ticket.qty * SCALE
                    == shares_of(run.held, opposite@),
                Phase::ReadingStale => shares_of(run.held, opposite@) == 0 && !(call
                    is SubmitOrder),
                Phase::SellingStale => shares_of(run.held, opposite@) == 0 && (call
                    matches BrokerCall::SubmitOrder { ticket } && ticket.symbol == target),
                Phase::Pricing(_) => shares_of(run.held, opposite@) == 0 && !(call is SubmitOrder),
                Phase::Placing(p) => shares_of(run.held, opposite@) == 0 && p.ticket.symbol
                    == target && (call matches BrokerCall::SubmitOrder { ticket } ==> ticket
                    == p.ticket),
            }
        },
    }
}

proof fn lemma_whole_shares(shares: int)
    requires
        sellable_whole(shares),
    ensures
        crate::decimal::whole_units(shares) * SCALE == shares,
        0 <= crate::decimal::whole_units(shares) <= i32::MAX,
{
    let units = shares / (SCALE as int);
    assert(shares == units * SCALE + shares % (SCALE as int)) by (nonlinear_arith)
        requires
            units == shares / (SCALE as int),
            SCALE == 1_000_000,
    ;
}

proof fn lemma_stays_on_course(run: Run, event: BrokerEvent, target: String, opposite: String)
    requires
        on_course(run, target, opposite),
        target@ != opposite@,
        run.step matches Step::Call(_, call) ==> faithful(run.held, call, event),
    ensures
        on_course(advance(run, event), target, opposite),
{
    match run.step {
        Step::Done(_) => {},
        Step::Call(state, call) => {
            let next = advance(run, event);
            match state.phase {
                Phase::CancelConflicts(c) => {
                    assert(next.held == run.held);
                },
                Phase::ReadingOpposite => {
                    let shares = shares_of(run.held, opposite@);
                    lemma_whole_shares(shares);
                    assert(next.held == run.held);
                },
                Phase::SellingOpposite => {
                    assert(shares_of(next.held, opposite@) == 0);
                },
                Phase::ReadingStale => {
                    assert(next.held == run.held);
                },
                Phase::SellingStale => {
                    assert(shares_of(next.held, opposite@) == 0);
                },
                Phase::Pricing(lookup) => {
                    assert(next.held == run.held);
                },
                Phase::Placing(p) => {
                    assert(shares_of(next.held, opposite@) == 0);
                },
            }
        },
    }
}

proof fn lemma_replay_stays_on_course(
    run: Run,
    events: Seq<BrokerEvent>,
    target: String,
    opposite: String,
)
    requires
        on_course(run, target, opposite),
        target@ != opposite@,
        all_faithful(run, events),
    ensures
        on_course(replay(run, events), target, opposite),
    decreases events.len(),
{
    if events.len() > 0 {
        lemma_stays_on_course(run, events[0], target, opposite);
        lemma_replay_stays_on_course(
            advance(run, events[0]),
            events.drop_first(),
            target,
            opposite,
        );
    }
}

/// Mutual exclusivity. Take a signal to buy one of the two symbols, which
/// differ, and an account whose position in the other symbol can be sold
/// whole. Let the brokerage answer in any way, as long as it reports
/// positions as they are and accepts the sales. Then once the reconciliation
/// is over, nothing is held in the other symbol.
pub proof fn lemma_mutual_exclusivity(
    config: TradingConfig,
    signal: TradingSignal,
    held: Holdings,
    events: Seq<BrokerEvent>,
)
    requires
        signal.action == Action::Buy,
        signal.symbol@ == config.symbol@ || signal.symbol@ == config.inverse_symbol@,
        config.symbol@ != config.inverse_symbol@,
        sellable_whole(
            shares_of(
                held,
                if signal.symbol@ == config.symbol@ {
                    config.inverse_symbol@
                } else {
                    config.symbol@
                },
            ),
        ),
        all_faithful(Run { step: execution(config, signal).step, held }, events),
        replay(Run { step: execution(config, signal).step, held }, events).step is Done,
    ensures
        shares_of(
            replay(Run { step: execution(config, signal).step, held }, events).held,
            if signal.symbol@ == config.symbol@ {
                config.inverse_symbol@
            } else {
                config.symbol@
            },
        ) == 0,
{
    let start = Run { step: execution(config, signal).step, held };
    if signal.symbol@ == config.symbol@ {
        lemma_replay_stays_on_course(start, events, config.symbol, config.inverse_symbol);
    } else {
        lemma_replay_stays_on_course(start, events, config.inverse_symbol, config.symbol);
    }
}

/// A signal to hold makes no call: the reconciliation is over before it
/// began, without a trade, and an account is left as it was.
pub proof fn lemma_hold_changes_nothing(
    config: TradingConfig,
    signal: TradingSignal,
    held: Holdings,
    events: Seq<BrokerEvent>,
)
    requires
        signal.action == Action::Hold,
    ensures
        execution(config, signal).step == Step::<Reconciliation, Outcome>::Done(None),
        execution(config, signal).notice is None,
        replay(Run { step: execution(config, signal).step, held }, events).held == held,
        buys_submitted(Run { step: execution(config, signal).step, held }, events) == 0,
    decreases events.len(),
{
    let start = Run { step: execution(config, signal).step, held };
    if events.len() > 0 {
        assert(advance(start, events[0]) == start);
        lemma_hold_changes_nothing(config, signal, held, events.drop_first());
    }
}

/// Whether every order that the step submits is for at least one share, and
/// every buy among them for the target.
spec fn orders_sound(step: Step<Reconciliation, Outcome>) -> bool {
    match step {
        Step::Done(_) => true,
        Step::Call(state, call) => {
            &&& state.phase matches Phase::Placing(p) ==> p.ticket.qty >= 1 && p.ticket.side
                == Side::Buy && p.ticket.symbol == state.target
            &&& call matches BrokerCall::SubmitOrder { ticket } ==> ticket.qty >= 1 && (ticket.side
                == Side::Buy ==> (state.phase matches Phase::Placing(p) && ticket == p.ticket))
        },
    }
}

proof fn lemma_orders_stay_sound(run: Run, event: BrokerEvent)
    requires
        orders_sound(run.step),
    ensures
        orders_sound(advance(run, event).step),
        buys_left(advance(run, event).step) <= buys_left(run.step),
        (advance(run, event).step matches Step::Call(_, BrokerCall::SubmitOrder { ticket })
            && ticket.side == Side::Buy) ==> buys_left(advance(run, event).step) < buys_left(
            run.step,
        ),
{
    match run.step {
        Step::Done(_) => {},
        Step::Call(state, call) => {
            match state.phase {
                Phase::Pricing(lookup) => {
                    match lookup.spec_step(event).step {
                        Step::Done(Ok(price)) => {
                            crate::reconcile::lemma_sized_quantity(state.position_size@, price@);
                        },
                        _ => {},
                    }
                },
                _ => {},
            }
        },
    }
}

/// The buys that a run submits from a point on are no more than it is
/// allowed at that point.
proof fn lemma_buys_bounded(run: Run, events: Seq<BrokerEvent>)
    requires
        orders_sound(run.step),
        run.step matches Step::Call(_, BrokerCall::SubmitOrder { ticket }) ==> ticket.side
            == Side::Buy ==> buys_left(run.step) < 2,
    ensures
        buys_submitted(run, events) <= (if run.step matches Step::Call(
            _,
            BrokerCall::SubmitOrder { ticket },
        ) && ticket.side == Side::Buy {
            buys_left(run.step) + 1
        } else {
            buys_left(run.step)
        }),
    decreases events.len(),
{
    if events.len() > 0 {
        lemma_orders_stay_sound(run, events[0]);
        lemma_buys_bounded(advance(run, events[0]), events.drop_first());
    }
}

/// One retry and no more: whatever the brokerage answers, the
/// reconciliation that a signal starts submits at most two buy orders.
pub proof fn lemma_at_most_two_buys(
    config: TradingConfig,
    signal: TradingSignal,
    held: Holdings,
    events: Seq<BrokerEvent>,
)
    ensures
        buys_submitted(Run { step: execution(config, signal).step, held }, events) <= 2,
{
    lemma_buys_bounded(Run { step: execution(config, signal).step, held }, events);
}

/// Every order that a reconciliation submits is for a positive number of
/// shares, and every buy is sized by the position size and the price that
/// was found.
pub proof fn lemma_every_order_is_positive(
    config: TradingConfig,
    signal: TradingSignal,
    held: Holdings,
    events: Seq<BrokerEvent>,
)
    ensures
        replay(Run { step: execution(config, signal).step, held }, events).step
            matches Step::Call(_, BrokerCall::SubmitOrder { ticket }) ==> ticket.qty >= 1,
{
    let start = Run { step: execution(config, signal).step, held };
    lemma_replay_sound(start, events);
}

proof fn lemma_replay_sound(run: Run, events: Seq<BrokerEvent>)
    requires
        orders_sound(run.step),
    ensures
        orders_sound(replay(run, events).step),
    decreases events.len(),
{
    if events.len() > 0 {
        lemma_orders_stay_sound(run, events[0]);
        lemma_replay_sound(advance(run, events[0]), events.drop_first());
    }
}

/// The buy that follows a price is sized by it: when a price lookup ends
/// with `price`, the next call submits a buy of the target for
/// `sized_quantity` shares.
pub proof fn lemma_buy_is_sized(state: Reconciliation, event: BrokerEvent)
    requires
        state.phase matches Phase::Pricing(lookup) && lookup.spec_step(event).step
            matches Step::Done(Ok(_)),
    ensures
        ({
            let price = state.phase->Pricing_0.spec_step(event).step->Done_0->Ok_0;
            state.spec_step(event).step matches Step::Call(_, BrokerCall::SubmitOrder { ticket })
                && ticket.symbol == state.target && ticket.side == Side::Buy && ticket.qty
                == sized_quantity(state.position_size@, price@)
        }),
{
    let price = state.phase->Pricing_0.spec_step(event).step->Done_0->Ok_0;
    crate::reconcile::lemma_sized_quantity(state.position_size@, price@);
}

} // verus!
