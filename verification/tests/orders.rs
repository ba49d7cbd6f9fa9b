use algotrade::broker::{AlpacaTrader, BrokerCall, BrokerError, BrokerEvent};
use algotrade::config::{Environment, TradingConfig};
use algotrade::decimal::Decimal;
use algotrade::machine::{
    fail, warn, Concern, Severity, Step, Transition, CANCEL_SETTLE_SECS, FILL_SETTLE_SECS,
    RETRY_SETTLE_SECS,
};
use algotrade::model::{OpenOrder, OrderTicket, Position, Side};
use algotrade::orders::{
    is_held_for_orders, is_wash_trade, CancelPhase, Cancellation, PlacePhase, Placement,
};
use algotrade::portfolio::PortfolioQuery;
use algotrade::price::{PriceLookup, PricePhase};

fn trader() -> AlpacaTrader {
    AlpacaTrader::new(TradingConfig::from_env(&Environment::empty()))
}

fn order(id: &str, side: &str) -> OpenOrder {
    OpenOrder {
        id: id.to_string(),
        symbol: "BOIL".to_string(),
        qty: "1".to_string(),
        side: side.to_string(),
        order_type: "market".to_string(),
        status: "new".to_string(),
        filled_qty: None,
        filled_avg_price: None,
        submitted_at: String::new(),
    }
}

fn rejection(status: u16, body: &str) -> BrokerError {
    BrokerError::ApiRejection { status, body: body.to_string() }
}

fn position(qty: &str, market_value: &str) -> Position {
    Position {
        symbol: "BOIL".to_string(),
        qty: Decimal::parse(qty).unwrap(),
        market_value: Decimal::parse(market_value).unwrap(),
        avg_entry_price: Decimal::zero(),
        unrealized_pl: Decimal::zero(),
        unrealized_plpc: Decimal::zero(),
    }
}

fn call_of<S, T>(step: Step<S, T>) -> (S, BrokerCall) {
    match step {
        Step::Call(state, call) => (state, call),
        Step::Done(_) => panic!("the operation is over"),
    }
}

fn done<S, T>(step: Step<S, T>) -> T {
    match step {
        Step::Done(output) => output,
        Step::Call(_, call) => panic!("the operation goes on with {:?}", call),
    }
}

#[test]
fn the_settle_delays() {
    assert_eq!(CANCEL_SETTLE_SECS, 1);
    assert_eq!(RETRY_SETTLE_SECS, 2);
    assert_eq!(FILL_SETTLE_SECS, 2);
}

#[test]
fn notices_carry_their_error() {
    let n = warn(Concern::Polling, BrokerError::NotFound).unwrap();
    assert_eq!((n.severity, n.concern), (Severity::Warning, Concern::Polling));
    assert!(matches!(n.error, Some(BrokerError::NotFound)));
    let n = fail(Concern::Submitting, BrokerError::Unexpected).unwrap();
    assert_eq!((n.severity, n.concern), (Severity::Error, Concern::Submitting));
    assert!(matches!(n.error, Some(BrokerError::Unexpected)));
}

#[test]
fn knows_a_wash_trade() {
    assert!(is_wash_trade(&rejection(403, "potential wash trade detected")));
    assert!(is_wash_trade(&rejection(403, "wash trade")));
    assert!(!is_wash_trade(&rejection(403, "Wash Trade")));
    assert!(!is_wash_trade(&rejection(403, "insufficient buying power")));
    assert!(is_wash_trade(&rejection(422, "wash trade")));
    assert!(!is_wash_trade(&BrokerError::Auth { body: "wash trade".to_string() }));
    assert!(!is_wash_trade(&BrokerError::Network { message: "wash trade".to_string() }));
    assert!(!is_wash_trade(&BrokerError::NotFound));
}

#[test]
fn knows_shares_that_are_held_for_orders() {
    assert!(is_held_for_orders(&rejection(403, "insufficient qty available for order")));
    assert!(is_held_for_orders(&rejection(422, "insufficient qty")));
    assert!(is_held_for_orders(&BrokerError::Auth { body: "insufficient qty".to_string() }));
    assert!(!is_held_for_orders(&rejection(403, "insufficient buying power")));
    assert!(!is_held_for_orders(&BrokerError::Network { message: "insufficient qty".to_string() }));
    assert!(!is_held_for_orders(&BrokerError::Parse { body: "insufficient qty".to_string() }));
    assert!(!is_held_for_orders(&BrokerError::NotFound));
    assert!(!is_held_for_orders(&BrokerError::Unexpected));
}

#[test]
fn cancelling_starts_with_the_open_orders_of_the_symbol() {
    let (state, call) = trader().cancel_opposite_orders("BOIL", Side::Buy);
    assert_eq!(state.symbol, "BOIL");
    assert_eq!(state.side, Side::Buy);
    assert!(matches!(state.phase, CancelPhase::Listing));
    assert!(matches!(call, BrokerCall::ListOpenOrders { symbol: Some(s) } if s == "BOIL"));
    let (state, call) = Cancellation::start("KOLD".to_string(), Side::Sell);
    assert_eq!((state.symbol.as_str(), state.side), ("KOLD", Side::Sell));
    assert!(matches!(call, BrokerCall::ListOpenOrders { symbol: Some(s) } if s == "KOLD"));
}

#[test]
fn only_orders_on_the_other_side_are_cancelled() {
    let (state, _) = trader().cancel_opposite_orders("BOIL", Side::Buy);
    let listed = vec![order("a", "buy"), order("b", "sell"), order("c", "buy"), order("d", "Sell")];
    let t = state.step(BrokerEvent::OpenOrders(Ok(listed)));
    assert!(t.notice.is_none());
    let (state, call) = call_of(t.step);
    assert!(matches!(call, BrokerCall::CancelOrder { id } if id == "b"));
    let t = state.step(BrokerEvent::Cancelled(Ok(())));
    let (state, call) = call_of(t.step);
    assert!(matches!(call, BrokerCall::CancelOrder { id } if id == "d"));
    let t = state.step(BrokerEvent::Cancelled(Ok(())));
    let (state, call) = call_of(t.step);
    assert!(matches!(call, BrokerCall::Settle { seconds: 1 }));
    assert!(matches!(state.phase, CancelPhase::Settling { cancelled: 2 }));
    let t = state.step(BrokerEvent::Settled);
    assert_eq!(done(t.step).unwrap(), 2);
}

#[test]
fn for_a_sale_the_buys_are_cancelled() {
    let (state, _) = trader().cancel_opposite_orders("BOIL", Side::Sell);
    let t = state.step(BrokerEvent::OpenOrders(Ok(vec![order("a", "sell"), order("b", "buy")])));
    let (_, call) = call_of(t.step);
    assert!(matches!(call, BrokerCall::CancelOrder { id } if id == "b"));
}

#[test]
fn with_nothing_to_cancel_the_cancelling_ends_at_once() {
    let (state, _) = trader().cancel_opposite_orders("BOIL", Side::Buy);
    assert_eq!(done(state.step(BrokerEvent::OpenOrders(Ok(vec![]))).step).unwrap(), 0);
    let (state, _) = trader().cancel_opposite_orders("BOIL", Side::Buy);
    assert_eq!(done(state.step(BrokerEvent::OpenOrders(Ok(vec![order("a", "buy")]))).step).unwrap(), 0);
}

#[test]
fn failed_cancellations_are_warned_of_and_not_counted() {
    let (state, _) = trader().cancel_opposite_orders("BOIL", Side::Buy);
    let t = state.step(BrokerEvent::OpenOrders(Ok(vec![order("a", "sell"), order("b", "sell")])));
    let (state, _) = call_of(t.step);
    let t = state.step(BrokerEvent::Cancelled(Err(BrokerError::NotFound)));
    let notice = t.notice.unwrap();
    assert_eq!((notice.severity, notice.concern), (Severity::Warning, Concern::CancellingOrder));
    assert!(matches!(notice.error, Some(BrokerError::NotFound)));
    let (state, call) = call_of(t.step);
    assert!(matches!(call, BrokerCall::CancelOrder { id } if id == "b"));
    let t = state.step(BrokerEvent::Cancelled(Ok(())));
    let (state, call) = call_of(t.step);
    assert!(matches!(call, BrokerCall::Settle { seconds: 1 }));
    assert_eq!(done(state.step(BrokerEvent::Settled).step).unwrap(), 1);
}

#[test]
fn a_listing_that_fails_ends_the_cancelling_with_its_error() {
    let (state, _) = trader().cancel_opposite_orders("BOIL", Side::Buy);
    let t = state.step(BrokerEvent::OpenOrders(Err(rejection(500, "down"))));
    assert!(t.notice.is_none());
    assert!(matches!(done(t.step), Err(BrokerError::ApiRejection { status: 500, .. })));
    let (state, _) = trader().cancel_opposite_orders("BOIL", Side::Buy);
    assert!(matches!(done(state.step(BrokerEvent::Settled).step), Err(BrokerError::Unexpected)));
}

#[test]
fn a_cancelling_that_is_out_of_bounds_ends_as_unexpected() {
    let broken = Cancellation {
        symbol: "BOIL".to_string(),
        side: Side::Buy,
        phase: CancelPhase::Cancelling { orders: vec![order("a", "sell")], at: 1, cancelled: 0 },
    };
    assert!(matches!(done(broken.step(BrokerEvent::Cancelled(Ok(()))).step), Err(BrokerError::Unexpected)));
    let broken = Cancellation {
        symbol: "BOIL".to_string(),
        side: Side::Buy,
        phase: CancelPhase::Cancelling { orders: vec![order("a", "sell")], at: 0, cancelled: usize::MAX },
    };
    assert!(matches!(done(broken.step(BrokerEvent::Cancelled(Ok(()))).step), Err(BrokerError::Unexpected)));
}

#[test]
fn placing_starts_with_the_cancelling() {
    let (state, call) = trader().place_market_order(Side::Sell, 3, "KOLD");
    assert_eq!((state.ticket.symbol.as_str(), state.ticket.qty, state.ticket.side), ("KOLD", 3, Side::Sell));
    assert!(matches!(&state.phase, PlacePhase::Clearing(c) if c.symbol == "KOLD" && c.side == Side::Sell));
    assert!(matches!(call, BrokerCall::ListOpenOrders { symbol: Some(s) } if s == "KOLD"));
}

#[test]
fn an_order_is_placed_and_looked_at_once() {
    let (state, _) = trader().place_market_order(Side::Buy, 3, "BOIL");
    let t = state.step(BrokerEvent::OpenOrders(Ok(vec![order("a", "sell")])));
    let (state, call) = call_of(t.step);
    assert!(matches!(call, BrokerCall::CancelOrder { id } if id == "a"));
    let (state, call) = call_of(state.step(BrokerEvent::Cancelled(Ok(()))).step);
    assert!(matches!(call, BrokerCall::Settle { seconds: 1 }));
    let (state, call) = call_of(state.step(BrokerEvent::Settled).step);
    match call {
        BrokerCall::SubmitOrder { ticket } => {
            assert_eq!((ticket.symbol.as_str(), ticket.qty, ticket.side), ("BOIL", 3, Side::Buy));
        }
        other => panic!("{:?}", other),
    }
    let mut accepted = order("o-9", "buy");
    accepted.status = "accepted".to_string();
    let (state, call) = call_of(state.step(BrokerEvent::Submitted(Ok(accepted))).step);
    assert!(matches!(call, BrokerCall::Settle { seconds: 2 }));
    let (state, call) = call_of(state.step(BrokerEvent::Settled).step);
    assert!(matches!(call, BrokerCall::GetOrder { id } if id == "o-9"));
    let mut filled = order("o-9", "buy");
    filled.status = "filled".to_string();
    filled.qty = "3".to_string();
    filled.filled_qty = Some("3".to_string());
    filled.filled_avg_price = Some("25.5".to_string());
    let t = state.step(BrokerEvent::Order(Ok(Some(filled))));
    assert!(t.notice.is_none());
    let result = done(t.step).unwrap();
    assert_eq!(result.status, "filled");
    assert_eq!(result.qty, 3);
    assert_eq!(result.filled_qty, Some(3));
    assert_eq!(result.filled_avg_price, Decimal::parse("25.5"));
}

#[test]
fn an_order_without_an_id_is_not_looked_at() {
    let (state, _) = Placement::submit_now(OrderTicket { symbol: "BOIL".to_string(), qty: 1, side: Side::Buy });
    let (state, call) = call_of(state.step(BrokerEvent::Submitted(Ok(order("", "buy")))).step);
    assert!(matches!(call, BrokerCall::Settle { seconds: 2 }));
    let result = done(state.step(BrokerEvent::Settled).step).unwrap();
    assert_eq!(result.order_id, "");
    assert_eq!(result.qty, 1);
}

#[test]
fn submit_now_skips_the_cancelling() {
    let (state, call) = Placement::submit_now(OrderTicket { symbol: "BOIL".to_string(), qty: 7, side: Side::Buy });
    assert!(matches!(state.phase, PlacePhase::Submitting));
    assert!(matches!(call, BrokerCall::SubmitOrder { ticket } if ticket.qty == 7));
}

#[test]
fn a_listing_that_fails_does_not_keep_the_order_from_being_placed() {
    let (state, _) = trader().place_market_order(Side::Buy, 3, "BOIL");
    let t = state.step(BrokerEvent::OpenOrders(Err(BrokerError::Network { message: "down".to_string() })));
    let notice = t.notice.unwrap();
    assert_eq!((notice.severity, notice.concern), (Severity::Warning, Concern::ListingOrders));
    let (_, call) = call_of(t.step);
    assert!(matches!(call, BrokerCall::SubmitOrder { .. }));
}

#[test]
fn a_wash_trade_is_retried_once_and_then_given_up() {
    let (state, _) = Placement::submit_now(OrderTicket { symbol: "BOIL".to_string(), qty: 2, side: Side::Buy });
    let t = state.step(BrokerEvent::Submitted(Err(rejection(403, "wash trade"))));
    let notice = t.notice.unwrap();
    assert_eq!((notice.severity, notice.concern), (Severity::Warning, Concern::WashTrade));
    let (state, call) = call_of(t.step);
    assert!(matches!(call, BrokerCall::ListOpenOrders { symbol: Some(s) } if s == "BOIL"));
    assert!(matches!(state.phase, PlacePhase::Reclearing(_)));
    let (state, call) = call_of(state.step(BrokerEvent::OpenOrders(Ok(vec![]))).step);
    assert!(matches!(call, BrokerCall::Settle { seconds: 2 }));
    assert!(matches!(state.phase, PlacePhase::RetrySettling));
    let (state, call) = call_of(state.step(BrokerEvent::Settled).step);
    assert!(matches!(call, BrokerCall::SubmitOrder { ticket } if ticket.qty == 2 && ticket.symbol == "BOIL"));
    assert!(matches!(state.phase, PlacePhase::Resubmitting));
    let t = state.step(BrokerEvent::Submitted(Err(rejection(403, "wash trade"))));
    assert!(t.notice.is_none());
    assert!(matches!(done(t.step), Err(BrokerError::ApiRejection { status: 403, .. })));
}

#[test]
fn a_retry_that_is_accepted_is_resolved_like_a_first_submission() {
    let placement = Placement {
        ticket: OrderTicket { symbol: "BOIL".to_string(), qty: 2, side: Side::Buy },
        phase: PlacePhase::Resubmitting,
    };
    let (state, call) = call_of(placement.step(BrokerEvent::Submitted(Ok(order("o-1", "buy")))).step);
    assert!(matches!(call, BrokerCall::Settle { seconds: 2 }));
    assert!(matches!(state.phase, PlacePhase::FillSettling { .. }));
}

#[test]
fn a_submission_that_fails_otherwise_ends_the_placing() {
    for error in [
        rejection(403, "insufficient buying power"),
        rejection(500, "internal error"),
        BrokerError::Network { message: "timeout".to_string() },
        BrokerError::Parse { body: "{".to_string() },
        BrokerError::Auth { body: "no".to_string() },
    ] {
        let (state, _) = Placement::submit_now(OrderTicket { symbol: "BOIL".to_string(), qty: 2, side: Side::Buy });
        let t = state.step(BrokerEvent::Submitted(Err(error)));
        assert!(t.notice.is_none());
        assert!(done(t.step).is_err());
    }
    let (state, _) = Placement::submit_now(OrderTicket { symbol: "BOIL".to_string(), qty: 2, side: Side::Buy });
    assert!(matches!(done(state.step(BrokerEvent::Settled).step), Err(BrokerError::Unexpected)));
}

#[test]
fn a_failed_poll_falls_back_to_the_submission() {
    let placement = Placement {
        ticket: OrderTicket { symbol: "BOIL".to_string(), qty: 2, side: Side::Buy },
        phase: PlacePhase::Polling { order: order("o-1", "buy") },
    };
    let t = placement.step(BrokerEvent::Order(Err(rejection(500, "down"))));
    let notice = t.notice.unwrap();
    assert_eq!((notice.severity, notice.concern), (Severity::Warning, Concern::Polling));
    let result = done(t.step).unwrap();
    assert_eq!(result.order_id, "o-1");
    assert_eq!(result.status, "new");
}

#[test]
fn an_order_that_the_brokerage_does_not_know_yet_is_reported_as_submitted() {
    let placement = Placement {
        ticket: OrderTicket { symbol: "BOIL".to_string(), qty: 2, side: Side::Buy },
        phase: PlacePhase::Polling { order: order("o-1", "buy") },
    };
    let t = placement.step(BrokerEvent::Order(Ok(None)));
    assert!(t.notice.is_none());
    assert_eq!(done(t.step).unwrap().order_id, "o-1");
    let placement = Placement {
        ticket: OrderTicket { symbol: "BOIL".to_string(), qty: 2, side: Side::Buy },
        phase: PlacePhase::Polling { order: order("o-1", "buy") },
    };
    let t = placement.step(BrokerEvent::Settled);
    assert!(matches!(t.notice.unwrap().error, Some(BrokerError::Unexpected)));
    assert_eq!(done(t.step).unwrap().order_id, "o-1");
}

#[test]
fn a_price_lookup_starts_with_the_bar() {
    let (lookup, call) = trader().get_current_price("BOIL");
    assert_eq!(lookup.symbol, "BOIL");
    assert!(matches!(lookup.phase, PricePhase::Bar));
    assert!(matches!(call, BrokerCall::GetLatestBar { symbol } if symbol == "BOIL"));
}

#[test]
fn the_bar_gives_the_price() {
    let (lookup, _) = trader().get_current_price("BOIL");
    let price = done(lookup.step(BrokerEvent::Bar(Ok(Decimal::parse("25.5").unwrap()))).step).unwrap();
    assert_eq!(price.micros(), 25_500_000);
}

#[test]
fn the_quote_follows_a_missing_bar_and_the_position_a_refused_quote() {
    let (lookup, _) = trader().get_current_price("BOIL");
    let t = lookup.step(BrokerEvent::Bar(Err(BrokerError::NotFound)));
    let notice = t.notice.unwrap();
    assert_eq!((notice.severity, notice.concern), (Severity::Warning, Concern::LatestBar));
    let (lookup, call) = call_of(t.step);
    assert!(matches!(call, BrokerCall::GetLatestQuote { symbol } if symbol == "BOIL"));
    let t = lookup.step(BrokerEvent::Quote(Err(rejection(403, "plan"))));
    let notice = t.notice.unwrap();
    assert_eq!((notice.severity, notice.concern), (Severity::Warning, Concern::LatestQuote));
    assert!(matches!(notice.error, Some(BrokerError::ApiRejection { status: 403, .. })));
    let (lookup, call) = call_of(t.step);
    assert!(matches!(call, BrokerCall::GetPosition { symbol } if symbol == "BOIL"));
    let t = lookup.step(BrokerEvent::Position(Ok(Some(position("10", "1000")))));
    assert!(t.notice.is_none());
    assert_eq!(done(t.step).unwrap().micros(), 100_000_000);
}

#[test]
fn the_ask_of_a_quote_is_the_price_when_there_is_no_bid() {
    let trader = trader();
    let (lookup, call) = trader.get_current_price("BOIL");
    let reply = algotrade::broker::Reply::Answer { status: 404, body: String::new() };
    let (lookup, call) = call_of(lookup.step(trader.interpret(&call, &reply)).step);
    let reply = algotrade::broker::Reply::Answer { status: 200, body: r#"{"quote":{"ap":31.25}}"#.to_string() };
    let price = done(lookup.step(trader.interpret(&call, &reply)).step).unwrap();
    assert_eq!(price.micros(), 31_250_000);
}

#[test]
fn a_lookup_without_any_source_ends_with_the_quotes_error() {
    for held in [None, Some(position("0", "0"))] {
        let lookup = PriceLookup { symbol: "BOIL".to_string(), phase: PricePhase::Holding { quote_error: rejection(403, "plan") } };
        let t = lookup.step(BrokerEvent::Position(Ok(held)));
        assert!(t.notice.is_none());
        assert!(matches!(done(t.step), Err(BrokerError::ApiRejection { status: 403, .. })));
    }
    let lookup = PriceLookup { symbol: "BOIL".to_string(), phase: PricePhase::Holding { quote_error: BrokerError::NotFound } };
    let t = lookup.step(BrokerEvent::Position(Err(BrokerError::Network { message: "x".to_string() })));
    let notice = t.notice.unwrap();
    assert_eq!((notice.severity, notice.concern), (Severity::Warning, Concern::ReadingPosition));
    assert!(matches!(notice.error, Some(BrokerError::Network { .. })));
    assert!(matches!(done(t.step), Err(BrokerError::NotFound)));
}

#[test]
fn a_short_position_prices_as_well() {
    let lookup = PriceLookup { symbol: "BOIL".to_string(), phase: PricePhase::Holding { quote_error: BrokerError::NotFound } };
    let price = done(lookup.step(BrokerEvent::Position(Ok(Some(position("-4", "-100"))))).step).unwrap();
    assert_eq!(price.micros(), 25_000_000);
}

#[test]
fn only_a_bar_that_fails_otherwise_ends_the_lookup_early() {
    let (lookup, _) = trader().get_current_price("BOIL");
    assert!(matches!(done(lookup.step(BrokerEvent::Bar(Err(rejection(500, "")))).step), Err(BrokerError::ApiRejection { .. })));
    let (lookup, _) = trader().get_current_price("BOIL");
    assert!(matches!(done(lookup.step(BrokerEvent::Settled).step), Err(BrokerError::Unexpected)));
    for error in [
        BrokerError::Network { message: "x".to_string() },
        BrokerError::Parse { body: "{}".to_string() },
        BrokerError::Unexpected,
        BrokerError::NotFound,
        BrokerError::Auth { body: String::new() },
        rejection(429, ""),
    ] {
        let lookup = PriceLookup { symbol: "BOIL".to_string(), phase: PricePhase::Quote };
        let t = lookup.step(BrokerEvent::Quote(Err(error)));
        assert_eq!(t.notice.unwrap().concern, Concern::LatestQuote);
        let (lookup, call) = call_of(t.step);
        assert!(matches!(call, BrokerCall::GetPosition { symbol } if symbol == "BOIL"));
        assert!(matches!(lookup.phase, PricePhase::Holding { .. }));
    }
    let lookup = PriceLookup { symbol: "BOIL".to_string(), phase: PricePhase::Quote };
    let (lookup, _) = call_of(lookup.step(BrokerEvent::Settled).step);
    assert!(matches!(lookup.phase, PricePhase::Holding { quote_error: BrokerError::Unexpected }));
    let lookup = PriceLookup { symbol: "BOIL".to_string(), phase: PricePhase::Quote };
    assert_eq!(done(lookup.step(BrokerEvent::Quote(Ok(Decimal::from_units(9)))).step).unwrap().micros(), 9_000_000);
    let lookup = PriceLookup { symbol: "BOIL".to_string(), phase: PricePhase::Holding { quote_error: BrokerError::NotFound } };
    let t = lookup.step(BrokerEvent::Settled);
    assert!(matches!(t.notice.unwrap().error, Some(BrokerError::Unexpected)));
    assert!(matches!(done(t.step), Err(BrokerError::NotFound)));
}

#[test]
fn a_summary_holds_positions_and_totals() {
    let (query, call) = trader().get_portfolio_summary();
    assert!(matches!(call, BrokerCall::ListPositions));
    let (query, call) = call_of(query.step(BrokerEvent::Positions(Ok(vec![position("10", "1000"), position("0", "0")]))));
    assert!(matches!(call, BrokerCall::GetAccount));
    let account = algotrade::model::AccountInfo {
        equity: Decimal::from_units(2000),
        buying_power: Decimal::from_units(4000),
        cash: Decimal::from_units(1500),
        portfolio_value: Decimal::from_units(2500),
    };
    let summary = done(query.step(BrokerEvent::Account(Ok(account)))).unwrap();
    assert_eq!(summary.total_value.micros(), 2_500_000_000);
    assert_eq!(summary.cash.micros(), 1_500_000_000);
    assert_eq!(summary.buying_power.micros(), 4_000_000_000);
    assert_eq!(summary.positions.len(), 2);
    assert_eq!(summary.positions[0].current_price().micros(), 100_000_000);
    assert_eq!(summary.positions[1].current_price().micros(), 0);
}

#[test]
fn a_summary_fails_with_either_call() {
    let (query, _) = trader().get_portfolio_summary();
    assert!(matches!(done(query.step(BrokerEvent::Positions(Err(BrokerError::NotFound)))), Err(BrokerError::NotFound)));
    let (query, _) = trader().get_portfolio_summary();
    assert!(matches!(done(query.step(BrokerEvent::Settled)), Err(BrokerError::Unexpected)));
    let query = PortfolioQuery::Account { positions: vec![] };
    assert!(matches!(
        done(query.step(BrokerEvent::Account(Err(BrokerError::Auth { body: "no".to_string() })))),
        Err(BrokerError::Auth { .. })
    ));
    let query = PortfolioQuery::Account { positions: vec![] };
    assert!(matches!(done(query.step(BrokerEvent::Settled)), Err(BrokerError::Unexpected)));
}

#[test]
fn a_transition_can_be_taken_apart() {
    let (state, _) = trader().cancel_opposite_orders("BOIL", Side::Buy);
    let Transition { step, notice } = state.step(BrokerEvent::OpenOrders(Ok(vec![])));
    assert!(notice.is_none());
    assert!(matches!(step, Step::Done(Ok(0))));
}
