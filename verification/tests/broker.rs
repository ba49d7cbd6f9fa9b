use algotrade::broker::{
    preferred, AlpacaTrader, BrokerCall, BrokerError, BrokerEvent, HttpMethod, Reply,
    KEY_ID_HEADER, ORDER_TYPE, SECRET_KEY_HEADER, TIME_IN_FORCE,
};
use algotrade::config::{Environment, TradingConfig};
use algotrade::model::{OrderTicket, Side};

fn trader() -> AlpacaTrader {
    let mut env = Environment::empty();
    env.alpaca_api_key = Some("key-id".to_string());
    env.alpaca_secret_key = Some("secret".to_string());
    env.alpaca_base_url = Some("https://broker.test".to_string());
    AlpacaTrader::new(TradingConfig::from_env(&env))
}

fn answer(status: u16, body: &str) -> Reply {
    Reply::Answer { status, body: body.to_string() }
}

fn url_of(call: BrokerCall) -> (HttpMethod, String) {
    let request = trader().request(&call).unwrap();
    assert_eq!(request.key_id, "key-id");
    assert_eq!(request.secret_key, "secret");
    (request.method, request.url)
}

const ORDER: &str = r#"{"id":"o-1","symbol":"BOIL","qty":"10","side":"buy","type":"market","status":"accepted","filled_qty":"0","filled_avg_price":null,"submitted_at":"2024-01-05T10:00:00Z"}"#;

#[test]
fn the_constants_of_the_rest_surface() {
    assert_eq!(KEY_ID_HEADER, "APCA-API-KEY-ID");
    assert_eq!(SECRET_KEY_HEADER, "APCA-API-SECRET-KEY");
    assert_eq!(ORDER_TYPE, "market");
    assert_eq!(TIME_IN_FORCE, "day");
}

#[test]
fn the_client_keeps_its_configuration() {
    let t = trader();
    assert_eq!(t.settings().alpaca_api_key, "key-id");
    assert_eq!(t.settings().symbol, "BOIL");
}

#[test]
fn every_call_has_its_request() {
    assert_eq!(url_of(BrokerCall::GetAccount), (HttpMethod::Get, "https://broker.test/v2/account".to_string()));
    assert_eq!(
        url_of(BrokerCall::GetPosition { symbol: "BOIL".to_string() }),
        (HttpMethod::Get, "https://broker.test/v2/positions/BOIL".to_string())
    );
    assert_eq!(url_of(BrokerCall::ListPositions), (HttpMethod::Get, "https://broker.test/v2/positions".to_string()));
    assert_eq!(
        url_of(BrokerCall::GetLatestBar { symbol: "KOLD".to_string() }),
        (HttpMethod::Get, "https://broker.test/v2/stocks/KOLD/bars/latest".to_string())
    );
    assert_eq!(
        url_of(BrokerCall::GetLatestQuote { symbol: "KOLD".to_string() }),
        (HttpMethod::Get, "https://broker.test/v2/stocks/KOLD/quotes/latest".to_string())
    );
    assert_eq!(
        url_of(BrokerCall::ListOpenOrders { symbol: None }),
        (HttpMethod::Get, "https://broker.test/v2/orders?status=open".to_string())
    );
    assert_eq!(
        url_of(BrokerCall::ListOpenOrders { symbol: Some("BOIL".to_string()) }),
        (HttpMethod::Get, "https://broker.test/v2/orders?status=open&symbols=BOIL".to_string())
    );
    assert_eq!(
        url_of(BrokerCall::CancelOrder { id: "o-1".to_string() }),
        (HttpMethod::Delete, "https://broker.test/v2/orders/o-1".to_string())
    );
    assert_eq!(
        url_of(BrokerCall::GetOrder { id: "o-1".to_string() }),
        (HttpMethod::Get, "https://broker.test/v2/orders/o-1".to_string())
    );
}

#[test]
fn a_submission_carries_its_order() {
    let ticket = OrderTicket { symbol: "BOIL".to_string(), qty: 12, side: Side::Buy };
    let request = trader().request(&BrokerCall::SubmitOrder { ticket }).unwrap();
    assert_eq!(request.method, HttpMethod::Post);
    assert_eq!(request.url, "https://broker.test/v2/orders");
    let order = request.order.unwrap();
    assert_eq!(order.symbol, "BOIL");
    assert_eq!(order.qty, 12);
    assert_eq!(order.side, Side::Buy);
    assert!(trader().request(&BrokerCall::GetAccount).unwrap().order.is_none());
}

#[test]
fn a_settle_delay_has_no_request() {
    assert!(trader().request(&BrokerCall::Settle { seconds: 2 }).is_none());
}

#[test]
fn reads_an_account() {
    let body = r#"{"status":"ACTIVE","buying_power":"2000.50","equity":"1500","cash":"1000.25","portfolio_value":"1500.75","more":1}"#;
    let account = trader().get_account_info(&answer(200, body)).unwrap();
    assert_eq!(account.equity.micros(), 1_500_000_000);
    assert_eq!(account.buying_power.micros(), 2_000_500_000);
    assert_eq!(account.cash.micros(), 1_000_250_000);
    assert_eq!(account.portfolio_value.micros(), 1_500_750_000);
}

#[test]
fn an_account_needs_all_its_fields() {
    let t = trader();
    for body in [
        r#"{"buying_power":"1","equity":"1","cash":"1","portfolio_value":"1"}"#,
        r#"{"status":"ACTIVE","equity":"1","cash":"1","portfolio_value":"1"}"#,
        r#"{"status":"ACTIVE","buying_power":"1","equity":1,"cash":"1","portfolio_value":"1"}"#,
        r#"{"status":"ACTIVE","buying_power":"1","equity":"x","cash":"1","portfolio_value":"1"}"#,
        r#"["status"]"#,
        "not json",
        "",
    ] {
        match t.get_account_info(&answer(200, body)) {
            Err(BrokerError::Parse { body: b }) => assert_eq!(b, body),
            other => panic!("{:?} for {:?}", other, body),
        }
    }
}

#[test]
fn failures_are_told_apart() {
    let t = trader();
    match t.get_account_info(&Reply::Unreachable { message: "timed out".to_string() }) {
        Err(BrokerError::Network { message }) => assert_eq!(message, "timed out"),
        other => panic!("{:?}", other),
    }
    match t.get_account_info(&answer(401, "denied")) {
        Err(BrokerError::Auth { body }) => assert_eq!(body, "denied"),
        other => panic!("{:?}", other),
    }
    assert!(matches!(t.get_account_info(&answer(404, "gone")), Err(BrokerError::NotFound)));
    match t.get_account_info(&answer(500, "oops")) {
        Err(BrokerError::ApiRejection { status, body }) => {
            assert_eq!(status, 500);
            assert_eq!(body, "oops");
        }
        other => panic!("{:?}", other),
    }
    assert!(matches!(t.get_account_info(&answer(199, "")), Err(BrokerError::ApiRejection { status: 199, .. })));
    assert!(matches!(t.get_account_info(&answer(300, "")), Err(BrokerError::ApiRejection { status: 300, .. })));
    assert!(matches!(t.get_account_info(&Reply::Elapsed), Err(BrokerError::Unexpected)));
}

#[test]
fn any_status_from_200_to_299_is_success() {
    let t = trader();
    assert!(t.cancel_order(&answer(200, "")).is_ok());
    assert!(t.cancel_order(&answer(204, "")).is_ok());
    assert!(t.cancel_order(&answer(299, "")).is_ok());
    assert!(matches!(t.cancel_order(&answer(404, "")), Err(BrokerError::NotFound)));
    assert!(matches!(t.cancel_order(&answer(422, "late")), Err(BrokerError::ApiRejection { status: 422, .. })));
    assert!(matches!(
        t.cancel_order(&Reply::Unreachable { message: "x".to_string() }),
        Err(BrokerError::Network { .. })
    ));
}

#[test]
fn reads_a_position() {
    let body = r#"{"symbol":"KOLD","qty":"10","market_value":"1000","avg_entry_price":"95.5","unrealized_pl":"-45.25","unrealized_plpc":"-0.045"}"#;
    let position = trader().get_current_position(&answer(200, body)).unwrap().unwrap();
    assert_eq!(position.symbol, "KOLD");
    assert_eq!(position.qty.micros(), 10_000_000);
    assert_eq!(position.market_value.micros(), 1_000_000_000);
    assert_eq!(position.avg_entry_price.micros(), 95_500_000);
    assert_eq!(position.unrealized_pl.micros(), -45_250_000);
    assert_eq!(position.unrealized_plpc.micros(), -45_000);
}

#[test]
fn no_position_is_no_error() {
    let t = trader();
    assert!(t.get_current_position(&answer(404, r#"{"message":"position does not exist"}"#)).unwrap().is_none());
    assert!(t.get_current_position(&answer(404, "")).unwrap().is_none());
}

#[test]
fn a_position_that_cannot_be_had_is_an_error() {
    let t = trader();
    assert!(matches!(
        t.get_current_position(&Reply::Unreachable { message: "connection refused".to_string() }),
        Err(BrokerError::Network { .. })
    ));
    assert!(matches!(
        t.get_current_position(&Reply::Unreachable { message: "no route to 10.0.0.1:4040".to_string() }),
        Err(BrokerError::Network { .. })
    ));
    assert!(matches!(t.get_current_position(&answer(500, "")), Err(BrokerError::ApiRejection { status: 500, .. })));
    assert!(matches!(t.get_current_position(&answer(200, r#"{"symbol":"KOLD"}"#)), Err(BrokerError::Parse { .. })));
    assert!(matches!(t.get_current_position(&Reply::Elapsed), Err(BrokerError::Unexpected)));
}

#[test]
fn reads_all_positions() {
    let body = r#"[{"symbol":"KOLD","qty":"10","market_value":"1000","avg_entry_price":"95.5","unrealized_pl":"1","unrealized_plpc":"0.1"},{"symbol":"BOIL","qty":"-2","market_value":"-50","avg_entry_price":"25","unrealized_pl":"0","unrealized_plpc":"0"}]"#;
    let positions = trader().get_positions(&answer(200, body)).unwrap();
    assert_eq!(positions.len(), 2);
    assert_eq!(positions[0].symbol, "KOLD");
    assert_eq!(positions[1].symbol, "BOIL");
    assert_eq!(positions[1].qty.micros(), -2_000_000);
    assert!(trader().get_positions(&answer(200, "[]")).unwrap().is_empty());
}

#[test]
fn one_bad_position_spoils_the_list() {
    let body = r#"[{"symbol":"KOLD","qty":"10","market_value":"1000","avg_entry_price":"95.5","unrealized_pl":"1","unrealized_plpc":"0.1"},{"symbol":"BOIL"}]"#;
    assert!(matches!(trader().get_positions(&answer(200, body)), Err(BrokerError::Parse { .. })));
    assert!(matches!(trader().get_positions(&answer(200, "{}")), Err(BrokerError::Parse { .. })));
}

#[test]
fn reads_the_close_of_the_latest_bar() {
    let t = trader();
    let body = r#"{"symbol":"BOIL","bar":{"t":"2024-01-05T10:00:00Z","o":24.9,"h":25.6,"l":24.8,"c":25.25,"v":100}}"#;
    assert_eq!(t.get_latest_bar(&answer(200, body)).unwrap().micros(), 25_250_000);
    assert_eq!(t.get_latest_bar(&answer(200, r#"{"bar":{"c":40}}"#)).unwrap().micros(), 40_000_000);
}

#[test]
fn a_bar_without_a_close_cannot_be_read() {
    let t = trader();
    for body in [r#"{"bar":{"o":1}}"#, r#"{"bar":{"c":"25"}}"#, r#"{"bar":null}"#, r#"{"bars":{"c":1}}"#, "", "{"] {
        assert!(matches!(t.get_latest_bar(&answer(200, body)), Err(BrokerError::Parse { .. })), "{:?}", body);
    }
    assert!(matches!(t.get_latest_bar(&answer(404, "")), Err(BrokerError::NotFound)));
}

#[test]
fn a_quote_prefers_bid_then_ask_then_price() {
    let t = trader();
    let price = |body: &str| t.get_latest_quote(&answer(200, body)).map(|d| d.micros()).ok();
    assert_eq!(price(r#"{"quote":{"bp":10.5,"ap":11.5,"p":12.5}}"#), Some(10_500_000));
    assert_eq!(price(r#"{"quote":{"ap":11.5,"p":12.5}}"#), Some(11_500_000));
    assert_eq!(price(r#"{"quote":{"p":12.5}}"#), Some(12_500_000));
    assert_eq!(price(r#"{"quote":{"ap":11.5}}"#), Some(11_500_000));
    assert_eq!(price(r#"{"quote":{"ap":7}}"#), Some(7_000_000));
}

#[test]
fn the_first_price_of_a_quote_must_be_a_number() {
    let t = trader();
    for body in [
        r#"{"quote":{"bp":null,"ap":11.5}}"#,
        r#"{"quote":{"bp":"10.5","ap":11.5}}"#,
        r#"{"quote":{}}"#,
        r#"{"quote":[1]}"#,
        r#"{"ap":11.5}"#,
    ] {
        assert!(matches!(t.get_latest_quote(&answer(200, body)), Err(BrokerError::Parse { .. })), "{:?}", body);
    }
    assert!(matches!(t.get_latest_quote(&answer(403, "plan")), Err(BrokerError::ApiRejection { status: 403, .. })));
}

#[test]
fn prefers_the_first_that_is_there() {
    assert_eq!(preferred(Some(1), Some(2), Some(3)), Some(1));
    assert_eq!(preferred(None, Some(2), Some(3)), Some(2));
    assert_eq!(preferred(None, None, Some(3)), Some(3));
    assert_eq!(preferred::<i32>(None, None, None), None);
    assert_eq!(preferred(Some(1), None, None), Some(1));
}

#[test]
fn an_order_that_is_not_known_is_no_error() {
    let t = trader();
    assert!(t.poll_order_status(&answer(404, "")).unwrap().is_none());
    assert_eq!(t.poll_order_status(&answer(200, ORDER)).unwrap().unwrap().id, "o-1");
    assert!(matches!(t.poll_order_status(&answer(500, "")), Err(BrokerError::ApiRejection { status: 500, .. })));
    assert!(matches!(t.poll_order_status(&answer(200, "{}")), Err(BrokerError::Parse { .. })));
    assert!(matches!(
        t.poll_order_status(&Reply::Unreachable { message: "x".to_string() }),
        Err(BrokerError::Network { .. })
    ));
    assert!(matches!(t.submit_market_order(&answer(404, "")), Err(BrokerError::NotFound)));
}

#[test]
fn reads_an_order() {
    let order = trader().submit_market_order(&answer(200, ORDER)).unwrap();
    assert_eq!(order.id, "o-1");
    assert_eq!(order.symbol, "BOIL");
    assert_eq!(order.qty, "10");
    assert_eq!(order.side, "buy");
    assert_eq!(order.order_type, "market");
    assert_eq!(order.status, "accepted");
    assert_eq!(order.filled_qty, Some("0".to_string()));
    assert_eq!(order.filled_avg_price, None);
    assert_eq!(order.submitted_at, "2024-01-05T10:00:00Z");
}

#[test]
fn an_order_may_leave_out_what_is_not_known_yet() {
    let body = r#"{"symbol":"BOIL","qty":"10","side":"buy","type":"market","status":"new"}"#;
    let order = trader().submit_market_order(&answer(201, body)).unwrap();
    assert_eq!(order.id, "");
    assert_eq!(order.submitted_at, "");
    assert_eq!(order.filled_qty, None);
    assert_eq!(order.filled_avg_price, None);
}

#[test]
fn an_order_needs_its_fields_as_text() {
    let t = trader();
    for body in [
        r#"{"id":"o","qty":"10","side":"buy","type":"market","status":"new"}"#,
        r#"{"id":"o","symbol":"BOIL","side":"buy","type":"market","status":"new"}"#,
        r#"{"id":"o","symbol":"BOIL","qty":"10","type":"market","status":"new"}"#,
        r#"{"id":"o","symbol":"BOIL","qty":"10","side":"buy","status":"new"}"#,
        r#"{"id":"o","symbol":"BOIL","qty":"10","side":"buy","type":"market"}"#,
        r#"{"id":7,"symbol":"BOIL","qty":"10","side":"buy","type":"market","status":"new"}"#,
        r#"{"id":null,"symbol":"BOIL","qty":"10","side":"buy","type":"market","status":"new"}"#,
        r#"{"id":"o","symbol":"BOIL","qty":10,"side":"buy","type":"market","status":"new"}"#,
        r#"{"id":"o","symbol":"BOIL","qty":"10","side":"buy","type":"market","status":"new","filled_qty":3}"#,
        r#"{"id":"o","symbol":"BOIL","qty":"10","side":"buy","type":"market","status":"new","filled_avg_price":25.5}"#,
        r#"{"id":"o","symbol":"BOIL","qty":"10","side":"buy","type":"market","status":"new","submitted_at":null}"#,
    ] {
        assert!(matches!(t.submit_market_order(&answer(200, body)), Err(BrokerError::Parse { .. })), "{:?}", body);
    }
}

#[test]
fn reads_open_orders() {
    let body = format!("[{},{}]", ORDER, r#"{"id":"o-2","symbol":"BOIL","qty":"3","side":"sell","type":"market","status":"new"}"#);
    let orders = trader().get_open_orders(&answer(200, &body)).unwrap();
    assert_eq!(orders.len(), 2);
    assert_eq!(orders[0].id, "o-1");
    assert_eq!(orders[1].id, "o-2");
    assert_eq!(orders[1].side, "sell");
    assert!(trader().get_open_orders(&answer(200, "[]")).unwrap().is_empty());
}

#[test]
fn open_orders_that_cannot_be_had_are_an_error() {
    let t = trader();
    assert!(matches!(t.get_open_orders(&answer(500, "down")), Err(BrokerError::ApiRejection { status: 500, .. })));
    assert!(matches!(t.get_open_orders(&answer(200, r#"{"orders":[]}"#)), Err(BrokerError::Parse { .. })));
    assert!(matches!(t.get_open_orders(&answer(200, r#"[{"id":"o"}]"#)), Err(BrokerError::Parse { .. })));
}

#[test]
fn a_reply_is_read_as_the_call_asks() {
    let t = trader();
    let position = r#"{"symbol":"KOLD","qty":"10","market_value":"1000","avg_entry_price":"95.5","unrealized_pl":"1","unrealized_plpc":"0.1"}"#;
    let account = r#"{"status":"ACTIVE","buying_power":"1","equity":"2","cash":"3","portfolio_value":"4"}"#;
    assert!(matches!(t.interpret(&BrokerCall::GetAccount, &answer(200, account)), BrokerEvent::Account(Ok(_))));
    assert!(matches!(
        t.interpret(&BrokerCall::GetPosition { symbol: "KOLD".to_string() }, &answer(200, position)),
        BrokerEvent::Position(Ok(Some(_)))
    ));
    assert!(matches!(
        t.interpret(&BrokerCall::GetPosition { symbol: "KOLD".to_string() }, &answer(404, "")),
        BrokerEvent::Position(Ok(None))
    ));
    assert!(matches!(
        t.interpret(&BrokerCall::ListPositions, &answer(200, &format!("[{}]", position))),
        BrokerEvent::Positions(Ok(_))
    ));
    assert!(matches!(
        t.interpret(&BrokerCall::GetLatestBar { symbol: "KOLD".to_string() }, &answer(200, r#"{"bar":{"c":1.5}}"#)),
        BrokerEvent::Bar(Ok(_))
    ));
    assert!(matches!(
        t.interpret(&BrokerCall::GetLatestBar { symbol: "KOLD".to_string() }, &answer(404, "")),
        BrokerEvent::Bar(Err(BrokerError::NotFound))
    ));
    assert!(matches!(
        t.interpret(&BrokerCall::GetLatestQuote { symbol: "KOLD".to_string() }, &answer(200, r#"{"quote":{"ap":1.5}}"#)),
        BrokerEvent::Quote(Ok(_))
    ));
    assert!(matches!(
        t.interpret(&BrokerCall::ListOpenOrders { symbol: None }, &answer(200, "[]")),
        BrokerEvent::OpenOrders(Ok(_))
    ));
    assert!(matches!(
        t.interpret(&BrokerCall::CancelOrder { id: "o".to_string() }, &answer(204, "")),
        BrokerEvent::Cancelled(Ok(()))
    ));
    let ticket = OrderTicket { symbol: "BOIL".to_string(), qty: 1, side: Side::Buy };
    assert!(matches!(
        t.interpret(&BrokerCall::SubmitOrder { ticket: ticket.clone() }, &answer(200, ORDER)),
        BrokerEvent::Submitted(Ok(_))
    ));
    assert!(matches!(
        t.interpret(&BrokerCall::SubmitOrder { ticket }, &answer(403, "wash trade")),
        BrokerEvent::Submitted(Err(BrokerError::ApiRejection { status: 403, .. }))
    ));
    assert!(matches!(
        t.interpret(&BrokerCall::GetOrder { id: "o".to_string() }, &answer(200, ORDER)),
        BrokerEvent::Order(Ok(Some(_)))
    ));
    assert!(matches!(
        t.interpret(&BrokerCall::GetOrder { id: "o".to_string() }, &answer(404, "")),
        BrokerEvent::Order(Ok(None))
    ));
    assert!(matches!(t.interpret(&BrokerCall::Settle { seconds: 1 }, &Reply::Elapsed), BrokerEvent::Settled));
}

#[test]
fn an_error_can_be_copied() {
    let e = BrokerError::ApiRejection { status: 403, body: "wash trade".to_string() };
    match e.clone() {
        BrokerError::ApiRejection { status, body } => {
            assert_eq!(status, 403);
            assert_eq!(body, "wash trade");
        }
        other => panic!("{:?}", other),
    }
    assert!(matches!(BrokerError::NotFound.clone(), BrokerError::NotFound));
    assert!(matches!(BrokerError::Unexpected.clone(), BrokerError::Unexpected));
    assert!(matches!(BrokerError::Network { message: "m".to_string() }.clone(), BrokerError::Network { .. }));
    assert!(matches!(BrokerError::Auth { body: "b".to_string() }.clone(), BrokerError::Auth { .. }));
    assert!(matches!(BrokerError::Parse { body: "b".to_string() }.clone(), BrokerError::Parse { .. }));
}
