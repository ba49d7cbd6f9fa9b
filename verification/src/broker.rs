//! The brokerage's REST surface, without the network.
//!
//! Every operation on the brokerage is a [`BrokerCall`]. [`AlpacaTrader`]
//! maps a call to the HTTP request that performs it and maps the reply that
//! came back to a [`BrokerEvent`]. Sending the request is the caller's part;
//! it hands the library a [`Reply`].

use crate::config::TradingConfig;
use crate::decimal::Decimal;
use crate::json::{
    amount_member, elements_of, json_document, json_elements, json_member, json_view, json_views,
    member, number_amount, optional_text_member, parse_document, read_amount, read_number,
    read_optional_text, read_text, read_text_or_empty, text_member, text_member_or_empty, Json,
};
use crate::model::{AccountInfo, OpenOrder, OrderTicket, Position};
use serde_json::Value;
use vstd::prelude::*;
use vstd::string::*;

verus! {

/// The header that carries the key id.
pub const KEY_ID_HEADER: &'static str = "APCA-API-KEY-ID";

/// The header that carries the secret key.
pub const SECRET_KEY_HEADER: &'static str = "APCA-API-SECRET-KEY";

/// The type of every order that is submitted.
pub const ORDER_TYPE: &'static str = "market";

/// How long a submitted order stays in force.
pub const TIME_IN_FORCE: &'static str = "day";

/// Why an operation on the brokerage failed.
#[derive(Debug)]
pub enum BrokerError {
    /// No response came: the connection failed or timed out.
    Network { message: String },
    /// The brokerage rejected the credentials (status 401).
    Auth { body: String },
    /// The brokerage knows no such thing (status 404).
    NotFound,
    /// The brokerage answered with another status outside 200 to 299.
    ApiRejection { status: u16, body: String },
    /// The response body is not what the operation returns.
    Parse { body: String },
    /// The reply does not belong to the operation.
    Unexpected,
}

/// An operation on the brokerage.
#[derive(Debug)]
#[allow(inconsistent_fields)]
pub enum BrokerCall {
    GetAccount,
    GetPosition { symbol: String },
    ListPositions,
    GetLatestBar { symbol: String },
    GetLatestQuote { symbol: String },
    ListOpenOrders { symbol: Option<String> },
    CancelOrder { id: String },
    SubmitOrder { ticket: OrderTicket },
    GetOrder { id: String },
    /// No request: wait for the brokerage to settle.
    Settle { seconds: u64 },
}

/// The method of a request.
#[derive(Clone, Copy, Debug, PartialEq, Eq, Structural)]
pub enum HttpMethod {
    Get,
    Post,
    Delete,
}

/// The request that performs a call. The two credentials go into the headers
/// [`KEY_ID_HEADER`] and [`SECRET_KEY_HEADER`]; an order, where there is one,
/// is the JSON body.
#[derive(Debug)]
pub struct HttpRequest {
    pub method: HttpMethod,
    pub url: String,
    pub key_id: String,
    pub secret_key: String,
    pub order: Option<OrderTicket>,
}

/// What came back for a call.
#[derive(Debug)]
pub enum Reply {
    /// The request could not be sent or no response came.
    Unreachable { message: String },
    /// The response, whatever its status.
    Answer { status: u16, body: String },
    /// The wait of a [`BrokerCall::Settle`] is over.
    Elapsed,
}

/// What a reply means for the call it belongs to.
#[derive(Debug)]
pub enum BrokerEvent {
    Account(Result<AccountInfo, BrokerError>),
    Position(Result<Option<Position>, BrokerError>),
    Positions(Result<Vec<Position>, BrokerError>),
    Bar(Result<Decimal, BrokerError>),
    Quote(Result<Decimal, BrokerError>),
    OpenOrders(Result<Vec<OpenOrder>, BrokerError>),
    Cancelled(Result<(), BrokerError>),
    Submitted(Result<OpenOrder, BrokerError>),
    Order(Result<Option<OpenOrder>, BrokerError>),
    Settled,
}

impl Clone for BrokerError {
    fn clone(&self) -> (r: Self)
        ensures
            r == *self,
    {
        match self {
            BrokerError::Network { message } => BrokerError::Network { message: message.clone() },
            BrokerError::Auth { body } => BrokerError::Auth { body: body.clone() },
            BrokerError::NotFound => BrokerError::NotFound,
            BrokerError::ApiRejection { status, body } => BrokerError::ApiRejection {
                status: *status,
                body: body.clone(),
            },
            BrokerError::Parse { body } => BrokerError::Parse { body: body.clone() },
            BrokerError::Unexpected => BrokerError::Unexpected,
        }
    }
}

/// Whether a status says that the request succeeded.
pub open spec fn is_success(status: u16) -> bool {
    200 <= status < 300
}

/// The error that a reply stands for, if it stands for one: no response, or
/// a response with a status outside 200 to 299.
pub open spec fn failure_of(reply: Reply) -> Option<BrokerError> {
    match reply {
        Reply::Unreachable { message } => Some(BrokerError::Network { message }),
        Reply::Elapsed => Some(BrokerError::Unexpected),
        Reply::Answer { status, body } => if is_success(status) {
            None
        } else if status == 401 {
            Some(BrokerError::Auth { body })
        } else if status == 404 {
            Some(BrokerError::NotFound)
        } else {
            Some(BrokerError::ApiRejection { status, body })
        },
    }
}

/// The JSON document in the body of a response.
pub open spec fn document_of(reply: Reply) -> Option<Json> {
    match reply {
        Reply::Answer { status, body } => json_document(body@),
        _ => None,
    }
}

/// The error of a response whose body cannot be read.
pub open spec fn unreadable(reply: Reply) -> BrokerError {
    match reply {
        Reply::Answer { status, body } => BrokerError::Parse { body },
        _ => BrokerError::Unexpected,
    }
}

/// The account that a document describes: a `status` text and four amounts,
/// each written as text.
pub open spec fn account_in(doc: Json) -> Option<AccountInfo> {
    if text_member(doc, "status"@) is Some && amount_member(doc, "buying_power"@) is Some
        && amount_member(doc, "equity"@) is Some && amount_member(doc, "cash"@) is Some
        && amount_member(doc, "portfolio_value"@) is Some {
        Some(
            AccountInfo {
                equity: Decimal::of(amount_member(doc, "equity"@)->0),
                buying_power: Decimal::of(amount_member(doc, "buying_power"@)->0),
                cash: Decimal::of(amount_member(doc, "cash"@)->0),
                portfolio_value: Decimal::of(amount_member(doc, "portfolio_value"@)->0),
            },
        )
    } else {
        None
    }
}

/// Whether a document describes a position: a `symbol` text and five
/// amounts, each written as text.
pub open spec fn position_readable(doc: Json) -> bool {
    &&& text_member(doc, "symbol"@) is Some
    &&& amount_member(doc, "qty"@) is Some
    &&& amount_member(doc, "market_value"@) is Some
    &&& amount_member(doc, "avg_entry_price"@) is Some
    &&& amount_member(doc, "unrealized_pl"@) is Some
    &&& amount_member(doc, "unrealized_plpc"@) is Some
}

/// `position` is the position that the document describes.
pub open spec fn position_reads(doc: Json, position: Position) -> bool {
    &&& text_member(doc, "symbol"@) == Some(position.symbol@)
    &&& position.qty == Decimal::of(amount_member(doc, "qty"@)->0)
    &&& position.market_value == Decimal::of(amount_member(doc, "market_value"@)->0)
    &&& position.avg_entry_price == Decimal::of(amount_member(doc, "avg_entry_price"@)->0)
    &&& position.unrealized_pl == Decimal::of(amount_member(doc, "unrealized_pl"@)->0)
    &&& position.unrealized_plpc == Decimal::of(amount_member(doc, "unrealized_plpc"@)->0)
}

/// Whether a document describes an order. `id` and `submitted_at` may be
/// left out; `filled_qty` and `filled_avg_price` may be left out or null;
/// all that is there is text.
pub open spec fn order_readable(doc: Json) -> bool {
    &&& text_member_or_empty(doc, "id"@) is Some
    &&& text_member(doc, "symbol"@) is Some
    &&& text_member(doc, "qty"@) is Some
    &&& text_member(doc, "side"@) is Some
    &&& text_member(doc, "type"@) is Some
    &&& text_member(doc, "status"@) is Some
    &&& optional_text_member(doc, "filled_qty"@) is Some
    &&& optional_text_member(doc, "filled_avg_price"@) is Some
    &&& text_member_or_empty(doc, "submitted_at"@) is Some
}

/// The text of an optional field.
pub open spec fn optional_view(text: Option<String>) -> Option<Seq<char>> {
    match text {
        Some(s) => Some(s@),
        None => None,
    }
}

/// `order` is the order that the document describes.
pub open spec fn order_reads(doc: Json, order: OpenOrder) -> bool {
    &&& text_member_or_empty(doc, "id"@) == Some(order.id@)
    &&& text_member(doc, "symbol"@) == Some(order.symbol@)
    &&& text_member(doc, "qty"@) == Some(order.qty@)
    &&& text_member(doc, "side"@) == Some(order.side@)
    &&& text_member(doc, "type"@) == Some(order.order_type@)
    &&& text_member(doc, "status"@) == Some(order.status@)
    &&& optional_text_member(doc, "filled_qty"@) == Some(optional_view(order.filled_qty))
    &&& optional_text_member(doc, "filled_avg_price"@) == Some(
        optional_view(order.filled_avg_price),
    )
    &&& text_member_or_empty(doc, "submitted_at"@) == Some(order.submitted_at@)
}

/// Whether a document is a list of orders.
pub open spec fn orders_readable(doc: Json) -> bool {
    &&& json_elements(doc) is Some
    &&& forall|i: int|
        0 <= i < json_elements(doc)->0.len() ==> order_readable(#[trigger] json_elements(doc)->0[i])
}

/// `orders` are the orders that the document lists, in its order.
pub open spec fn orders_read(doc: Json, orders: Seq<OpenOrder>) -> bool {
    &&& orders.len() == json_elements(doc)->0.len()
    &&& forall|i: int|
        0 <= i < orders.len() ==> order_reads(json_elements(doc)->0[i], #[trigger] orders[i])
}

/// Whether a document is a list of positions.
pub open spec fn positions_readable(doc: Json) -> bool {
    &&& json_elements(doc) is Some
    &&& forall|i: int|
        0 <= i < json_elements(doc)->0.len() ==> position_readable(
            #[trigger] json_elements(doc)->0[i],
        )
}

/// `positions` are the positions that the document lists, in its order.
pub open spec fn positions_read(doc: Json, positions: Seq<Position>) -> bool {
    &&& positions.len() == json_elements(doc)->0.len()
    &&& forall|i: int|
        0 <= i < positions.len() ==> position_reads(
            json_elements(doc)->0[i],
            #[trigger] positions[i],
        )
}

/// The closing price of the latest bar: the number `c` of the member `bar`.
pub open spec fn bar_close(doc: Json) -> Option<int> {
    match json_member(doc, "bar"@) {
        Some(bar) => match json_member(bar, "c"@) {
            Some(close) => number_amount(close),
            None => None,
        },
        None => None,
    }
}

/// The first of the three that is there.
pub open spec fn first_present<T>(first: Option<T>, second: Option<T>, third: Option<T>) -> Option<
    T,
> {
    if first is Some {
        first
    } else if second is Some {
        second
    } else {
        third
    }
}

/// The price of the latest quote: of the members `bp` (bid), `ap` (ask) and
/// `p` of the member `quote`, the first that is there, which must be a
/// number.
pub open spec fn quote_price(doc: Json) -> Option<int> {
    match json_member(doc, "quote"@) {
        Some(quote) => match first_present(
            json_member(quote, "bp"@),
            json_member(quote, "ap"@),
            json_member(quote, "p"@),
        ) {
            Some(field) => number_amount(field),
            None => None,
        },
        None => None,
    }
}

/// What a reply to `GetAccount` means.
pub open spec fn account_result(reply: Reply, r: Result<AccountInfo, BrokerError>) -> bool {
    match failure_of(reply) {
        Some(e) => r == Err::<AccountInfo, BrokerError>(e),
        None => match document_of(reply) {
            Some(doc) => match account_in(doc) {
                Some(account) => r == Ok::<AccountInfo, BrokerError>(account),
                None => r == Err::<AccountInfo, BrokerError>(unreadable(reply)),
            },
            None => r == Err::<AccountInfo, BrokerError>(unreadable(reply)),
        },
    }
}

/// Whether a reply says that the brokerage knows no such thing: a response
/// with status 404.
pub open spec fn says_not_found(reply: Reply) -> bool {
    reply matches Reply::Answer { status, body } && status == 404
}

/// What a reply to `GetPosition` means. No position is no error.
pub open spec fn position_result(reply: Reply, r: Result<Option<Position>, BrokerError>) -> bool {
    if says_not_found(reply) {
        r == Ok::<Option<Position>, BrokerError>(None)
    } else {
        match failure_of(reply) {
            Some(e) => r == Err::<Option<Position>, BrokerError>(e),
            None => match document_of(reply) {
                Some(doc) => if position_readable(doc) {
                    r matches Ok(Some(position)) && position_reads(doc, position)
                } else {
                    r == Err::<Option<Position>, BrokerError>(unreadable(reply))
                },
                None => r == Err::<Option<Position>, BrokerError>(unreadable(reply)),
            },
        }
    }
}

/// What a reply to `ListPositions` means.
pub open spec fn positions_result(reply: Reply, r: Result<Vec<Position>, BrokerError>) -> bool {
    match failure_of(reply) {
        Some(e) => r == Err::<Vec<Position>, BrokerError>(e),
        None => match document_of(reply) {
            Some(doc) => if positions_readable(doc) {
                r matches Ok(positions) && positions_read(doc, positions@)
            } else {
                r == Err::<Vec<Position>, BrokerError>(unreadable(reply))
            },
            None => r == Err::<Vec<Position>, BrokerError>(unreadable(reply)),
        },
    }
}

/// What a reply to `GetLatestBar` or `GetLatestQuote` means, where `price`
/// is what the operation reads from the document.
pub open spec fn price_result(
    reply: Reply,
    price: spec_fn(Json) -> Option<int>,
    r: Result<Decimal, BrokerError>,
) -> bool {
    match failure_of(reply) {
        Some(e) => r == Err::<Decimal, BrokerError>(e),
        None => match document_of(reply) {
            Some(doc) => match price(doc) {
                Some(m) => r == Ok::<Decimal, BrokerError>(Decimal::of(m)),
                None => r == Err::<Decimal, BrokerError>(unreadable(reply)),
            },
            None => r == Err::<Decimal, BrokerError>(unreadable(reply)),
        },
    }
}

/// What a reply to `ListOpenOrders` means.
pub open spec fn orders_result(reply: Reply, r: Result<Vec<OpenOrder>, BrokerError>) -> bool {
    match failure_of(reply) {
        Some(e) => r == Err::<Vec<OpenOrder>, BrokerError>(e),
        None => match document_of(reply) {
            Some(doc) => if orders_readable(doc) {
                r matches Ok(orders) && orders_read(doc, orders@)
            } else {
                r == Err::<Vec<OpenOrder>, BrokerError>(unreadable(reply))
            },
            None => r == Err::<Vec<OpenOrder>, BrokerError>(unreadable(reply)),
        },
    }
}

/// What a reply to `CancelOrder` means: any status from 200 to 299 is
/// success.
pub open spec fn cancel_result(reply: Reply, r: Result<(), BrokerError>) -> bool {
    match failure_of(reply) {
        Some(e) => r == Err::<(), BrokerError>(e),
        None => r == Ok::<(), BrokerError>(()),
    }
}

/// What a reply to `GetOrder` means. An order that the brokerage does not
/// know is no error.
pub open spec fn order_status_result(
    reply: Reply,
    r: Result<Option<OpenOrder>, BrokerError>,
) -> bool {
    if says_not_found(reply) {
        r == Ok::<Option<OpenOrder>, BrokerError>(None)
    } else {
        match failure_of(reply) {
            Some(e) => r == Err::<Option<OpenOrder>, BrokerError>(e),
            None => match document_of(reply) {
                Some(doc) => if order_readable(doc) {
                    r matches Ok(Some(order)) && order_reads(doc, order)
                } else {
                    r == Err::<Option<OpenOrder>, BrokerError>(unreadable(reply))
                },
                None => r == Err::<Option<OpenOrder>, BrokerError>(unreadable(reply)),
            },
        }
    }
}

/// What a reply to `SubmitOrder` means.
pub open spec fn order_result(reply: Reply, r: Result<OpenOrder, BrokerError>) -> bool {
    match failure_of(reply) {
        Some(e) => r == Err::<OpenOrder, BrokerError>(e),
        None => match document_of(reply) {
            Some(doc) => if order_readable(doc) {
                r matches Ok(order) && order_reads(doc, order)
            } else {
                r == Err::<OpenOrder, BrokerError>(unreadable(reply))
            },
            None => r == Err::<OpenOrder, BrokerError>(unreadable(reply)),
        },
    }
}

/// `event` is what `reply` means for `call`.
pub open spec fn interprets(call: BrokerCall, reply: Reply, event: BrokerEvent) -> bool {
    match call {
        BrokerCall::GetAccount => event matches BrokerEvent::Account(r) && account_result(reply, r),
        BrokerCall::GetPosition { symbol } => event matches BrokerEvent::Position(r)
            && position_result(reply, r),
        BrokerCall::ListPositions => event matches BrokerEvent::Positions(r) && positions_result(
            reply,
            r,
        ),
        BrokerCall::GetLatestBar { symbol } => event matches BrokerEvent::Bar(r) && price_result(
            reply,
            |doc: Json| bar_close(doc),
            r,
        ),
        BrokerCall::GetLatestQuote { symbol } => event matches BrokerEvent::Quote(r)
            && price_result(reply, |doc: Json| quote_price(doc), r),
        BrokerCall::ListOpenOrders { symbol } => event matches BrokerEvent::OpenOrders(r)
            && orders_result(reply, r),
        BrokerCall::CancelOrder { id } => event matches BrokerEvent::Cancelled(r) && cancel_result(
            reply,
            r,
        ),
        BrokerCall::SubmitOrder { ticket } => event matches BrokerEvent::Submitted(r)
            && order_result(reply, r),
        BrokerCall::GetOrder { id } => event matches BrokerEvent::Order(r) && order_status_result(
            reply,
            r,
        ),
        BrokerCall::Settle { seconds } => event is Settled,
    }
}

/// The path and query of the request that performs a call.
pub open spec fn path_of(call: BrokerCall) -> Seq<char> {
    match call {
        BrokerCall::GetAccount => "/v2/account"@,
        BrokerCall::GetPosition { symbol } => "/v2/positions/"@ + symbol@,
        BrokerCall::ListPositions => "/v2/positions"@,
        BrokerCall::GetLatestBar { symbol } => "/v2/stocks/"@ + symbol@ + "/bars/latest"@,
        BrokerCall::GetLatestQuote { symbol } => "/v2/stocks/"@ + symbol@ + "/quotes/latest"@,
        BrokerCall::ListOpenOrders { symbol: None } => "/v2/orders?status=open"@,
        BrokerCall::ListOpenOrders { symbol: Some(s) } => "/v2/orders?status=open&symbols="@ + s@,
        BrokerCall::CancelOrder { id } => "/v2/orders/"@ + id@,
        BrokerCall::SubmitOrder { ticket } => "/v2/orders"@,
        BrokerCall::GetOrder { id } => "/v2/orders/"@ + id@,
        BrokerCall::Settle { seconds } => Seq::<char>::empty(),
    }
}

/// The method of the request that performs a call.
pub open spec fn method_of(call: BrokerCall) -> HttpMethod {
    match call {
        BrokerCall::CancelOrder { id } => HttpMethod::Delete,
        BrokerCall::SubmitOrder { ticket } => HttpMethod::Post,
        _ => HttpMethod::Get,
    }
}

/// The order that the request carries.
pub open spec fn order_of(call: BrokerCall) -> Option<OrderTicket> {
    match call {
        BrokerCall::SubmitOrder { ticket } => Some(ticket),
        _ => None,
    }
}

pub(crate) fn failure(reply: &Reply) -> (r: Option<BrokerError>)
    ensures
        r == failure_of(*reply),
{
    match reply {
        Reply::Unreachable { message } => Some(BrokerError::Network { message: message.clone() }),
        Reply::Elapsed => Some(BrokerError::Unexpected),
        Reply::Answer { status, body } => {
            if 200 <= *status && *status < 300 {
                None
            } else if *status == 401 {
                Some(BrokerError::Auth { body: body.clone() })
            } else if *status == 404 {
                Some(BrokerError::NotFound)
            } else {
                Some(BrokerError::ApiRejection { status: *status, body: body.clone() })
            }
        },
    }
}

fn not_found(reply: &Reply) -> (r: bool)
    ensures
        r == says_not_found(*reply),
{
    match reply {
        Reply::Answer { status, body } => *status == 404,
        _ => false,
    }
}

pub(crate) fn document(reply: &Reply) -> (r: Option<Value>)
    ensures
        r matches Some(value) ==> document_of(*reply) == Some(json_view(value)),
        r is None ==> document_of(*reply) is None,
{
    match reply {
        Reply::Answer { status, body } => parse_document(body.as_str()),
        _ => None,
    }
}

pub(crate) fn unreadable_body(reply: &Reply) -> (r: BrokerError)
    ensures
        r == unreadable(*reply),
{
    match reply {
        Reply::Answer { status, body } => BrokerError::Parse { body: body.clone() },
        _ => BrokerError::Unexpected,
    }
}

fn order_in(reply: &Reply) -> (r: Result<OpenOrder, BrokerError>)
    ensures
        order_result(*reply, r),
{
    if let Some(e) = failure(reply) {
        return Err(e);
    }
    match document(reply) {
        Some(doc) => match read_order(&doc) {
            Some(order) => Ok(order),
            None => Err(unreadable_body(reply)),
        },
        None => Err(unreadable_body(reply)),
    }
}

/// Reads the account that a document describes.
pub fn read_account(doc: &Value) -> (r: Option<AccountInfo>)
    ensures
        r == account_in(json_view(*doc)),
{
    if read_text(doc, "status").is_none() {
        return None;
    }
    let buying_power = read_amount(doc, "buying_power");
    let equity = read_amount(doc, "equity");
    let cash = read_amount(doc, "cash");
    let portfolio_value = read_amount(doc, "portfolio_value");
    match (equity, buying_power, cash, portfolio_value) {
        (Some(equity), Some(buying_power), Some(cash), Some(portfolio_value)) => Some(
            AccountInfo { equity, buying_power, cash, portfolio_value },
        ),
        _ => None,
    }
}

/// Reads the position that a document describes.
pub fn read_position(doc: &Value) -> (r: Option<Position>)
    ensures
        r is Some <==> position_readable(json_view(*doc)),
        r matches Some(position) ==> position_reads(json_view(*doc), position),
{
    let symbol = read_text(doc, "symbol");
    let qty = read_amount(doc, "qty");
    let market_value = read_amount(doc, "market_value");
    let avg_entry_price = read_amount(doc, "avg_entry_price");
    let unrealized_pl = read_amount(doc, "unrealized_pl");
    let unrealized_plpc = read_amount(doc, "unrealized_plpc");
    match (symbol, qty, market_value, avg_entry_price, unrealized_pl, unrealized_plpc) {
        (
            Some(symbol),
            Some(qty),
            Some(market_value),
            Some(avg_entry_price),
            Some(unrealized_pl),
            Some(unrealized_plpc),
        ) => Some(
            Position { symbol, qty, market_value, avg_entry_price, unrealized_pl, unrealized_plpc },
        ),
        _ => None,
    }
}

/// Reads the order that a document describes.
pub fn read_order(doc: &Value) -> (r: Option<OpenOrder>)
    ensures
        r is Some <==> order_readable(json_view(*doc)),
        r matches Some(order) ==> order_reads(json_view(*doc), order),
{
    let id = read_text_or_empty(doc, "id");
    let symbol = read_text(doc, "symbol");
    let qty = read_text(doc, "qty");
    let side = read_text(doc, "side");
    let order_type = read_text(doc, "type");
    let status = read_text(doc, "status");
    let filled_qty = read_optional_text(doc, "filled_qty");
    let filled_avg_price = read_optional_text(doc, "filled_avg_price");
    let submitted_at = read_text_or_empty(doc, "submitted_at");
    match (id, symbol, qty, side, order_type, status, filled_qty, filled_avg_price, submitted_at) {
        (
            Some(id),
            Some(symbol),
            Some(qty),
            Some(side),
            Some(order_type),
            Some(status),
            Some(filled_qty),
            Some(filled_avg_price),
            Some(submitted_at),
        ) => Some(
            OpenOrder {
                id,
                symbol,
                qty,
                side,
                order_type,
                status,
                filled_qty,
                filled_avg_price,
                submitted_at,
            },
        ),
        _ => None,
    }
}

/// Reads the orders that a document lists.
pub fn read_orders(doc: &Value) -> (r: Option<Vec<OpenOrder>>)
    ensures
        r is Some <==> orders_readable(json_view(*doc)),
        r matches Some(orders) ==> orders_read(json_view(*doc), orders@),
{
    let items = match elements_of(doc) {
        Some(items) => items,
        None => {
            return None;
        },
    };
    let mut orders: Vec<OpenOrder> = Vec::new();
    let mut i: usize = 0;
    while i < items.len()
        invariant
            json_elements(json_view(*doc)) == Some(json_views(items@)),
            i <= items.len(),
            orders@.len() == i,
            forall|j: int| 0 <= j < i ==> order_readable(json_view(#[trigger] items@[j])),
            forall|j: int| 0 <= j < i ==> order_reads(json_view(items@[j]), #[trigger] orders@[j]),
        decreases items.len() - i,
    {
        match read_order(&items[i]) {
            Some(order) => {
                orders.push(order);
            },
            None => {
                assert(!order_readable(json_elements(json_view(*doc))->0[i as int]));
                return None;
            },
        }
        i = i + 1;
    }
    Some(orders)
}

/// Reads the positions that a document lists.
pub fn read_positions(doc: &Value) -> (r: Option<Vec<Position>>)
    ensures
        r is Some <==> positions_readable(json_view(*doc)),
        r matches Some(positions) ==> positions_read(json_view(*doc), positions@),
{
    let items = match elements_of(doc) {
        Some(items) => items,
        None => {
            return None;
        },
    };
    let mut positions: Vec<Position> = Vec::new();
    let mut i: usize = 0;
    while i < items.len()
        invariant
            json_elements(json_view(*doc)) == Some(json_views(items@)),
            i <= items.len(),
            positions@.len() == i,
            forall|j: int| 0 <= j < i ==> position_readable(json_view(#[trigger] items@[j])),
            forall|j: int|
                0 <= j < i ==> position_reads(json_view(items@[j]), #[trigger] positions@[j]),
        decreases items.len() - i,
    {
        match read_position(&items[i]) {
            Some(position) => {
                positions.push(position);
            },
            None => {
                assert(!position_readable(json_elements(json_view(*doc))->0[i as int]));
                return None;
            },
        }
        i = i + 1;
    }
    Some(positions)
}

/// Picks the first of the three that is there.
pub fn preferred<T>(first: Option<T>, second: Option<T>, third: Option<T>) -> (r: Option<T>)
    ensures
        r == first_present(first, second, third),
{
    if first.is_some() {
        first
    } else if second.is_some() {
        second
    } else {
        third
    }
}

/// Reads the closing price of the latest bar.
pub fn read_bar_close(doc: &Value) -> (r: Option<Decimal>)
    ensures
        r is Some <==> bar_close(json_view(*doc)) is Some,
        r matches Some(price) ==> price == Decimal::of(bar_close(json_view(*doc))->0),
{
    match member(doc, "bar") {
        Some(bar) => match member(bar, "c") {
            Some(close) => read_number(close),
            None => None,
        },
        None => None,
    }
}

/// Reads the price of the latest quote.
pub fn read_quote_price(doc: &Value) -> (r: Option<Decimal>)
    ensures
        r is Some <==> quote_price(json_view(*doc)) is Some,
        r matches Some(price) ==> price == Decimal::of(quote_price(json_view(*doc))->0),
{
    match member(doc, "quote") {
        Some(quote) => {
            let bid = member(quote, "bp");
            let ask = member(quote, "ap");
            let last = member(quote, "p");
            let ghost fields = first_present(
                json_member(json_view(*quote), "bp"@),
                json_member(json_view(*quote), "ap"@),
                json_member(json_view(*quote), "p"@),
            );
            match preferred(bid, ask, last) {
                Some(field) => {
                    assert(fields == Some(json_view(*field)));
                    read_number(field)
                },
                None => {
                    assert(fields is None);
                    None
                },
            }
        },
        None => None,
    }
}

/// The brokerage client: the configuration and the base of every URL.
pub struct AlpacaTrader {
    config: TradingConfig,
    base_url: String,
}

impl AlpacaTrader {
    /// The configuration that the client was made with.
    pub closed spec fn config(&self) -> TradingConfig {
        self.config
    }

    /// The base of every URL that the client asks for.
    pub closed spec fn base_url(&self) -> Seq<char> {
        self.base_url@
    }

    /// The configuration that the client was made with.
    pub fn settings(&self) -> (r: &TradingConfig)
        ensures
            *r == self.config(),
    {
        &self.config
    }

    /// A client for the brokerage at the configuration's base URL.
    pub fn new(config: TradingConfig) -> (r: Self)
        ensures
            r.config() == config,
            r.base_url() == config.alpaca_base_url@,
    {
        let base_url = config.alpaca_base_url.clone();
        Self { config, base_url }
    }

    /// The request that performs `call`: the method and the URL that the
    /// brokerage's REST surface has for it, with both credentials.
    /// [`BrokerCall::Settle`] has no request.
    pub fn request(&self, call: &BrokerCall) -> (r: Option<HttpRequest>)
        ensures
            r is None <==> *call is Settle,
            r matches Some(request) ==> {
                &&& request.method == method_of(*call)
                &&& request.url@ == self.base_url() + path_of(*call)
                &&& request.key_id == self.config().alpaca_api_key
                &&& request.secret_key == self.config().alpaca_secret_key
                &&& request.order == order_of(*call)
            },
    {
        let base = self.base_url.clone();
        let (method, url, order) = match call {
            BrokerCall::GetAccount => (HttpMethod::Get, base.concat("/v2/account"), None),
            BrokerCall::GetPosition { symbol } => (
                HttpMethod::Get,
                base.concat("/v2/positions/").concat(symbol.as_str()),
                None,
            ),
            BrokerCall::ListPositions => (HttpMethod::Get, base.concat("/v2/positions"), None),
            BrokerCall::GetLatestBar { symbol } => (
                HttpMethod::Get,
                base.concat("/v2/stocks/").concat(symbol.as_str()).concat("/bars/latest"),
                None,
            ),
            BrokerCall::GetLatestQuote { symbol } => (
                HttpMethod::Get,
                base.concat("/v2/stocks/").concat(symbol.as_str()).concat("/quotes/latest"),
                None,
            ),
            BrokerCall::ListOpenOrders { symbol: None } => (
                HttpMethod::Get,
                base.concat("/v2/orders?status=open"),
                None,
            ),
            BrokerCall::ListOpenOrders { symbol: Some(s) } => (
                HttpMethod::Get,
                base.concat("/v2/orders?status=open&symbols=").concat(s.as_str()),
                None,
            ),
            BrokerCall::CancelOrder { id } => (
                HttpMethod::Delete,
                base.concat("/v2/orders/").concat(id.as_str()),
                None,
            ),
            BrokerCall::SubmitOrder { ticket } => (
                HttpMethod::Post,
                base.concat("/v2/orders"),
                Some(ticket.clone()),
            ),
            BrokerCall::GetOrder { id } => (
                HttpMethod::Get,
                base.concat("/v2/orders/").concat(id.as_str()),
                None,
            ),
            BrokerCall::Settle { seconds } => {
                return None;
            },
        };
        assert(url@ =~= self.base_url() + path_of(*call));
        Some(
            HttpRequest {
                method,
                url,
                key_id: self.config.alpaca_api_key.clone(),
                secret_key: self.config.alpaca_secret_key.clone(),
                order,
            },
        )
    }

    /// Reads the account from the reply to `GetAccount`.
    pub fn get_account_info(&self, reply: &Reply) -> (r: Result<AccountInfo, BrokerError>)
        ensures
            account_result(*reply, r),
    {
        if let Some(e) = failure(reply) {
            return Err(e);
        }
        match document(reply) {
            Some(doc) => match read_account(&doc) {
                Some(account) => Ok(account),
                None => Err(unreadable_body(reply)),
            },
            None => Err(unreadable_body(reply)),
        }
    }

    /// Reads the position from the reply to `GetPosition`. Where the
    /// brokerage knows no position in the symbol, there is none.
    pub fn get_current_position(&self, reply: &Reply) -> (r: Result<
        Option<Position>,
        BrokerError,
    >)
        ensures
            position_result(*reply, r),
    {
        if not_found(reply) {
            return Ok(None);
        }
        if let Some(e) = failure(reply) {
            return Err(e);
        }
        match document(reply) {
            Some(doc) => match read_position(&doc) {
                Some(position) => Ok(Some(position)),
                None => Err(unreadable_body(reply)),
            },
            None => Err(unreadable_body(reply)),
        }
    }

    /// Reads all positions from the reply to `ListPositions`.
    pub fn get_positions(&self, reply: &Reply) -> (r: Result<Vec<Position>, BrokerError>)
        ensures
            positions_result(*reply, r),
    {
        if let Some(e) = failure(reply) {
            return Err(e);
        }
        match document(reply) {
            Some(doc) => match read_positions(&doc) {
                Some(positions) => Ok(positions),
                None => Err(unreadable_body(reply)),
            },
            None => Err(unreadable_body(reply)),
        }
    }

    /// Reads the closing price from the reply to `GetLatestBar`.
    pub fn get_latest_bar(&self, reply: &Reply) -> (r: Result<Decimal, BrokerError>)
        ensures
            price_result(*reply, |doc: Json| bar_close(doc), r),
    {
        if let Some(e) = failure(reply) {
            return Err(e);
        }
        match document(reply) {
            Some(doc) => match read_bar_close(&doc) {
                Some(price) => Ok(price),
                None => Err(unreadable_body(reply)),
            },
            None => Err(unreadable_body(reply)),
        }
    }

    /// Reads the price from the reply to `GetLatestQuote`: the bid where
    /// there is one, else the ask, else the plain price.
    pub fn get_latest_quote(&self, reply: &Reply) -> (r: Result<Decimal, BrokerError>)
        ensures
            price_result(*reply, |doc: Json| quote_price(doc), r),
    {
        if let Some(e) = failure(reply) {
            return Err(e);
        }
        match document(reply) {
            Some(doc) => match read_quote_price(&doc) {
                Some(price) => Ok(price),
                None => Err(unreadable_body(reply)),
            },
            None => Err(unreadable_body(reply)),
        }
    }

    /// Reads the open orders from the reply to `ListOpenOrders`.
    pub fn get_open_orders(&self, reply: &Reply) -> (r: Result<Vec<OpenOrder>, BrokerError>)
        ensures
            orders_result(*reply, r),
    {
        if let Some(e) = failure(reply) {
            return Err(e);
        }
        match document(reply) {
            Some(doc) => match read_orders(&doc) {
                Some(orders) => Ok(orders),
                None => Err(unreadable_body(reply)),
            },
            None => Err(unreadable_body(reply)),
        }
    }

    /// Reads the reply to `CancelOrder`.
    pub fn cancel_order(&self, reply: &Reply) -> (r: Result<(), BrokerError>)
        ensures
            cancel_result(*reply, r),
    {
        match failure(reply) {
            Some(e) => Err(e),
            None => Ok(()),
        }
    }

    /// Reads the order's status from the reply to `GetOrder`. Where the
    /// brokerage does not know the order, there is none.
    pub fn poll_order_status(&self, reply: &Reply) -> (r: Result<Option<OpenOrder>, BrokerError>)
        ensures
            order_status_result(*reply, r),
    {
        if not_found(reply) {
            return Ok(None);
        }
        match order_in(reply) {
            Ok(order) => Ok(Some(order)),
            Err(e) => Err(e),
        }
    }

    /// Reads the accepted order from the reply to `SubmitOrder`.
    pub fn submit_market_order(&self, reply: &Reply) -> (r: Result<OpenOrder, BrokerError>)
        ensures
            order_result(*reply, r),
    {
        order_in(reply)
    }

    /// Says what `reply` means for `call`.
    pub fn interpret(&self, call: &BrokerCall, reply: &Reply) -> (event: BrokerEvent)
        ensures
            interprets(*call, *reply, event),
    {
        match call {
            BrokerCall::GetAccount => BrokerEvent::Account(self.get_account_info(reply)),
            BrokerCall::GetPosition { symbol } => BrokerEvent::Position(
                self.get_current_position(reply),
            ),
            BrokerCall::ListPositions => BrokerEvent::Positions(self.get_positions(reply)),
            BrokerCall::GetLatestBar { symbol } => BrokerEvent::Bar(self.get_latest_bar(reply)),
            BrokerCall::GetLatestQuote { symbol } => BrokerEvent::Quote(
                self.get_latest_quote(reply),
            ),
            BrokerCall::ListOpenOrders { symbol } => BrokerEvent::OpenOrders(
                self.get_open_orders(reply),
            ),
            BrokerCall::CancelOrder { id } => BrokerEvent::Cancelled(self.cancel_order(reply)),
            BrokerCall::SubmitOrder { ticket } => BrokerEvent::Submitted(
                self.submit_market_order(reply),
            ),
            BrokerCall::GetOrder { id } => BrokerEvent::Order(self.poll_order_status(reply)),
            BrokerCall::Settle { seconds } => BrokerEvent::Settled,
        }
    }
}

} // verus!
