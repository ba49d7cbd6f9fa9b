//! The inventory signal: gas in storage now against the mean of the year.

use crate::broker::{document_of, failure_of, unreadable, Reply};
use crate::calendar::{
    calendar_date, calendar_month, month_of, parse_rfc3339, rfc3339_instant, write_date,
};
use crate::config::TradingConfig;
use crate::decimal::{clamp, divide, lemma_mean_bound, trunc_div, Decimal, LIMIT, SCALE};
use crate::feed::{DataRequest, FeedError, QueryParam};
use crate::json::{
    amount_of_text, elements_of, json_elements, json_member, json_number, json_string, json_view,
    json_views, member, number_amount, number_of, read_text, string_of, text_member, Json,
};
use serde_json::Value;
use vstd::prelude::*;
use vstd::string::*;

verus! {

/// The seconds of 365 days.
pub const YEAR_SECS: i64 = 31_536_000;

/// The seconds of a week.
pub const WEEK_SECS: i64 = 604_800;

/// The gas in storage at one instant.
#[derive(Clone, Copy, Debug, PartialEq, Eq, Structural)]
pub struct StoragePoint {
    /// Seconds since the epoch.
    pub secs: i64,
    /// Nanoseconds past the second.
    pub nanos: u32,
    /// Billion cubic feet in storage.
    pub value: Decimal,
}

/// Whether the instant `(a_secs, a_nanos)` is not after `(b_secs, b_nanos)`.
pub open spec fn not_after(a_secs: int, a_nanos: int, b_secs: int, b_nanos: int) -> bool {
    a_secs < b_secs || (a_secs == b_secs && a_nanos <= b_nanos)
}

impl StoragePoint {
    /// Whether the point is not after the other.
    pub open spec fn not_after(self, other: StoragePoint) -> bool {
        not_after(self.secs as int, self.nanos as int, other.secs as int, other.nanos as int)
    }
}

/// Where a point goes into a sequence that is in order of time: behind the
/// last point that is not after it.
pub open spec fn insertion_point(ordered: Seq<StoragePoint>, point: StoragePoint) -> int
    decreases ordered.len(),
{
    if ordered.len() == 0 {
        0
    } else if ordered.last().not_after(point) {
        ordered.len() as int
    } else {
        insertion_point(ordered.drop_last(), point)
    }
}

/// The points in order of time; points of the same instant stay in the order
/// in which they came.
pub open spec fn time_ordered(points: Seq<StoragePoint>) -> Seq<StoragePoint>
    decreases points.len(),
{
    if points.len() == 0 {
        Seq::<StoragePoint>::empty()
    } else {
        let before = time_ordered(points.drop_last());
        before.insert(insertion_point(before, points.last()), points.last())
    }
}

/// Whether each point is not after the next.
pub open spec fn in_time_order(points: Seq<StoragePoint>) -> bool {
    forall|i: int, j: int| 0 <= i < j < points.len() ==> points[i].not_after(points[j])
}

proof fn lemma_insertion_point(ordered: Seq<StoragePoint>, point: StoragePoint)
    requires
        in_time_order(ordered),
    ensures
        0 <= insertion_point(ordered, point) <= ordered.len(),
        forall|i: int| 0 <= i < insertion_point(ordered, point) ==> ordered[i].not_after(point),
        forall|i: int|
            insertion_point(ordered, point) <= i < ordered.len() ==> !ordered[i].not_after(point),
    decreases ordered.len(),
{
    if ordered.len() > 0 {
        let rest = ordered.drop_last();
        assert forall|i: int, j: int| 0 <= i < j < rest.len() implies rest[i].not_after(
            rest[j],
        ) by {
            assert(rest[i] == ordered[i] && rest[j] == ordered[j]);
        }
        if ordered.last().not_after(point) {
            assert forall|i: int| 0 <= i < ordered.len() implies ordered[i].not_after(point) by {
                if i < ordered.len() - 1 {
                    assert(ordered[i].not_after(ordered[ordered.len() - 1]));
                }
            }
        } else {
            lemma_insertion_point(rest, point);
            let at = insertion_point(rest, point);
            assert forall|i: int| 0 <= i < at implies ordered[i].not_after(point) by {
                assert(rest[i] == ordered[i]);
            }
            assert forall|i: int| at <= i < ordered.len() implies !ordered[i].not_after(point) by {
                if i < rest.len() {
                    assert(rest[i] == ordered[i]);
                }
            }
        }
    }
}

/// `time_ordered` puts the points in order of time and neither drops nor
/// adds one.
pub proof fn lemma_time_ordered(points: Seq<StoragePoint>)
    ensures
        in_time_order(time_ordered(points)),
        time_ordered(points).len() == points.len(),
        time_ordered(points).to_multiset() == points.to_multiset(),
    decreases points.len(),
{
    if points.len() == 0 {
        assert(points =~= Seq::<StoragePoint>::empty());
    } else {
        let rest = points.drop_last();
        let last = points.last();
        lemma_time_ordered(rest);
        let before = time_ordered(rest);
        lemma_insertion_point(before, last);
        let at = insertion_point(before, last);
        let after = before.insert(at, last);
        assert forall|i: int, j: int| 0 <= i < j < after.len() implies after[i].not_after(
            after[j],
        ) by {
            if i < at && j > at {
                assert(after[i] == before[i]);
                assert(after[j] == before[j - 1]);
            }
        }
        vstd::seq_lib::to_multiset_insert(before, at, last);
        assert(points =~= rest.push(last));
        vstd::seq_lib::to_multiset_build(rest, last);
        assert(time_ordered(points) == after);
        assert(after.to_multiset() =~= points.to_multiset());
    }
}

/// The amount that a point's `value` holds: a number, or text that writes a
/// number.
pub open spec fn storage_value(value: Json) -> Option<int> {
    if json_number(value) is Some {
        number_amount(value)
    } else {
        match json_string(value) {
            Some(s) => amount_of_text(s),
            None => None,
        }
    }
}

/// Whether a JSON value is a point of the feed: it has a `period` text and a
/// `value`.
pub open spec fn point_readable(item: Json) -> bool {
    text_member(item, "period"@) is Some && json_member(item, "value"@) is Some
}

/// The point that a JSON value stands for, if it is to be kept: its value
/// must be an amount, its period an instant, and the instant not before
/// `(from_secs, from_nanos)`.
pub open spec fn point_kept(item: Json, from_secs: int, from_nanos: int) -> Option<StoragePoint> {
    match storage_value(json_member(item, "value"@)->0) {
        Some(v) => match rfc3339_instant(text_member(item, "period"@)->0) {
            Some((secs, nanos)) => if not_after(from_secs, from_nanos, secs, nanos) {
                Some(StoragePoint { secs: secs as i64, nanos: nanos as u32, value: Decimal::of(v) })
            } else {
                None
            },
            None => None,
        },
        None => None,
    }
}

/// The points to keep among `items`, in their order.
pub open spec fn points_kept(items: Seq<Json>, from_secs: int, from_nanos: int) -> Seq<
    StoragePoint,
>
    decreases items.len(),
{
    if items.len() == 0 {
        Seq::<StoragePoint>::empty()
    } else {
        let before = points_kept(items.drop_last(), from_secs, from_nanos);
        match point_kept(items.last(), from_secs, from_nanos) {
            Some(p) => before.push(p),
            None => before,
        }
    }
}

/// The points that a document lists: the elements of `response.data`.
pub open spec fn points_of(doc: Json) -> Option<Seq<Json>> {
    match json_member(doc, "response"@) {
        Some(response) => match json_member(response, "data"@) {
            Some(data) => json_elements(data),
            None => None,
        },
        None => None,
    }
}

/// Whether a document is a listing of storage data.
pub open spec fn storage_readable(doc: Json) -> bool {
    points_of(doc) matches Some(items) && forall|i: int|
        0 <= i < items.len() ==> point_readable(#[trigger] items[i])
}

/// The instant a year before `now_secs`, if it can be counted.
pub open spec fn year_before(now_secs: int) -> Option<int> {
    if now_secs - YEAR_SECS >= i64::MIN {
        Some(now_secs - YEAR_SECS)
    } else {
        None
    }
}

/// What a reply from the storage feed means at the instant
/// `(now_secs, now_nanos)`: the points of the last 365 days, in order of
/// time.
pub open spec fn storage_result(
    now_secs: int,
    now_nanos: int,
    reply: Reply,
    r: Result<Vec<StoragePoint>, FeedError>,
) -> bool {
    match year_before(now_secs) {
        None => r == Err::<Vec<StoragePoint>, FeedError>(FeedError::InvalidTime),
        Some(from) => match failure_of(reply) {
            Some(e) => r == Err::<Vec<StoragePoint>, FeedError>(FeedError::Failed(e)),
            None => match document_of(reply) {
                Some(doc) => if storage_readable(doc) {
                    r matches Ok(points) && points@ == time_ordered(
                        points_kept(points_of(doc)->0, from, now_nanos),
                    )
                } else {
                    r == Err::<Vec<StoragePoint>, FeedError>(FeedError::Failed(unreadable(reply)))
                },
                None => r == Err::<Vec<StoragePoint>, FeedError>(
                    FeedError::Failed(unreadable(reply)),
                ),
            },
        },
    }
}

/// The sum of the points' values, in millionths.
pub open spec fn values_sum(points: Seq<StoragePoint>) -> int
    decreases points.len(),
{
    if points.len() == 0 {
        0
    } else {
        values_sum(points.drop_last()) + points.last().value@
    }
}

/// The inventory signal of the points, in millionths: how far the latest
/// value lies below the mean of all, relative to the mean. Fewer than two
/// points, or a mean of zero, give the neutral signal.
pub open spec fn inventory_signal_of(points: Seq<StoragePoint>) -> int {
    if points.len() < 2 {
        0
    } else {
        let mean = trunc_div(values_sum(points), points.len() as int);
        if mean == 0 {
            0
        } else {
            clamp(trunc_div((mean - points.last().value@) * SCALE, mean))
        }
    }
}

/// The factor of a month in the stand-in data, in millionths: 1.1 in
/// winter, 0.9 in summer, 1.0 otherwise.
pub open spec fn seasonal_factor(month: int) -> int {
    if month == 12 || month == 1 || month == 2 {
        1_100_000
    } else if month == 6 || month == 7 || month == 8 {
        900_000
    } else {
        1_000_000
    }
}

/// The factor of a week in the stand-in data, in millionths: 0.925, 0.975,
/// 1.025 and 1.075 in turn.
pub open spec fn weekly_factor(week: int) -> int {
    1_000_000 + (2 * (week % 4) - 3) * 25_000
}

/// The value of the stand-in data in a week of a month, in millionths:
/// 3500, times the two factors.
pub open spec fn mock_value(month: int, week: int) -> int {
    3500 * seasonal_factor(month) * weekly_factor(week) / 1_000_000
}

/// The stand-in point of week `week`, counted from 52 weeks before
/// `now_secs`.
pub open spec fn mock_point(now_secs: int, now_nanos: int, week: int) -> Option<StoragePoint> {
    let at = now_secs - 52 * WEEK_SECS + week * WEEK_SECS;
    match calendar_month(at) {
        Some(month) => Some(
            StoragePoint {
                secs: at as i64,
                nanos: now_nanos as u32,
                value: Decimal::of(mock_value(month, week)),
            },
        ),
        None => None,
    }
}

fn read_value(value: &Value) -> (r: Option<Decimal>)
    ensures
        r is Some <==> storage_value(json_view(*value)) is Some,
        r matches Some(d) ==> d == Decimal::of(storage_value(json_view(*value))->0),
{
    match number_of(value) {
        Some(text) => Decimal::parse(text.as_str()),
        None => match string_of(value) {
            Some(text) => Decimal::parse(text.as_str()),
            None => None,
        },
    }
}

fn read_point(item: &Value, from_secs: i64, from_nanos: u32) -> (r: Option<Option<StoragePoint>>)
    ensures
        r is Some <==> point_readable(json_view(*item)),
        r matches Some(kept) ==> kept == point_kept(
            json_view(*item),
            from_secs as int,
            from_nanos as int,
        ),
{
    let period = match read_text(item, "period") {
        Some(period) => period,
        None => {
            return None;
        },
    };
    let value = match member(item, "value") {
        Some(value) => value,
        None => {
            return None;
        },
    };
    let amount = match read_value(value) {
        Some(amount) => amount,
        None => {
            return Some(None);
        },
    };
    match parse_rfc3339(period.as_str()) {
        Some((secs, nanos)) => {
            if from_secs < secs || (from_secs == secs && from_nanos <= nanos) {
                Some(Some(StoragePoint { secs, nanos, value: amount }))
            } else {
                Some(None)
            }
        },
        None => Some(None),
    }
}

fn place(ordered: &mut Vec<StoragePoint>, point: StoragePoint)
    ensures
        final(ordered)@ == old(ordered)@.insert(insertion_point(old(ordered)@, point), point),
{
    let mut at: usize = ordered.len();
    proof {
        assert(ordered@.take(at as int) =~= ordered@);
    }
    while at > 0 && !(ordered[at - 1].secs < point.secs || (ordered[at - 1].secs == point.secs
        && ordered[at - 1].nanos <= point.nanos))
        invariant
            at <= ordered.len(),
            insertion_point(ordered@, point) == insertion_point(ordered@.take(at as int), point),
        decreases at,
    {
        proof {
            assert(ordered@.take(at as int).drop_last() =~= ordered@.take(at - 1));
        }
        at = at - 1;
    }
    proof {
        if at > 0 {
            assert(ordered@.take(at as int).last() == ordered@[at - 1]);
        }
    }
    ordered.insert(at, point);
}

/// The fetcher of storage data.
pub struct EIADataFetcher {
    config: TradingConfig,
}

impl EIADataFetcher {
    /// The configuration that the fetcher was made with.
    pub closed spec fn config(&self) -> TradingConfig {
        self.config
    }

    /// A fetcher for the configuration's storage feed.
    pub fn new(config: TradingConfig) -> (r: Self)
        ensures
            r.config() == config,
    {
        Self { config }
    }

    /// The request for the weekly storage data of the 365 days before
    /// `now_secs`. Without a key nothing is asked.
    pub fn request(&self, now_secs: i64) -> (r: Result<DataRequest, FeedError>)
        ensures
            self.config().eia_api_key@.len() == 0 ==> r matches Err(FeedError::NotConfigured),
            self.config().eia_api_key@.len() > 0 ==> {
                let from = year_before(now_secs as int);
                if from is Some && calendar_date(from->0) is Some && calendar_date(now_secs as int)
                    is Some {
                    r matches Ok(request) && {
                        &&& request.url == self.config().eia_api_url
                        &&& request.user_agent is None
                        &&& request.query@.len() == 5
                        &&& request.query@[0].is("api_key"@, self.config().eia_api_key@)
                        &&& request.query@[1].is("data[]"@, "value"@)
                        &&& request.query@[2].is("start"@, calendar_date(from->0)->0)
                        &&& request.query@[3].is("end"@, calendar_date(now_secs as int)->0)
                        &&& request.query@[4].is("length"@, "1000"@)
                    }
                } else {
                    r matches Err(FeedError::InvalidTime)
                }
            },
    {
        if self.config.eia_api_key.as_str().is_empty() {
            return Err(FeedError::NotConfigured);
        }
        if now_secs < i64::MIN + YEAR_SECS {
            return Err(FeedError::InvalidTime);
        }
        let start = match write_date(now_secs - YEAR_SECS) {
            Some(start) => start,
            None => {
                return Err(FeedError::InvalidTime);
            },
        };
        let end = match write_date(now_secs) {
            Some(end) => end,
            None => {
                return Err(FeedError::InvalidTime);
            },
        };
        let mut query: Vec<QueryParam> = Vec::new();
        query.push(
            QueryParam { name: "api_key".to_owned(), value: self.config.eia_api_key.clone() },
        );
        query.push(QueryParam::new("data[]", "value"));
        query.push(QueryParam { name: "start".to_owned(), value: start });
        query.push(QueryParam { name: "end".to_owned(), value: end });
        query.push(QueryParam::new("length", "1000"));
        Ok(DataRequest { url: self.config.eia_api_url.clone(), query, user_agent: None })
    }

    /// Reads the storage data of the last 365 days from the feed's reply.
    pub fn fetch_storage_data(&self, now_secs: i64, now_nanos: u32, reply: &Reply) -> (r: Result<
        Vec<StoragePoint>,
        FeedError,
    >)
        ensures
            storage_result(now_secs as int, now_nanos as int, *reply, r),
    {
        if now_secs < i64::MIN + YEAR_SECS {
            return Err(FeedError::InvalidTime);
        }
        let from_secs = now_secs - YEAR_SECS;
        if let Some(e) = crate::broker::failure(reply) {
            return Err(FeedError::Failed(e));
        }
        let doc = match crate::broker::document(reply) {
            Some(doc) => doc,
            None => {
                return Err(FeedError::Failed(crate::broker::unreadable_body(reply)));
            },
        };
        let listed = match member(&doc, "response") {
            Some(response) => match member(response, "data") {
                Some(data) => elements_of(data),
                None => None,
            },
            None => None,
        };
        let items = match listed {
            Some(items) => items,
            None => {
                return Err(FeedError::Failed(crate::broker::unreadable_body(reply)));
            },
        };
        let mut points: Vec<StoragePoint> = Vec::new();
        let mut i: usize = 0;
        proof {
            assert(json_views(items@).take(0) =~= Seq::<Json>::empty());
        }
        while i < items.len()
            invariant
                year_before(now_secs as int) == Some(from_secs as int),
                failure_of(*reply) is None,
                document_of(*reply) == Some(json_view(doc)),
                points_of(json_view(doc)) == Some(json_views(items@)),
                i <= items.len(),
                forall|j: int| 0 <= j < i ==> point_readable(#[trigger] json_views(items@)[j]),
                points@ == time_ordered(
                    points_kept(
                        json_views(items@).take(i as int),
                        from_secs as int,
                        now_nanos as int,
                    ),
                ),
            decreases items.len() - i,
        {
            proof {
                let all = json_views(items@);
                let upto = all.take(i + 1);
                assert(upto.drop_last() =~= all.take(i as int));
                assert(upto.last() == json_view(items@[i as int]));
            }
            let ghost before = points_kept(
                json_views(items@).take(i as int),
                from_secs as int,
                now_nanos as int,
            );
            match read_point(&items[i], from_secs, now_nanos) {
                Some(Some(point)) => {
                    place(&mut points, point);
                    proof {
                        assert(before.push(point).drop_last() =~= before);
                    }
                },
                Some(None) => {},
                None => {
                    assert(json_views(items@)[i as int] == json_view(items@[i as int]));
                    assert(!point_readable(points_of(json_view(doc))->0[i as int]));
                    return Err(FeedError::Failed(crate::broker::unreadable_body(reply)));
                },
            }
            i = i + 1;
        }
        proof {
            assert(json_views(items@).take(i as int) =~= json_views(items@));
        }
        Ok(points)
    }

    /// Stand-in storage data for the 52 weeks before `now_secs`, one point a
    /// week, the week of `now_secs` included. `None` where a week lies
    /// outside the calendar.
    pub fn get_mock_storage_data(&self, now_secs: i64, now_nanos: u32) -> (r: Option<
        Vec<StoragePoint>,
    >)
        ensures
            r matches Some(points) ==> points@.len() == 53 && forall|week: int|
                0 <= week < 53 ==> mock_point(now_secs as int, now_nanos as int, week) == Some(
                    #[trigger] points@[week],
                ),
            r is None ==> now_secs - 52 * WEEK_SECS < i64::MIN || exists|week: int|
                0 <= week < 53 && #[trigger] mock_point(now_secs as int, now_nanos as int, week)
                    is None,
    {
        if now_secs < i64::MIN + 52 * WEEK_SECS {
            return None;
        }
        let start: i64 = now_secs - 52 * WEEK_SECS;
        let mut points: Vec<StoragePoint> = Vec::new();
        let mut week: i64 = 0;
        while week < 53
            invariant
                0 <= week <= 53,
                start == now_secs - 52 * WEEK_SECS,
                points@.len() == week,
                forall|k: int|
                    0 <= k < week ==> mock_point(now_secs as int, now_nanos as int, k) == Some(
                        #[trigger] points@[k],
                    ),
            decreases 53 - week,
        {
            let at: i64 = start + week * WEEK_SECS;
            let month = match month_of(at) {
                Some(month) => month,
                None => {
                    assert(mock_point(now_secs as int, now_nanos as int, week as int) is None);
                    return None;
                },
            };
            let seasonal: i64 = if month == 12 || month == 1 || month == 2 {
                1_100_000
            } else if month == 6 || month == 7 || month == 8 {
                900_000
            } else {
                1_000_000
            };
            let weekly: i64 = 1_000_000 + (2 * (week % 4) - 3) * 25_000;
            assert(0 <= 3500 * seasonal * weekly <= 4_138_750_000_000_000) by (nonlinear_arith)
                requires
                    900_000 <= seasonal <= 1_100_000,
                    925_000 <= weekly <= 1_075_000,
            ;
            let value = Decimal::clamped((3500 * seasonal * weekly / 1_000_000) as i128);
            points.push(StoragePoint { secs: at, nanos: now_nanos, value });
            week = week + 1;
        }
        Some(points)
    }

    /// The inventory signal of the storage data. Data that could not be
    /// fetched give the neutral signal, 0.
    pub fn calculate_inventory_signal(&self, fetched: &Result<Vec<StoragePoint>, FeedError>) -> (r:
        Decimal)
        ensures
            r@ == match *fetched {
                Ok(points) => inventory_signal_of(points@),
                Err(_) => 0,
            },
    {
        let points = match fetched {
            Ok(points) => points,
            Err(_) => {
                return Decimal::zero();
            },
        };
        let n = points.len();
        if n < 2 {
            return Decimal::zero();
        }
        let mut sum: i128 = 0;
        let mut i: usize = 0;
        proof {
            assert(points@.take(0) =~= Seq::<StoragePoint>::empty());
        }
        while i < n
            invariant
                n == points.len(),
                i <= n,
                sum == values_sum(points@.take(i as int)),
                -(i * LIMIT) <= sum <= i * LIMIT,
            decreases n - i,
        {
            proof {
                let upto = points@.take(i + 1);
                assert(upto.drop_last() =~= points@.take(i as int));
                assert(upto.last() == points@[i as int]);
                assert((i + 1) * LIMIT == i * LIMIT + LIMIT) by (nonlinear_arith);
                assert(i * LIMIT <= 18_446_744_073_709_551_615 * LIMIT) by (nonlinear_arith)
                    requires
                        i <= 18_446_744_073_709_551_615,
                        LIMIT == 1_000_000_000_000_000_000,
                ;
            }
            sum = sum + points[i].value.micros() as i128;
            i = i + 1;
        }
        proof {
            assert(points@.take(i as int) =~= points@);
        }
        proof {
            assert(n * LIMIT <= 18_446_744_073_709_551_615 * LIMIT) by (nonlinear_arith)
                requires
                    n <= 18_446_744_073_709_551_615,
                    LIMIT == 1_000_000_000_000_000_000,
            ;
            lemma_mean_bound(sum as int, n as int, LIMIT as int);
        }
        let mean: i128 = divide(sum, n as i128);
        if mean == 0 {
            return Decimal::zero();
        }
        let current: i128 = points[n - 1].value.micros() as i128;
        let gap: i128 = mean - current;
        assert(-2 * LIMIT <= gap <= 2 * LIMIT);
        Decimal::clamped(divide(gap * 1_000_000, mean))
    }
}

} // verus!
