//! The temperature signal: heating degree days of the coming week, averaged
//! over the regions and compared with a usual week.

use crate::broker::{document_of, failure_of, unreadable, Reply};
use crate::config::TradingConfig;
use crate::decimal::{clamp, trunc_div, Decimal, LIMIT};
use crate::feed::{DataRequest, FeedError, QueryParam};
use crate::json::{
    elements_of, json_elements, json_member, json_view, json_views, member, number_amount,
    read_number, Json,
};
use crate::text::bytes_of;
use serde_json::Value;
use vstd::prelude::*;
use vstd::string::*;

verus! {

/// The base temperature of a heating degree day, 65 degrees, in millionths.
pub const BASE_TEMPERATURE: i64 = 65_000_000;

/// The heating degree days of a usual week, 25, in millionths.
pub const USUAL_HDD: i64 = 25_000_000;

/// The days of forecast that are asked for.
pub const FORECAST_DAYS: i32 = 7;

/// The most that heating degree days are added up to.
pub const HDD_CAP: i128 = 10_000_000_000_000_000_000_000_000_000_000_000_000;

/// The daily highs and lows of a forecast.
#[derive(Debug)]
pub struct DailyData {
    pub temperature_2m_max: Vec<Decimal>,
    pub temperature_2m_min: Vec<Decimal>,
}

/// A forecast for one region.
#[derive(Debug)]
pub struct WeatherResponse {
    pub daily: DailyData,
}

/// The heating degree days of one day, in millionths: how far the mean of
/// the day's high and low lies below the base temperature, and zero where it
/// lies above.
pub open spec fn degree_days(temp_max: int, temp_min: int, base_temp: int) -> int {
    let mean = trunc_div(temp_max + temp_min, 2);
    if base_temp - mean > 0 {
        clamp(base_temp - mean)
    } else {
        0
    }
}

/// The heating degree days of the first `days` days of a forecast.
pub open spec fn forecast_degree_days(highs: Seq<Decimal>, lows: Seq<Decimal>, days: int) -> int
    decreases days,
{
    if days <= 0 {
        0
    } else {
        forecast_degree_days(highs, lows, days - 1) + degree_days(
            highs[days - 1]@,
            lows[days - 1]@,
            BASE_TEMPERATURE as int,
        )
    }
}

/// The heating degree days of a forecast: those of the days that have both a
/// high and a low.
pub open spec fn response_degree_days(response: WeatherResponse) -> int {
    let highs = response.daily.temperature_2m_max@;
    let lows = response.daily.temperature_2m_min@;
    forecast_degree_days(
        highs,
        lows,
        if highs.len() < lows.len() {
            highs.len() as int
        } else {
            lows.len() as int
        },
    )
}

/// The heating degree days of all forecasts that were had.
pub open spec fn total_degree_days(forecasts: Seq<Result<WeatherResponse, FeedError>>) -> int
    decreases forecasts.len(),
{
    if forecasts.len() == 0 {
        0
    } else {
        total_degree_days(forecasts.drop_last()) + match forecasts.last() {
            Ok(response) => response_degree_days(response),
            Err(_) => 0,
        }
    }
}

/// The number of forecasts that were had.
pub open spec fn forecasts_had(forecasts: Seq<Result<WeatherResponse, FeedError>>) -> int
    decreases forecasts.len(),
{
    if forecasts.len() == 0 {
        0
    } else {
        forecasts_had(forecasts.drop_last()) + match forecasts.last() {
            Ok(_) => 1int,
            Err(_) => 0int,
        }
    }
}

/// The temperature signal, in millionths: the mean heating degree days per
/// region, less those of a usual week, relative to a usual week. Without
/// any forecast the signal is neutral. Sums beyond [`HDD_CAP`] count as
/// [`HDD_CAP`].
pub open spec fn hdd_signal(forecasts: Seq<Result<WeatherResponse, FeedError>>) -> int {
    if forecasts_had(forecasts) == 0 {
        0
    } else {
        let total = if total_degree_days(forecasts) > HDD_CAP {
            HDD_CAP as int
        } else {
            total_degree_days(forecasts)
        };
        let mean = total / forecasts_had(forecasts);
        clamp(trunc_div(mean - USUAL_HDD, 25))
    }
}

/// Where the one comma of a region stands; `None` where the region has no
/// comma or more than one.
pub open spec fn comma_of(region: Seq<u8>) -> Option<int> {
    if exists|i: int| is_only_comma(region, i) {
        Some(choose|i: int| is_only_comma(region, i))
    } else {
        None
    }
}

/// Whether the one comma of `region` stands at `i`.
pub open spec fn is_only_comma(region: Seq<u8>, i: int) -> bool {
    &&& 0 <= i < region.len()
    &&& region[i] == 44
    &&& forall|j: int| 0 <= j < region.len() && j != i ==> region[j] != 44
}

/// The temperatures that a JSON array lists.
/// `temperatures` are the numbers that the array lists, in its order.
pub open spec fn temperatures_readable(list: Json) -> bool {
    json_elements(list) matches Some(items) && forall|i: int|
        0 <= i < items.len() ==> number_amount(#[trigger] items[i]) is Some
}

pub open spec fn temperatures_read(list: Json, temperatures: Seq<Decimal>) -> bool {
    &&& temperatures.len() == json_elements(list)->0.len()
    &&& forall|i: int|
        0 <= i < temperatures.len() ==> (#[trigger] temperatures[i])@ == number_amount(
            json_elements(list)->0[i],
        )->0
}

/// Whether a document is a forecast: its member `daily` lists the highs
/// under `temperature_2m_max` and the lows under `temperature_2m_min`.
/// `response` holds the highs and lows that the document lists.
pub open spec fn forecast_readable(doc: Json) -> bool {
    json_member(doc, "daily"@) matches Some(daily) && (json_member(
        daily,
        "temperature_2m_max"@,
    ) matches Some(highs) && temperatures_readable(highs)) && (json_member(
        daily,
        "temperature_2m_min"@,
    ) matches Some(lows) && temperatures_readable(lows))
}

pub open spec fn forecast_read(doc: Json, response: WeatherResponse) -> bool {
    let daily = json_member(doc, "daily"@)->0;
    &&& temperatures_read(
        json_member(daily, "temperature_2m_max"@)->0,
        response.daily.temperature_2m_max@,
    )
    &&& temperatures_read(
        json_member(daily, "temperature_2m_min"@)->0,
        response.daily.temperature_2m_min@,
    )
}

/// What a reply from the forecast feed means.
pub open spec fn forecast_result(reply: Reply, r: Result<WeatherResponse, FeedError>) -> bool {
    match failure_of(reply) {
        Some(e) => r == Err::<WeatherResponse, FeedError>(FeedError::Failed(e)),
        None => match document_of(reply) {
            Some(doc) => if forecast_readable(doc) {
                r matches Ok(response) && forecast_read(doc, response)
            } else {
                r == Err::<WeatherResponse, FeedError>(FeedError::Failed(unreadable(reply)))
            },
            None => r == Err::<WeatherResponse, FeedError>(FeedError::Failed(unreadable(reply))),
        },
    }
}

fn read_temperatures(list: &Value) -> (r: Option<Vec<Decimal>>)
    ensures
        r is Some <==> temperatures_readable(json_view(*list)),
        r matches Some(temperatures) ==> temperatures_read(json_view(*list), temperatures@),
{
    let items = match elements_of(list) {
        Some(items) => items,
        None => {
            return None;
        },
    };
    let mut temperatures: Vec<Decimal> = Vec::new();
    let mut i: usize = 0;
    while i < items.len()
        invariant
            json_elements(json_view(*list)) == Some(json_views(items@)),
            i <= items.len(),
            temperatures@.len() == i,
            forall|j: int| 0 <= j < i ==> number_amount(#[trigger] json_views(items@)[j]) is Some,
            forall|j: int|
                0 <= j < i ==> (#[trigger] temperatures@[j])@ == number_amount(
                    json_views(items@)[j],
                )->0,
        decreases items.len() - i,
    {
        match read_number(&items[i]) {
            Some(t) => {
                temperatures.push(t);
            },
            None => {
                assert(number_amount(json_views(items@)[i as int]) is None);
                return None;
            },
        }
        i = i + 1;
    }
    Some(temperatures)
}

/// Reads a forecast.
pub fn read_forecast(doc: &Value) -> (r: Option<WeatherResponse>)
    ensures
        r is Some <==> forecast_readable(json_view(*doc)),
        r matches Some(response) ==> forecast_read(json_view(*doc), response),
{
    let daily = match member(doc, "daily") {
        Some(daily) => daily,
        None => {
            return None;
        },
    };
    let highs = match member(daily, "temperature_2m_max") {
        Some(list) => read_temperatures(list),
        None => None,
    };
    let lows = match member(daily, "temperature_2m_min") {
        Some(list) => read_temperatures(list),
        None => None,
    };
    match (highs, lows) {
        (Some(temperature_2m_max), Some(temperature_2m_min)) => Some(
            WeatherResponse { daily: DailyData { temperature_2m_max, temperature_2m_min } },
        ),
        _ => None,
    }
}

/// Splits a region at its one comma.
pub fn split_region(region: &str) -> (r: Option<(String, String)>)
    ensures
        r is Some <==> comma_of(region.spec_bytes()) is Some,
        r matches Some(parts) ==> {
            let at = comma_of(region.spec_bytes())->0;
            &&& bytes_of(parts.0@) == region.spec_bytes().subrange(0, at)
            &&& bytes_of(parts.1@) == region.spec_bytes().subrange(
                at + 1,
                region.spec_bytes().len() as int,
            )
        },
{
    let bytes = region.as_bytes();
    let n = bytes.len();
    let mut at: usize = n;
    let mut commas: usize = 0;
    let mut i: usize = 0;
    while i < n
        invariant
            n == bytes.len(),
            i <= n,
            commas <= i,
            commas == 0 ==> forall|j: int| 0 <= j < i ==> bytes@[j] != 44,
            commas == 1 ==> at < i && bytes@[at as int] == 44 && forall|j: int|
                0 <= j < i && j != at ==> bytes@[j] != 44,
            commas >= 2 ==> exists|a: int, b: int|
                0 <= a < b < i && bytes@[a] == 44 && bytes@[b] == 44,
        decreases n - i,
    {
        if bytes[i] == 44 {
            proof {
                if commas == 1 {
                    assert(0 <= at < i && bytes@[at as int] == 44 && bytes@[i as int] == 44);
                }
            }
            commas = commas + 1;
            at = i;
        }
        i = i + 1;
    }
    if commas != 1 {
        proof {
            assert forall|k: int| !is_only_comma(bytes@, k) by {
                if commas >= 2 {
                    let (a, b) = choose|a: int, b: int|
                        0 <= a < b < n && bytes@[a] == 44 && bytes@[b] == 44;
                    assert(bytes@[a] == 44 && bytes@[b] == 44);
                }
            }
        }
        return None;
    }
    proof {
        assert(is_only_comma(bytes@, at as int));
        let found = choose|k: int| is_only_comma(bytes@, k);
        assert(found == at);
        vstd::utf8::encode_utf8_valid_utf8(region@);
        vstd::utf8::is_char_boundary_iff_not_is_continuation_byte(bytes@, at as int);
    }
    let (latitude, rest) = region.split_at(at);
    proof {
        let tail = rest.spec_bytes();
        assert(tail[0] == 44);
        vstd::utf8::encode_utf8_valid_utf8(rest@);
        reveal_with_fuel(vstd::utf8::is_char_boundary, 2);
        let first: u8 = tail[0];
        assert(vstd::utf8::is_leading_byte_width_1(first)) by (bit_vector)
            requires
                first == 44u8,
        ;
        assert(vstd::utf8::length_of_first_scalar(tail) == 1);
        assert(vstd::utf8::is_char_boundary(tail, 1));
    }
    let (_, longitude) = rest.split_at(1);
    proof {
        assert(longitude.spec_bytes() =~= bytes@.subrange(at + 1, n as int));
    }
    Some((latitude.to_owned(), longitude.to_owned()))
}

/// The fetcher of weather forecasts.
pub struct WeatherDataFetcher {
    config: TradingConfig,
}

impl WeatherDataFetcher {
    /// The configuration that the fetcher was made with.
    pub closed spec fn config(&self) -> TradingConfig {
        self.config
    }

    /// A fetcher for the configuration's forecast feed.
    pub fn new(config: TradingConfig) -> (r: Self)
        ensures
            r.config() == config,
    {
        Self { config }
    }

    /// The request for the forecast of `days` days for a region, which is
    /// written as "latitude,longitude". The days are written as `i32`
    /// displays them.
    pub fn request(&self, region: &str, days: i32) -> (r: Result<DataRequest, FeedError>)
        ensures
            r is Ok <==> comma_of(region.spec_bytes()) is Some,
            r matches Err(e) ==> e is InvalidRegion,
            r matches Ok(request) ==> {
                let at = comma_of(region.spec_bytes())->0;
                &&& request.url == self.config().weather_api_url
                &&& request.user_agent is None
                &&& request.query@.len() == 5
                &&& request.query@[0].name@ == "latitude"@
                &&& bytes_of(request.query@[0].value@) == region.spec_bytes().subrange(
                    0,
                    at,
                )
                &&& request.query@[1].name@ == "longitude"@
                &&& bytes_of(request.query@[1].value@) == region.spec_bytes().subrange(
                    at + 1,
                    region.spec_bytes().len() as int,
                )
                &&& request.query@[2].is("daily"@, "temperature_2m_max,temperature_2m_min"@)
                &&& request.query@[3].is("timezone"@, "America/New_York"@)
                &&& request.query@[4].name@ == "forecast_days"@
                &&& to_string_from_display_ensures::<i32>(&days, request.query@[4].value)
            },
    {
        let (latitude, longitude) = match split_region(region) {
            Some(parts) => parts,
            None => {
                return Err(FeedError::InvalidRegion);
            },
        };
        let mut query: Vec<QueryParam> = Vec::new();
        query.push(QueryParam { name: "latitude".to_owned(), value: latitude });
        query.push(QueryParam { name: "longitude".to_owned(), value: longitude });
        query.push(QueryParam::new("daily", "temperature_2m_max,temperature_2m_min"));
        query.push(QueryParam::new("timezone", "America/New_York"));
        query.push(QueryParam { name: "forecast_days".to_owned(), value: days.to_string() });
        Ok(DataRequest { url: self.config.weather_api_url.clone(), query, user_agent: None })
    }

    /// Reads the forecast from the feed's reply.
    pub fn fetch_weather_forecast(&self, reply: &Reply) -> (r: Result<WeatherResponse, FeedError>)
        ensures
            forecast_result(*reply, r),
    {
        if let Some(e) = crate::broker::failure(reply) {
            return Err(FeedError::Failed(e));
        }
        match crate::broker::document(reply) {
            Some(doc) => match read_forecast(&doc) {
                Some(response) => Ok(response),
                None => Err(FeedError::Failed(crate::broker::unreadable_body(reply))),
            },
            None => Err(FeedError::Failed(crate::broker::unreadable_body(reply))),
        }
    }

    /// The heating degree days of one day.
    pub fn calculate_hdd(&self, temp_max: Decimal, temp_min: Decimal, base_temp: Decimal) -> (r:
        Decimal)
        ensures
            r@ == degree_days(temp_max@, temp_min@, base_temp@),
            0 <= r@ <= LIMIT,
    {
        let sum: i128 = temp_max.micros() as i128 + temp_min.micros() as i128;
        let mean: i128 = sum / 2;
        let below: i128 = base_temp.micros() as i128 - mean;
        if below > 0 {
            Decimal::clamped(below)
        } else {
            Decimal::zero()
        }
    }

    fn response_hdd(&self, response: &WeatherResponse) -> (r: i128)
        ensures
            r == if response_degree_days(*response) > HDD_CAP {
                HDD_CAP as int
            } else {
                response_degree_days(*response)
            },
            0 <= response_degree_days(*response),
    {
        let highs = &response.daily.temperature_2m_max;
        let lows = &response.daily.temperature_2m_min;
        let days = if highs.len() < lows.len() {
            highs.len()
        } else {
            lows.len()
        };
        let base = match Decimal::from_micros(BASE_TEMPERATURE) {
            Some(b) => b,
            None => Decimal::zero(),
        };
        let mut total: i128 = 0;
        let mut k: usize = 0;
        while k < days
            invariant
                k <= days,
                days <= highs@.len(),
                days <= lows@.len(),
                base@ == BASE_TEMPERATURE,
                0 <= forecast_degree_days(highs@, lows@, k as int),
                total == if forecast_degree_days(highs@, lows@, k as int) > HDD_CAP {
                    HDD_CAP as int
                } else {
                    forecast_degree_days(highs@, lows@, k as int)
                },
            decreases days - k,
        {
            let day = self.calculate_hdd(highs[k], lows[k], base);
            total = total + day.micros() as i128;
            if total > HDD_CAP {
                total = HDD_CAP;
            }
            k = k + 1;
        }
        total
    }

    /// The temperature signal of the forecasts, one for each region that
    /// was asked for. A region whose forecast could not be had is left out;
    /// without any forecast the signal is neutral.
    pub fn get_regional_hdd_signal(&self, forecasts: &Vec<Result<WeatherResponse, FeedError>>) -> (r:
        Decimal)
        ensures
            r@ == hdd_signal(forecasts@),
    {
        let mut total: i128 = 0;
        let mut valid: usize = 0;
        let mut i: usize = 0;
        proof {
            assert(forecasts@.take(0) =~= Seq::<Result<WeatherResponse, FeedError>>::empty());
        }
        while i < forecasts.len()
            invariant
                i <= forecasts.len(),
                valid <= i,
                valid == forecasts_had(forecasts@.take(i as int)),
                0 <= total_degree_days(forecasts@.take(i as int)),
                total == if total_degree_days(forecasts@.take(i as int)) > HDD_CAP {
                    HDD_CAP as int
                } else {
                    total_degree_days(forecasts@.take(i as int))
                },
            decreases forecasts.len() - i,
        {
            proof {
                let upto = forecasts@.take(i + 1);
                assert(upto.drop_last() =~= forecasts@.take(i as int));
                assert(upto.last() == forecasts@[i as int]);
            }
            match &forecasts[i] {
                Ok(response) => {
                    let region = self.response_hdd(response);
                    total = total + region;
                    if total > HDD_CAP {
                        total = HDD_CAP;
                    }
                    valid = valid + 1;
                },
                Err(_) => {},
            }
            i = i + 1;
        }
        proof {
            assert(forecasts@.take(i as int) =~= forecasts@);
        }
        if valid == 0 {
            return Decimal::zero();
        }
        let mean: i128 = total / (valid as i128);
        Decimal::clamped((mean - USUAL_HDD as i128) / 25)
    }
}

} // verus!
