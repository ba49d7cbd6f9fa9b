//! The storm signal: active weather alerts, weighed by kind and severity.

use crate::broker::{document_of, failure_of, optional_view, unreadable, BrokerError, Reply};
use crate::config::TradingConfig;
use crate::decimal::{Decimal, SCALE};
use crate::feed::{DataRequest, QueryParam};
use crate::json::{
    elements_of, is_object, json_elements, json_member, json_view, json_views, member,
    optional_text_member, read_optional_text, Json,
};
use crate::text::{
    bytes_of, contains, is_blank, lowercase, occurs_in, same_text, to_lowercase, trimmed,
};
use serde_json::Value;
use vstd::prelude::*;
use vstd::string::*;

verus! {

/// The properties of one weather alert.
#[derive(Debug)]
pub struct Properties {
    pub event: Option<String>,
    pub severity: Option<String>,
    pub urgency: Option<String>,
    pub description: Option<String>,
    pub effective: Option<String>,
    pub expires: Option<String>,
    pub area_desc: Option<String>,
    pub state: Option<String>,
}

/// The strongest signal that alerts can add up to: 1.0.
pub const STORM_CAP: i64 = 1_000_000;

/// The text of a field that may be left out: empty where it is.
pub open spec fn text_or_empty(text: Option<String>) -> Seq<char> {
    match text {
        Some(s) => s@,
        None => Seq::<char>::empty(),
    }
}

/// Whether an event, written in lower case, is one that moves the demand
/// for gas: its name holds one of eight words.
pub open spec fn relevant_event(event: Seq<char>) -> bool {
    let e = bytes_of(event);
    ||| occurs_in(e, bytes_of("storm"@))
    ||| occurs_in(e, bytes_of("winter"@))
    ||| occurs_in(e, bytes_of("blizzard"@))
    ||| occurs_in(e, bytes_of("ice"@))
    ||| occurs_in(e, bytes_of("freeze"@))
    ||| occurs_in(e, bytes_of("hurricane"@))
    ||| occurs_in(e, bytes_of("tornado"@))
    ||| occurs_in(e, bytes_of("severe"@))
}

/// What an event, written in lower case, counts for before its severity is
/// weighed, in millionths: 0.3 for winter weather and blizzards, 0.2 for
/// other storms, 0.15 for other severe weather, 0.1 for anything else.
pub open spec fn base_strength(event: Seq<char>) -> int {
    let e = bytes_of(event);
    if occurs_in(e, bytes_of("winter"@)) || occurs_in(e, bytes_of("blizzard"@)) {
        300_000
    } else if occurs_in(e, bytes_of("storm"@)) {
        200_000
    } else if occurs_in(e, bytes_of("severe"@)) {
        150_000
    } else {
        100_000
    }
}

/// The weight of a severity, written in lower case, in millionths: 1.5 for
/// extreme, 1.2 for severe, 1.0 for moderate, 0.8 for anything else.
pub open spec fn severity_factor(severity: Seq<char>) -> int {
    if severity == "extreme"@ {
        1_500_000
    } else if severity == "severe"@ {
        1_200_000
    } else if severity == "moderate"@ {
        1_000_000
    } else {
        800_000
    }
}

/// What one alert adds to the signal, in millionths.
pub open spec fn alert_strength(alert: Properties) -> int {
    base_strength(lowercase(text_or_empty(alert.event))) * severity_factor(
        lowercase(text_or_empty(alert.severity)),
    ) / (SCALE as int)
}

/// What the alerts add up to.
pub open spec fn storm_sum(alerts: Seq<Properties>) -> int
    decreases alerts.len(),
{
    if alerts.len() == 0 {
        0
    } else {
        storm_sum(alerts.drop_last()) + alert_strength(alerts.last())
    }
}

/// The storm signal of the alerts: their sum, but no more than 1.0.
pub open spec fn storm_signal_of(alerts: Seq<Properties>) -> int {
    if storm_sum(alerts) > STORM_CAP {
        STORM_CAP as int
    } else {
        storm_sum(alerts)
    }
}

/// Whether a JSON value holds the properties of an alert: an object whose
/// eight fields are text, null or left out.
pub open spec fn properties_readable(p: Json) -> bool {
    &&& p is Object
    &&& optional_text_member(p, "event"@) is Some
    &&& optional_text_member(p, "severity"@) is Some
    &&& optional_text_member(p, "urgency"@) is Some
    &&& optional_text_member(p, "description"@) is Some
    &&& optional_text_member(p, "effective"@) is Some
    &&& optional_text_member(p, "expires"@) is Some
    &&& optional_text_member(p, "areaDesc"@) is Some
    &&& optional_text_member(p, "state"@) is Some
}

/// `alert` holds what the JSON value says.
pub open spec fn properties_read(p: Json, alert: Properties) -> bool {
    &&& optional_text_member(p, "event"@) == Some(optional_view(alert.event))
    &&& optional_text_member(p, "severity"@) == Some(optional_view(alert.severity))
    &&& optional_text_member(p, "urgency"@) == Some(optional_view(alert.urgency))
    &&& optional_text_member(p, "description"@) == Some(optional_view(alert.description))
    &&& optional_text_member(p, "effective"@) == Some(optional_view(alert.effective))
    &&& optional_text_member(p, "expires"@) == Some(optional_view(alert.expires))
    &&& optional_text_member(p, "areaDesc"@) == Some(optional_view(alert.area_desc))
    &&& optional_text_member(p, "state"@) == Some(optional_view(alert.state))
}

/// Whether a feature of the feed can be read: it has properties that can.
pub open spec fn feature_readable(feature: Json) -> bool {
    json_member(feature, "properties"@) matches Some(p) && properties_readable(p)
}

/// The event that a feature names, or the empty text.
pub open spec fn feature_event(feature: Json) -> Seq<char> {
    match json_member(feature, "properties"@) {
        Some(p) => match optional_text_member(p, "event"@) {
            Some(Some(event)) => event,
            _ => Seq::<char>::empty(),
        },
        None => Seq::<char>::empty(),
    }
}

/// The features that a document lists.
pub open spec fn features_of(doc: Json) -> Option<Seq<Json>> {
    match json_member(doc, "features"@) {
        Some(features) => json_elements(features),
        None => None,
    }
}

/// Whether a document is a feed of alerts in which every feature can be
/// read.
pub open spec fn feed_readable(doc: Json) -> bool {
    features_of(doc) matches Some(features) && forall|i: int|
        0 <= i < features.len() ==> feature_readable(#[trigger] features[i])
}

/// `alerts` are the relevant ones among `features`, in their order.
pub open spec fn relevant_among(features: Seq<Json>, alerts: Seq<Properties>) -> bool
    decreases features.len(),
{
    if features.len() == 0 {
        alerts.len() == 0
    } else if relevant_event(lowercase(feature_event(features.last()))) {
        &&& alerts.len() > 0
        &&& properties_read(json_member(features.last(), "properties"@)->0, alerts.last())
        &&& relevant_among(features.drop_last(), alerts.drop_last())
    } else {
        relevant_among(features.drop_last(), alerts)
    }
}

/// What a reply from the alert feed means: a failure is its error; a
/// response without text is a feed without alerts; any other response must
/// be a feed, of which the relevant alerts are kept.
pub open spec fn alerts_result(reply: Reply, r: Result<Vec<Properties>, BrokerError>) -> bool {
    match failure_of(reply) {
        Some(e) => r == Err::<Vec<Properties>, BrokerError>(e),
        None => if reply matches Reply::Answer { status, body } && trimmed(body@).len() == 0 {
            r matches Ok(alerts) && alerts@.len() == 0
        } else {
            match document_of(reply) {
                Some(doc) => if feed_readable(doc) {
                    r matches Ok(alerts) && relevant_among(features_of(doc)->0, alerts@)
                } else {
                    r == Err::<Vec<Properties>, BrokerError>(unreadable(reply))
                },
                None => r == Err::<Vec<Properties>, BrokerError>(unreadable(reply)),
            }
        },
    }
}

/// Whether an event, given in lower case, is relevant.
pub fn is_relevant_event(event: &str) -> (r: bool)
    ensures
        r == relevant_event(event@),
{
    contains(event, "storm") || contains(event, "winter") || contains(event, "blizzard")
        || contains(event, "ice") || contains(event, "freeze") || contains(event, "hurricane")
        || contains(event, "tornado") || contains(event, "severe")
}

/// What an event, given in lower case, counts for, in millionths.
pub fn event_strength(event: &str) -> (r: i64)
    ensures
        r == base_strength(event@),
        100_000 <= r <= 300_000,
{
    if contains(event, "winter") || contains(event, "blizzard") {
        300_000
    } else if contains(event, "storm") {
        200_000
    } else if contains(event, "severe") {
        150_000
    } else {
        100_000
    }
}

/// The weight of a severity, given in lower case, in millionths.
pub fn severity_multiplier(severity: &str) -> (r: i64)
    ensures
        r == severity_factor(severity@),
        800_000 <= r <= 1_500_000,
{
    if same_text(severity, "extreme") {
        1_500_000
    } else if same_text(severity, "severe") {
        1_200_000
    } else if same_text(severity, "moderate") {
        1_000_000
    } else {
        800_000
    }
}

fn lowered_or_empty(text: &Option<String>) -> (r: String)
    ensures
        r@ == lowercase(text_or_empty(*text)),
{
    match text {
        Some(s) => to_lowercase(s.as_str()),
        None => {
            proof {
                reveal_strlit("");
                assert(""@ =~= Seq::<char>::empty());
            }
            to_lowercase("")
        },
    }
}

/// What one alert adds to the signal, in millionths.
pub fn strength(alert: &Properties) -> (r: i64)
    ensures
        r == alert_strength(*alert),
        0 <= r <= 450_000,
{
    let event = lowered_or_empty(&alert.event);
    let severity = lowered_or_empty(&alert.severity);
    let base = event_strength(event.as_str());
    let factor = severity_multiplier(severity.as_str());
    assert(0 <= base * factor <= 450_000_000_000) by (nonlinear_arith)
        requires
            100_000 <= base <= 300_000,
            800_000 <= factor <= 1_500_000,
    ;
    base * factor / SCALE
}

proof fn lemma_storm_sum_grows(alerts: Seq<Properties>)
    ensures
        storm_sum(alerts) >= 0,
    decreases alerts.len(),
{
    if alerts.len() > 0 {
        lemma_storm_sum_grows(alerts.drop_last());
        let last = alerts.last();
        let b = base_strength(lowercase(text_or_empty(last.event)));
        let f = severity_factor(lowercase(text_or_empty(last.severity)));
        assert(b * f >= 0) by (nonlinear_arith)
            requires
                b >= 100_000,
                f >= 800_000,
        ;
    }
}

/// Reads the properties of an alert.
pub fn read_properties(p: &Value) -> (r: Option<Properties>)
    ensures
        r is Some <==> properties_readable(json_view(*p)),
        r matches Some(alert) ==> properties_read(json_view(*p), alert),
{
    if !is_object(p) {
        return None;
    }
    let event = read_optional_text(p, "event");
    let severity = read_optional_text(p, "severity");
    let urgency = read_optional_text(p, "urgency");
    let description = read_optional_text(p, "description");
    let effective = read_optional_text(p, "effective");
    let expires = read_optional_text(p, "expires");
    let area_desc = read_optional_text(p, "areaDesc");
    let state = read_optional_text(p, "state");
    match (event, severity, urgency, description, effective, expires, area_desc, state) {
        (
            Some(event),
            Some(severity),
            Some(urgency),
            Some(description),
            Some(effective),
            Some(expires),
            Some(area_desc),
            Some(state),
        ) => Some(
            Properties {
                event,
                severity,
                urgency,
                description,
                effective,
                expires,
                area_desc,
                state,
            },
        ),
        _ => None,
    }
}

/// Reads a feed and keeps the relevant alerts.
pub fn read_alerts(doc: &Value) -> (r: Option<Vec<Properties>>)
    ensures
        r is Some <==> feed_readable(json_view(*doc)),
        r matches Some(alerts) ==> relevant_among(features_of(json_view(*doc))->0, alerts@),
{
    let features = match member(doc, "features") {
        Some(list) => match elements_of(list) {
            Some(features) => features,
            None => {
                return None;
            },
        },
        None => {
            return None;
        },
    };
    let mut alerts: Vec<Properties> = Vec::new();
    let mut i: usize = 0;
    proof {
        assert(json_views(features@).take(0) =~= Seq::<Json>::empty());
    }
    while i < features.len()
        invariant
            features_of(json_view(*doc)) == Some(json_views(features@)),
            i <= features.len(),
            forall|j: int| 0 <= j < i ==> feature_readable(#[trigger] json_views(features@)[j]),
            relevant_among(json_views(features@).take(i as int), alerts@),
        decreases features.len() - i,
    {
        let read = match member(&features[i], "properties") {
            Some(p) => read_properties(p),
            None => None,
        };
        let ghost before = alerts@;
        match read {
            Some(alert) => {
                let event = lowered_or_empty(&alert.event);
                let keep = is_relevant_event(event.as_str());
                proof {
                    let all = json_views(features@);
                    let upto = all.take(i + 1);
                    assert(upto.drop_last() =~= all.take(i as int));
                    assert(upto.last() == json_view(features@[i as int]));
                    assert(feature_event(all[i as int]) == text_or_empty(alert.event));
                }
                if keep {
                    alerts.push(alert);
                    proof {
                        assert(alerts@.drop_last() =~= before);
                    }
                }
            },
            None => {
                assert(json_views(features@)[i as int] == json_view(features@[i as int]));
                assert(!feature_readable(features_of(json_view(*doc))->0[i as int]));
                return None;
            },
        }
        i = i + 1;
    }
    proof {
        assert(json_views(features@).take(i as int) =~= json_views(features@));
    }
    Some(alerts)
}

/// The fetcher of weather alerts.
pub struct NOAADataFetcher {
    config: TradingConfig,
}

impl NOAADataFetcher {
    /// The configuration that the fetcher was made with.
    pub closed spec fn config(&self) -> TradingConfig {
        self.config
    }

    /// A fetcher for the configuration's alert feed.
    pub fn new(config: TradingConfig) -> (r: Self)
        ensures
            r.config() == config,
    {
        Self { config }
    }

    /// The request for the alerts that are active now.
    pub fn request(&self) -> (r: DataRequest)
        ensures
            r.url == self.config().noaa_api_url,
            r.query@.len() == 3,
            r.query@[0].is("active"@, "true"@),
            r.query@[1].is("status"@, "actual"@),
            r.query@[2].is("message_type"@, "alert"@),
            r.user_agent matches Some(agent) && agent@
                == "algotrade/1.0 (contact: your-email@example.com)"@,
    {
        let mut query: Vec<QueryParam> = Vec::new();
        query.push(QueryParam::new("active", "true"));
        query.push(QueryParam::new("status", "actual"));
        query.push(QueryParam::new("message_type", "alert"));
        DataRequest {
            url: self.config.noaa_api_url.clone(),
            query,
            user_agent: Some("algotrade/1.0 (contact: your-email@example.com)".to_owned()),
        }
    }

    /// Reads the relevant alerts from the feed's reply.
    pub fn fetch_weather_alerts(&self, reply: &Reply) -> (r: Result<Vec<Properties>, BrokerError>)
        ensures
            alerts_result(*reply, r),
    {
        if let Some(e) = crate::broker::failure(reply) {
            return Err(e);
        }
        let blank = match reply {
            Reply::Answer { status, body } => is_blank(body.as_str()),
            _ => false,
        };
        if blank {
            return Ok(Vec::new());
        }
        match crate::broker::document(reply) {
            Some(doc) => match read_alerts(&doc) {
                Some(alerts) => Ok(alerts),
                None => Err(crate::broker::unreadable_body(reply)),
            },
            None => Err(crate::broker::unreadable_body(reply)),
        }
    }

    /// The storm signal: what the alerts add up to, but no more than 1.0.
    /// Alerts that could not be fetched give the neutral signal, 0.
    pub fn calculate_storm_signal(&self, fetched: &Result<Vec<Properties>, BrokerError>) -> (r:
        Decimal)
        ensures
            r@ == match *fetched {
                Ok(alerts) => storm_signal_of(alerts@),
                Err(_) => 0,
            },
    {
        match fetched {
            Err(_) => Decimal::zero(),
            Ok(alerts) => {
                let mut total: i64 = 0;
                let mut i: usize = 0;
                proof {
                    assert(alerts@.take(0) =~= Seq::<Properties>::empty());
                }
                while i < alerts.len()
                    invariant
                        i <= alerts.len(),
                        0 <= total <= STORM_CAP,
                        total == storm_signal_of(alerts@.take(i as int)),
                    decreases alerts.len() - i,
                {
                    let add = strength(&alerts[i]);
                    proof {
                        let upto = alerts@.take(i + 1);
                        assert(upto.drop_last() =~= alerts@.take(i as int));
                        assert(upto.last() == alerts@[i as int]);
                        lemma_storm_sum_grows(alerts@.take(i as int));
                    }
                    total = total + add;
                    if total > STORM_CAP {
                        total = STORM_CAP;
                    }
                    i = i + 1;
                }
                proof {
                    assert(alerts@.take(i as int) =~= alerts@);
                }
                match Decimal::from_micros(total) {
                    Some(d) => d,
                    None => Decimal::zero(),
                }
            },
        }
    }
}

} // verus!
