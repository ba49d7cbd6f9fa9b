//! What the three data feeds have in common: the shape of a request.

use crate::broker::BrokerError;
use vstd::prelude::*;
use vstd::string::*;

verus! {

/// One parameter of a query string.
#[derive(Debug)]
pub struct QueryParam {
    pub name: String,
    pub value: String,
}

/// A GET request to a data feed.
#[derive(Debug)]
pub struct DataRequest {
    pub url: String,
    pub query: Vec<QueryParam>,
    pub user_agent: Option<String>,
}

/// Why a data feed gave nothing.
#[derive(Debug)]
pub enum FeedError {
    /// The feed's key is not configured, so nothing was asked.
    NotConfigured,
    /// The region is not written as "latitude,longitude".
    InvalidRegion,
    /// The time given is outside the calendar.
    InvalidTime,
    /// The request failed or its answer could not be read.
    Failed(BrokerError),
}

impl QueryParam {
    /// The parameter `name=value`.
    pub open spec fn is(&self, name: Seq<char>, value: Seq<char>) -> bool {
        self.name@ == name && self.value@ == value
    }

    /// The parameter `name=value`.
    pub fn new(name: &str, value: &str) -> (r: QueryParam)
        ensures
            r.is(name@, value@),
    {
        QueryParam { name: name.to_owned(), value: value.to_owned() }
    }
}

} // verus!
