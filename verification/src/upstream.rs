//! The request that asks the monitoring service for one day of samples, and
//! the ways in which a call to an outside service can fail.

use vstd::prelude::*;
use vstd::string::*;

use crate::config::{Config, ConfigView};
use crate::time::Timestamp;

verus! {

/// The address that asks for the quarter-hour samples of the day `date` at
/// the site `site_id`; the day is both the first and the last of the span.
pub open spec fn telemetry_url_text(
    site_id: Seq<char>,
    date: Seq<char>,
    api_key: Seq<char>,
) -> Seq<char> {
    "https://monitoringapi.solaredge.com/site/"@ + site_id
        + "/energy?timeUnit=QUARTER_OF_AN_HOUR&endDate="@ + date + "&startDate="@ + date
        + "&api_key="@ + api_key
}

/// One request to the monitoring service.
#[derive(Debug, PartialEq)]
pub struct FetchRequest {
    /// The address to get.
    pub url: String,
}

/// Why a call to an outside service, the monitoring service or the
/// messaging service, came to nothing.
#[derive(Debug, PartialEq)]
pub enum OutboundError {
    /// The service could not be reached, or the connection failed.
    Transport(String),
    /// The service answered with a body of another shape.
    Decode(String),
}

/// The status with which a failed call is reported to the client of this
/// service: both kinds are failures of a service behind it.
pub const BAD_GATEWAY: u16 = 502;

impl OutboundError {
    /// The text that describes the failure.
    pub open spec fn message_text(&self) -> Seq<char> {
        match self {
            OutboundError::Transport(text) => text@,
            OutboundError::Decode(text) => text@,
        }
    }

    /// The text that describes the failure.
    pub fn message(&self) -> (text: String)
        ensures
            text@ == self.message_text(),
    {
        match self {
            OutboundError::Transport(text) => text.clone(),
            OutboundError::Decode(text) => text.clone(),
        }
    }

    /// The HTTP status that reports the failure.
    pub fn http_status(&self) -> (status: u16)
        ensures
            status == BAD_GATEWAY,
    {
        BAD_GATEWAY
    }
}

/// Builds the address for the day `date`.
pub fn telemetry_url(site_id: &str, date: &str, api_key: &str) -> (url: String)
    ensures
        url@ == telemetry_url_text(site_id@, date@, api_key@),
{
    let mut url = String::from_str("https://monitoringapi.solaredge.com/site/");
    url.append(site_id);
    url.append("/energy?timeUnit=QUARTER_OF_AN_HOUR&endDate=");
    url.append(date);
    url.append("&startDate=");
    url.append(date);
    url.append("&api_key=");
    url.append(api_key);
    url
}

/// The request for the UTC day in which `now` falls.
pub open spec fn fetch_request_url(config: ConfigView, now: Timestamp) -> Seq<char> {
    telemetry_url_text(config.site_id, now.date_text(), config.telemetry_api_key)
}

/// Builds the request for the UTC day in which `now` falls.
pub fn fetch_request(config: &Config, now: &Timestamp) -> (request: FetchRequest)
    requires
        now.wf(),
    ensures
        request.url@ == fetch_request_url(config@, *now),
{
    let date = now.utc_date();
    FetchRequest {
        url: telemetry_url(
            config.site_id.as_str(),
            date.as_str(),
            config.telemetry_api_key.as_str(),
        ),
    }
}

} // verus!
