//! The one HTTP request of a lookup.

use vstd::prelude::*;
use vstd::string::StringExecFns;
use crate::settings::{Settings, SettingsView};

verus! {

/// The method of a request. A lookup only ever reads.
#[derive(Clone, Copy, Debug, PartialEq, Eq, Structural)]
pub enum Method {
    Get,
}

/// A request, described by what the sender needs: the method, the address
/// without its query, the query parameters still unencoded, and the headers.
#[derive(Clone, Debug, PartialEq, Eq)]
pub struct HttpRequest {
    pub method: Method,
    pub url: String,
    pub query: Vec<(String, String)>,
    pub headers: Vec<(String, String)>,
}

/// What an `HttpRequest` holds, as sequences of characters.
pub struct HttpRequestView {
    pub method: Method,
    pub url: Seq<char>,
    pub query: Seq<(Seq<char>, Seq<char>)>,
    pub headers: Seq<(Seq<char>, Seq<char>)>,
}

impl View for HttpRequest {
    type V = HttpRequestView;

    open spec fn view(&self) -> HttpRequestView {
        HttpRequestView {
            method: self.method,
            url: self.url@,
            query: self.query.deep_view(),
            headers: self.headers.deep_view(),
        }
    }
}

/// The request for the arrivals at the stop `busstopcode`: a GET of
/// `BusArrival` under the configured address, with the stop as the query
/// parameter `BusStopCode`, the account key in the header `AccountKey`, and
/// JSON asked for in the header `Accept`.
pub open spec fn arrival_request_spec(
    settings: SettingsView,
    busstopcode: Seq<char>,
) -> HttpRequestView {
    HttpRequestView {
        method: Method::Get,
        url: settings.api_url + "/BusArrival"@,
        query: seq![("BusStopCode"@, busstopcode)],
        headers: seq![
            ("AccountKey"@, settings.api_account_key),
            ("Accept"@, "application/json"@),
        ],
    }
}

/// Builds the request for the arrivals at the stop `busstopcode`.
pub fn arrival_request(settings: &Settings, busstopcode: &str) -> (out: HttpRequest)
    ensures
        out@ == arrival_request_spec(settings@, busstopcode@),
{
    let mut url = settings.api_url.clone();
    url.append("/BusArrival");
    let mut query: Vec<(String, String)> = Vec::new();
    query.push((String::from_str("BusStopCode"), String::from_str(busstopcode)));
    let mut headers: Vec<(String, String)> = Vec::new();
    headers.push((String::from_str("AccountKey"), settings.api_account_key.clone()));
    headers.push((String::from_str("Accept"), String::from_str("application/json")));
    let out = HttpRequest { method: Method::Get, url, query, headers };
    assert(out@.query =~= arrival_request_spec(settings@, busstopcode@).query);
    assert(out@.headers =~= arrival_request_spec(settings@, busstopcode@).headers);
    out
}

} // verus!
