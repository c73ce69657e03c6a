//! Decoding of the IEX Transport Protocol (IEX-TP) market-data feeds, TOPS and
//! DEEP, and the request paths of the IEX Stocks REST API.
use vstd::prelude::*;

pub mod endpoints;
pub mod iextp;

pub use self::endpoints::{ChartParam, Duration, Endpoint, ListParam, StocksEndpoint};

verus! {

/// The base URL of the IEX API.
pub const IEX_URL: &'static str = "https://api.iextrading.com/1.0";

/// The handle through which requests of the IEX API are made.
#[derive(Clone, Copy, Debug, Default, PartialEq, Eq, Structural)]
pub struct Client;

impl Client {
    pub fn new() -> (r: Client)
        ensures
            r == Client,
    {
        Client
    }

    /// The URL of the request `req` about `symbol`:
    /// `{IEX_URL}/stock/{symbol}/{path of req}`.
    pub fn stocks_url(&self, symbol: &str, req: StocksEndpoint) -> (r: String)
        ensures
            r@ == IEX_URL@ + "/stock/"@ + symbol@ + "/"@ + req.path(),
    {
        let mut url = String::from_str(IEX_URL);
        url.append("/stock/");
        url.append(symbol);
        url.append("/");
        url.append(req.to_endpoint().as_str());
        url
    }
}

} // verus!
