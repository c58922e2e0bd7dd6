use vstd::prelude::*;
use crate::client::{opt_view, signed_query, Client, Method, Request};
use crate::config::Config;
use crate::encode::Params;
use crate::error::Error;

verus! {

/// The API families, each served from a host of its own.
#[derive(Clone, Copy, PartialEq, Eq, Structural, Debug)]
pub enum Family {
    /// Spot, margin, wallet, savings and the spot user-data stream.
    Spot,
    /// USD-margined futures and their user-data stream.
    Futures,
    /// Coin-margined futures.
    CoinFutures,
}

/// The host that a configuration gives a family.
pub open spec fn host_of(family: Family, config: Config) -> Seq<char> {
    match family {
        Family::Spot => config.rest_api_endpoint@,
        Family::Futures => config.futures_rest_api_endpoint@,
        Family::CoinFutures => config.coin_futures_rest_api_endpoint@,
    }
}

/// A client for one family, with the receive window its signed calls carry.
#[derive(Clone)]
pub struct Service {
    pub family: Family,
    pub client: Client,
    pub recv_window: u64,
    pub binance_us_api: bool,
}

/// Builds the service of a family: the family's host, the configured timeout,
/// receive window and API flavour, and the credentials as given.
pub fn service_for(family: Family, api_key: Option<String>, secret_key: Option<String>, config: &Config) -> (r: Service)
    ensures
        r.family == family,
        r.client.api_key == api_key,
        r.client.secret_key == secret_key,
        r.client.host@ == host_of(family, *config),
        r.client.timeout == config.timeout,
        r.recv_window == config.recv_window,
        r.binance_us_api == config.binance_us_api,
{
    let host = match family {
        Family::Spot => config.rest_api_endpoint.clone(),
        Family::Futures => config.futures_rest_api_endpoint.clone(),
        Family::CoinFutures => config.coin_futures_rest_api_endpoint.clone(),
    };
    Service {
        family,
        client: Client::new(api_key, secret_key, host, config.timeout),
        recv_window: config.recv_window,
        binance_us_api: config.binance_us_api,
    }
}

impl Service {
    /// A signed request on this service, carrying its receive window; it fails
    /// before anything is sent when the API key or the secret is missing.
    pub fn signed_request(&self, method: Method, path: &str, params: Params, timestamp: u64) -> (r: Result<Request, Error>)
        ensures
            self.client.api_key is None || self.client.secret_key is None <==> r matches Err(Error::Configuration(_)),
            self.client.api_key is Some && self.client.secret_key is Some <==> r is Ok,
            r is Ok ==> {
                let q = r->Ok_0;
                &&& q.method == method
                &&& q.url@ == self.client.host@ + path@
                &&& q.query@ == signed_query(
                    self.client.secret_key->Some_0@,
                    params@,
                    self.recv_window as nat,
                    timestamp as nat,
                )
                &&& opt_view(q.api_key) == opt_view(self.client.api_key)
            },
    {
        self.client.signed_request(method, path, params, self.recv_window, timestamp)
    }

    /// A request to a key-only endpoint on this service (a user-data stream
    /// key, for one); it fails before anything is sent without an API key.
    pub fn keyed_request(&self, method: Method, path: &str, params: &Params) -> (r: Result<Request, Error>)
        ensures
            self.client.api_key is None <==> r matches Err(Error::Configuration(_)),
            self.client.api_key is Some <==> r is Ok,
            r is Ok ==> {
                let q = r->Ok_0;
                &&& q.method == method
                &&& q.url@ == self.client.host@ + path@
                &&& q.query@ == crate::encode::canonical(params@)
                &&& opt_view(q.api_key) == opt_view(self.client.api_key)
            },
    {
        self.client.keyed_request(method, path, params)
    }
}

} // verus!
