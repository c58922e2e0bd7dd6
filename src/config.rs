use vstd::prelude::*;

verus! {

/// Where each API family lives, the receive window that signed calls carry,
/// and the request timeout in seconds.
pub struct Config {
    pub rest_api_endpoint: String,
    pub futures_rest_api_endpoint: String,
    pub coin_futures_rest_api_endpoint: String,
    pub recv_window: u64,
    pub timeout: Option<u64>,
    pub binance_us_api: bool,
}

/// The default configuration: the public hosts, a receive window of 5000 ms
/// and no timeout.
pub open spec fn is_default_config(c: Config) -> bool {
    &&& c.rest_api_endpoint@ == "https://api.binance.com"@
    &&& c.futures_rest_api_endpoint@ == "https://fapi.binance.com"@
    &&& c.coin_futures_rest_api_endpoint@ == "https://dapi.binance.com"@
    &&& c.recv_window == 5000
    &&& c.timeout is None
    &&& !c.binance_us_api
}

impl Default for Config {
    fn default() -> (r: Config)
        ensures
            is_default_config(r),
    {
        Config {
            rest_api_endpoint: "https://api.binance.com".to_owned(),
            futures_rest_api_endpoint: "https://fapi.binance.com".to_owned(),
            coin_futures_rest_api_endpoint: "https://dapi.binance.com".to_owned(),
            recv_window: 5000,
            timeout: None,
            binance_us_api: false,
        }
    }
}

} // verus!
