use binance_core::api::Binance;
use binance_core::client::{Client, Method};
use binance_core::config::Config;
use binance_core::encode::Params;
use binance_core::error::Error;
use binance_core::service::{service_for, Family};
use binance_core::text::decimal_string;

fn params(pairs: &[(&str, &str)]) -> Params {
    let mut p = Params::new();
    for (k, v) in pairs {
        p.push(k.to_string(), v.to_string());
    }
    p
}

fn text(b: Vec<u8>) -> String {
    String::from_utf8(b).unwrap()
}

#[test]
fn encode_keeps_the_order_given() {
    let ab = text(params(&[("a", "1"), ("b", "2")]).encode());
    let ba = text(params(&[("b", "2"), ("a", "1")]).encode());
    assert_eq!(ab, "a=1&b=2");
    assert_eq!(ba, "b=2&a=1");
    assert_ne!(ab, ba);
}

#[test]
fn encode_of_no_parameters_is_empty() {
    assert!(Params::new().encode().is_empty());
}

#[test]
fn encode_keeps_repeated_keys() {
    assert_eq!(text(params(&[("a", "1"), ("a", "2")]).encode()), "a=1&a=2");
}

#[test]
fn encode_escapes_reserved_and_non_ascii_bytes() {
    let q = text(params(&[("note", "a b&c=d"), ("x~y", "é")]).encode());
    assert_eq!(q, "note=a%20b%26c%3Dd&x~y=%C3%A9");
}

#[test]
fn encode_twice_gives_the_same_bytes() {
    let p = params(&[("symbol", "BTCUSD_PERP"), ("limit", "5")]);
    assert_eq!(p.encode(), p.encode());
}

#[test]
fn decimal_digits() {
    assert_eq!(decimal_string(0), "0");
    assert_eq!(decimal_string(7), "7");
    assert_eq!(decimal_string(5000), "5000");
    assert_eq!(decimal_string(u64::MAX), "18446744073709551615");
}

fn signing_client() -> Client {
    Client::new(
        Some("vmPUZE6mv9SD5VNHk4HlWFsOr6aKE2zvsw0MuIgwCIPy6utIco14y7Ju91duEh8A".to_string()),
        Some("NhqPtmdSJYdKjVHjA7PZj4Mge3R5YNiP1e3UZjInClVN65XAbvqqM6A7H5fATj0j".to_string()),
        "https://api.binance.com".to_string(),
        None,
    )
}

#[test]
fn signed_request_matches_the_published_example() {
    let p = params(&[
        ("symbol", "LTCBTC"),
        ("side", "BUY"),
        ("type", "LIMIT"),
        ("timeInForce", "GTC"),
        ("quantity", "1"),
        ("price", "0.1"),
    ]);
    let r = signing_client().signed_request(Method::Post, "/api/v3/order", p, 5000, 1499827319559).unwrap();
    assert_eq!(r.method, Method::Post);
    assert_eq!(r.url, "https://api.binance.com/api/v3/order");
    assert_eq!(
        text(r.query),
        "symbol=LTCBTC&side=BUY&type=LIMIT&timeInForce=GTC&quantity=1&price=0.1&recvWindow=5000&timestamp=1499827319559\
         &signature=c8db56825ae71d6d79447849e617115f4a920fa2acdcab2b053c4b2838bd6b71"
    );
    assert_eq!(
        r.api_key.as_deref(),
        Some("vmPUZE6mv9SD5VNHk4HlWFsOr6aKE2zvsw0MuIgwCIPy6utIco14y7Ju91duEh8A")
    );
}

#[test]
fn signed_request_is_deterministic_and_sends_what_it_signs() {
    let make = || params(&[("symbol", "BTCUSD_PERP")]);
    let a = text(signing_client().signed_request(Method::Get, "/dapi/v1/order", make(), 6000, 42).unwrap().query);
    let b = text(signing_client().signed_request(Method::Get, "/dapi/v1/order", make(), 6000, 42).unwrap().query);
    assert_eq!(a, b);
    let (payload, signature) = a.split_once("&signature=").unwrap();
    assert_eq!(payload, "symbol=BTCUSD_PERP&recvWindow=6000&timestamp=42");
    assert_eq!(signature.len(), 64);
    assert!(signature.bytes().all(|c| c.is_ascii_digit() || (b'a'..=b'f').contains(&c)));
    let c = text(signing_client().signed_request(Method::Get, "/dapi/v1/order", make(), 6000, 43).unwrap().query);
    assert_ne!(a.split_once("&signature=").unwrap().1, c.split_once("&signature=").unwrap().1);
}

#[test]
fn signed_request_without_secret_is_a_configuration_error() {
    let c = Client::new(Some("key".to_string()), None, "https://dapi.binance.com".to_string(), None);
    let r = c.signed_request(Method::Get, "/dapi/v1/account", Params::new(), 5000, 1);
    assert!(matches!(r, Err(Error::Configuration(_))));
}

#[test]
fn signed_request_without_key_is_a_configuration_error() {
    let c = Client::new(None, Some("secret".to_string()), "https://dapi.binance.com".to_string(), None);
    let r = c.signed_request(Method::Get, "/dapi/v1/account", Params::new(), 5000, 1);
    assert!(matches!(r, Err(Error::Configuration(_))));
}

#[test]
fn keyed_request_carries_the_key_and_no_signature() {
    let c = Client::new(Some("key".to_string()), None, "https://dapi.binance.com".to_string(), Some(10));
    let r = c.keyed_request(Method::Post, "/dapi/v1/listenKey", &Params::new()).unwrap();
    assert_eq!(r.api_key.as_deref(), Some("key"));
    assert!(r.query.is_empty());
    assert_eq!(r.url, "https://dapi.binance.com/dapi/v1/listenKey");
    assert_eq!(c.timeout(), Some(10));
}

#[test]
fn keyed_request_without_key_is_a_configuration_error() {
    let c = Client::new(None, None, "https://dapi.binance.com".to_string(), None);
    let r = c.keyed_request(Method::Post, "/dapi/v1/listenKey", &Params::new());
    assert!(matches!(r, Err(Error::Configuration(_))));
}

#[test]
fn public_request_has_no_key_header() {
    let c = signing_client();
    let r = c.public_request(Method::Get, "/api/v3/depth", &params(&[("symbol", "BTCUSDT"), ("limit", "5")]));
    assert!(r.api_key.is_none());
    assert_eq!(text(r.query), "symbol=BTCUSDT&limit=5");
}

#[test]
fn default_config_points_at_the_public_hosts() {
    let c = Config::default();
    assert_eq!(c.rest_api_endpoint, "https://api.binance.com");
    assert_eq!(c.futures_rest_api_endpoint, "https://fapi.binance.com");
    assert_eq!(c.coin_futures_rest_api_endpoint, "https://dapi.binance.com");
    assert_eq!(c.recv_window, 5000);
    assert_eq!(c.timeout, None);
    assert!(!c.binance_us_api);
}

#[test]
fn coin_futures_service_uses_the_coin_futures_host() {
    let g = binance_core::coin_futures::general::FuturesGeneral::new(None, None);
    assert_eq!(g.client.host, "https://dapi.binance.com");
    let r = g.ping_request();
    assert_eq!(r.url, "https://dapi.binance.com/dapi/v1/ping");
    assert_eq!(r.method, Method::Get);
    assert_eq!(g.server_time_request().url, "https://dapi.binance.com/dapi/v1/time");
    assert_eq!(g.exchange_info_request().url, "https://dapi.binance.com/dapi/v1/exchangeInfo");
}

#[test]
fn coin_futures_service_takes_its_host_and_timeout_from_the_config() {
    let mut config = Config::default();
    config.coin_futures_rest_api_endpoint = "https://testnet.binancefuture.com".to_string();
    config.rest_api_endpoint = "https://spot.invalid".to_string();
    config.timeout = Some(7);
    let g = binance_core::coin_futures::general::FuturesGeneral::new_with_config(
        Some("key".to_string()),
        None,
        &config,
    );
    assert_eq!(g.client.host, "https://testnet.binancefuture.com");
    assert_eq!(g.client.timeout, Some(7));
    assert_eq!(g.client.api_key.as_deref(), Some("key"));
    assert!(g.client.secret_key.is_none());
    let copy = g.clone();
    assert_eq!(copy.ping_request().url, "https://testnet.binancefuture.com/dapi/v1/ping");
}

#[test]
fn signed_query_starts_with_the_callers_parameters_in_order() {
    let p = params(&[("b", "2"), ("a", "1")]);
    let q = text(signing_client().signed_request(Method::Post, "/dapi/v1/order", p, 5000, 9).unwrap().query);
    assert!(q.starts_with("b=2&a=1&recvWindow=5000&timestamp=9&signature="));
}

#[test]
fn each_family_gets_its_own_host() {
    let mut config = Config::default();
    config.recv_window = 7000;
    config.timeout = Some(3);
    config.binance_us_api = true;
    let spot = service_for(Family::Spot, None, None, &config);
    let futures = service_for(Family::Futures, None, None, &config);
    let coin = service_for(Family::CoinFutures, Some("k".to_string()), Some("s".to_string()), &config);
    assert_eq!(spot.client.host, "https://api.binance.com");
    assert_eq!(futures.client.host, "https://fapi.binance.com");
    assert_eq!(coin.client.host, "https://dapi.binance.com");
    assert_eq!(coin.recv_window, 7000);
    assert_eq!(coin.client.timeout, Some(3));
    assert!(coin.binance_us_api);
    assert_eq!(coin.family, Family::CoinFutures);
}

#[test]
fn service_signed_request_carries_the_configured_receive_window() {
    let mut config = Config::default();
    config.recv_window = 7000;
    let svc = service_for(
        Family::Spot,
        Some("vmPUZE6mv9SD5VNHk4HlWFsOr6aKE2zvsw0MuIgwCIPy6utIco14y7Ju91duEh8A".to_string()),
        Some("NhqPtmdSJYdKjVHjA7PZj4Mge3R5YNiP1e3UZjInClVN65XAbvqqM6A7H5fATj0j".to_string()),
        &config,
    );
    let r = svc.signed_request(Method::Get, "/api/v3/account", params(&[("symbol", "LTCBTC")]), 5).unwrap();
    assert!(text(r.query).starts_with("symbol=LTCBTC&recvWindow=7000&timestamp=5&signature="));
    assert_eq!(r.url, "https://api.binance.com/api/v3/account");
    let none = service_for(Family::Spot, None, None, &config);
    assert!(matches!(none.signed_request(Method::Get, "/x", Params::new(), 1), Err(Error::Configuration(_))));
    assert!(matches!(none.keyed_request(Method::Post, "/x", &Params::new()), Err(Error::Configuration(_))));
    let keyed = service_for(Family::Spot, Some("k".to_string()), None, &config);
    assert_eq!(keyed.keyed_request(Method::Post, "/api/v3/userDataStream", &Params::new()).unwrap().api_key.as_deref(), Some("k"));
}
