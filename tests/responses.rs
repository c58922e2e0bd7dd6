use binance_core::api::Binance;
use binance_core::coin_futures::general::{find_symbol, FuturesGeneral};
use binance_core::error::Error;
use binance_core::json::{parse_node, Item, Node};
use binance_core::response::{classify, error_envelope};
use binance_core::rest_model::ServerTime;

fn general() -> FuturesGeneral {
    FuturesGeneral::new(None, None)
}

const INVALID_SYMBOL: &str = r#"{"code": -1121, "msg": "Invalid symbol."}"#;

#[test]
fn envelope_is_an_exchange_error_with_a_failure_status() {
    match classify(400, INVALID_SYMBOL) {
        Err(Error::Exchange { code, msg }) => {
            assert_eq!(code, -1121);
            assert_eq!(msg, "Invalid symbol.");
        }
        other => panic!("unexpected {:?}", other),
    }
}

#[test]
fn envelope_is_an_exchange_error_with_a_success_status() {
    assert!(matches!(classify(200, INVALID_SYMBOL), Err(Error::Exchange { code: -1121, .. })));
    assert!(matches!(classify(503, INVALID_SYMBOL), Err(Error::Exchange { code: -1121, .. })));
}

#[test]
fn envelope_with_a_string_code_is_not_an_envelope() {
    let body = r#"{"code": "-1121", "msg": "Invalid symbol."}"#;
    assert!(matches!(classify(200, body), Ok(Node::Object(_))));
    match classify(400, body) {
        Err(Error::Unparseable(raw)) => assert_eq!(raw, body),
        other => panic!("unexpected {:?}", other),
    }
}

#[test]
fn failure_status_with_other_body_carries_the_raw_text() {
    match classify(502, "<html>Bad Gateway</html>") {
        Err(Error::Unparseable(raw)) => assert_eq!(raw, "<html>Bad Gateway</html>"),
        other => panic!("unexpected {:?}", other),
    }
}

#[test]
fn success_status_with_non_json_body_is_a_schema_mismatch() {
    match classify(200, "pong") {
        Err(Error::SchemaMismatch(raw)) => assert_eq!(raw, "pong"),
        other => panic!("unexpected {:?}", other),
    }
}

#[test]
fn parse_node_keeps_nested_values_as_text() {
    match parse_node(r#"{"a": [1, 2], "b": "x", "c": 1.5, "d": null, "e": true}"#) {
        Some(Node::Object(fs)) => {
            assert_eq!(fs.len(), 5);
            assert_eq!(fs[0].0, "a");
            assert!(matches!(&fs[0].1, Item::Nested(t) if t == "[1,2]"));
            assert!(matches!(&fs[1].1, Item::Str(s) if s == "x"));
            assert!(matches!(fs[2].1, Item::Number(None)));
            assert!(matches!(fs[3].1, Item::Null));
            assert!(matches!(fs[4].1, Item::Bool(true)));
        }
        other => panic!("unexpected {:?}", other),
    }
    assert!(parse_node("{").is_none());
    assert!(matches!(parse_node("[7]"), Some(Node::Array(v)) if matches!(v[0], Item::Number(Some(7)))));
}

#[test]
fn error_envelope_reads_code_and_message() {
    let (code, msg) = error_envelope(&parse_node(INVALID_SYMBOL)).unwrap();
    assert_eq!(code, -1121);
    assert_eq!(msg, "Invalid symbol.");
    assert!(error_envelope(&parse_node("{}")).is_none());
    assert!(error_envelope(&None).is_none());
}

#[test]
fn ping_of_an_empty_object_is_pong() {
    assert_eq!(general().ping(200, "{}").unwrap(), "pong");
}

#[test]
fn ping_of_a_non_empty_object_carries_the_raw_body() {
    match general().ping(200, r#"{"a":1}"#) {
        Err(Error::SchemaMismatch(raw)) => assert_eq!(raw, r#"{"a":1}"#),
        other => panic!("unexpected {:?}", other),
    }
    assert!(matches!(general().ping(200, "[]"), Err(Error::SchemaMismatch(_))));
    assert!(matches!(general().ping(400, INVALID_SYMBOL), Err(Error::Exchange { code: -1121, .. })));
}

#[test]
fn server_time_is_read() {
    let t = general().get_server_time(200, r#"{"serverTime": 1499827319559}"#).unwrap();
    assert_eq!(t.server_time, 1499827319559);
    assert!(matches!(general().get_server_time(200, r#"{"serverTime": "soon"}"#), Err(Error::SchemaMismatch(_))));
}

#[test]
fn server_time_fields_read_back() {
    let t = ServerTime { server_time: 1234 };
    let back = ServerTime::from_fields(&t.to_fields()).unwrap();
    assert_eq!(back.server_time, 1234);
}

fn symbol_json(name: &str, pair: &str) -> String {
    format!(
        r#"{{"symbol":"{}","pair":"{}","contractType":"PERPETUAL","deliveryDate":4133404800000,"contractStatus":"TRADING","marginAsset":"BTC","contractSize":100,"pricePrecision":1,"quantityPrecision":0}}"#,
        name, pair
    )
}

fn exchange_info_json() -> String {
    format!(
        r#"{{"timezone":"UTC","serverTime":1700000000000,"rateLimits":[],"symbols":[{},{}]}}"#,
        symbol_json("ETHUSD_PERP", "ETHUSD"),
        symbol_json("BTCUSDT", "BTCUSDT")
    )
}

#[test]
fn exchange_info_is_read() {
    let info = general().exchange_info(200, &exchange_info_json()).unwrap();
    assert_eq!(info.timezone, "UTC");
    assert_eq!(info.server_time, 1700000000000);
    assert_eq!(info.symbols.len(), 2);
    assert_eq!(info.symbols[0].symbol, "ETHUSD_PERP");
    assert_eq!(info.symbols[1].contract_size, 100);
    assert_eq!(info.symbols[1].price_precision, 1);
    assert_eq!(info.symbols[1].quantity_precision, 0);
}

#[test]
fn exchange_info_with_a_bad_symbol_is_a_schema_mismatch() {
    let body = r#"{"timezone":"UTC","serverTime":1,"symbols":[{"symbol":"X"}]}"#;
    assert!(matches!(general().exchange_info(200, body), Err(Error::SchemaMismatch(_))));
}

#[test]
fn symbol_info_is_found_in_any_case() {
    let s = general().get_symbol_info("btcusdt".to_string(), 200, &exchange_info_json()).unwrap();
    assert_eq!(s.symbol, "BTCUSDT");
    assert_eq!(s.pair, "BTCUSDT");
    assert_eq!(s.contract_type, "PERPETUAL");
    assert_eq!(s.contract_status, "TRADING");
    assert_eq!(s.margin_asset, "BTC");
}

#[test]
fn unknown_symbol_carries_the_name_as_given() {
    match general().get_symbol_info("dogeusd".to_string(), 200, &exchange_info_json()) {
        Err(Error::UnknownSymbol(name)) => assert_eq!(name, "dogeusd"),
        other => panic!("unexpected {:?}", other),
    }
}

#[test]
fn symbol_info_passes_exchange_errors_on() {
    let r = general().get_symbol_info("btcusdt".to_string(), 400, INVALID_SYMBOL);
    assert!(matches!(r, Err(Error::Exchange { code: -1121, .. })));
}

#[test]
fn find_symbol_compares_exactly() {
    let info = general().exchange_info(200, &exchange_info_json()).unwrap();
    let r = find_symbol(info.symbols, "btcusdt", "btcusdt".to_string());
    assert!(matches!(r, Err(Error::UnknownSymbol(ref n)) if n == "btcusdt"));
    let info = general().exchange_info(200, &exchange_info_json()).unwrap();
    assert_eq!(find_symbol(info.symbols, "ETHUSD_PERP", "x".to_string()).unwrap().pair, "ETHUSD");
}
