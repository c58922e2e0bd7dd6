use vstd::prelude::*;
use crate::api::Binance;
use crate::client::{Client, Method, Request};
use crate::config::Config;
use crate::encode::Params;
use crate::error::{result_view, Error, ErrorView};
use crate::json::{json_node_of, Node, NodeView};
use crate::response::{classified, classify};
use crate::rest_model::{
    exchange_info_of, server_time_of, CoinFutureExchangeInformation, CoinFutureSymbol,
    ExchangeInfoView, ServerTime, SymbolView, symbols_view,
};

verus! {

/// The uppercase form of a string.
pub uninterp spec fn upper_of(s: Seq<char>) -> Seq<char>;

/// Relies on `str::to_uppercase`: each character mapped to its uppercase
/// form by Unicode's rules, which depend on the characters alone.
#[verifier::external_body]
fn to_upper(s: &str) -> (r: String)
    ensures
        r@ == upper_of(s@),
{
    s.to_uppercase()
}

/// The general endpoints of the coin-margined futures API.
#[derive(Clone)]
pub struct FuturesGeneral {
    pub client: Client,
}

/// What `ping` gives for a response: `"pong"` for an empty object.
pub open spec fn ping_outcome(status: u16, body: Seq<char>) -> Result<Seq<char>, ErrorView> {
    match classified(status, body, json_node_of(body)) {
        Ok(NodeView::Object(fs)) => if fs.len() == 0 {
            Ok("pong"@)
        } else {
            Err(ErrorView::SchemaMismatch(body))
        },
        Ok(_) => Err(ErrorView::SchemaMismatch(body)),
        Err(e) => Err(e),
    }
}

/// What `get_server_time` gives for a response.
pub open spec fn server_time_outcome(status: u16, body: Seq<char>) -> Result<i64, ErrorView> {
    match classified(status, body, json_node_of(body)) {
        Ok(NodeView::Object(fs)) => match server_time_of(fs) {
            Some(t) => Ok(t),
            None => Err(ErrorView::SchemaMismatch(body)),
        },
        Ok(_) => Err(ErrorView::SchemaMismatch(body)),
        Err(e) => Err(e),
    }
}

/// What `exchange_info` gives for a response.
pub open spec fn exchange_info_outcome(status: u16, body: Seq<char>) -> Result<ExchangeInfoView, ErrorView> {
    match classified(status, body, json_node_of(body)) {
        Ok(NodeView::Object(fs)) => match exchange_info_of(fs) {
            Some(x) => Ok(x),
            None => Err(ErrorView::SchemaMismatch(body)),
        },
        Ok(_) => Err(ErrorView::SchemaMismatch(body)),
        Err(e) => Err(e),
    }
}

/// The first record at or after position `i` whose symbol is `name`.
pub open spec fn symbol_from(ss: Seq<SymbolView>, name: Seq<char>, i: int) -> Option<SymbolView>
    decreases ss.len() - i,
{
    if i < 0 || i >= ss.len() {
        None
    } else if ss[i].symbol == name {
        Some(ss[i])
    } else {
        symbol_from(ss, name, i + 1)
    }
}

/// The record of `name` among `ss`, or the unknown-symbol error with `asked`.
pub open spec fn lookup_outcome(ss: Seq<SymbolView>, name: Seq<char>, asked: Seq<char>) -> Result<SymbolView, ErrorView> {
    match symbol_from(ss, name, 0) {
        Some(s) => Ok(s),
        None => Err(ErrorView::UnknownSymbol(asked)),
    }
}

/// What `get_symbol_info` gives for `symbol` and a response to the
/// exchange information request: the record whose symbol is the uppercase
/// form of `symbol`.
pub open spec fn symbol_info_outcome(symbol: Seq<char>, status: u16, body: Seq<char>) -> Result<SymbolView, ErrorView> {
    match exchange_info_outcome(status, body) {
        Ok(x) => lookup_outcome(x.symbols, upper_of(symbol), symbol),
        Err(e) => Err(e),
    }
}

/// Finds the record whose symbol is `name`; the error names `asked`, the
/// symbol as the caller wrote it.
pub fn find_symbol(symbols: Vec<CoinFutureSymbol>, name: &str, asked: String) -> (r: Result<CoinFutureSymbol, Error>)
    ensures
        result_view(r) == lookup_outcome(symbols_view(symbols@), name@, asked@),
{
    let ghost ss = symbols_view(symbols@);
    let target = name.to_owned();
    let mut list = symbols;
    let mut i: usize = 0;
    while i < list.len()
        invariant
            0 <= i <= list@.len(),
            ss == symbols_view(list@),
            ss == symbols_view(symbols@),
            target@ == name@,
            symbol_from(ss, name@, 0) == symbol_from(ss, name@, i as int),
        decreases list@.len() - i,
    {
        if list[i].symbol == target {
            let found = list.remove(i);
            assert(ss[i as int] == found@);
            return Ok(found);
        }
        i = i + 1;
    }
    Err(Error::UnknownSymbol(asked))
}

impl Binance for FuturesGeneral {
    /// The client keeps the credentials as given and uses the coin-margined
    /// futures host and the configured timeout.
    open spec fn built_from(&self, api_key: Option<String>, secret_key: Option<String>, config: Config) -> bool {
        &&& self.client.api_key == api_key
        &&& self.client.secret_key == secret_key
        &&& self.client.host@ == config.coin_futures_rest_api_endpoint@
        &&& self.client.timeout == config.timeout
    }

    fn new_with_config(api_key: Option<String>, secret_key: Option<String>, config: &Config) -> (r: FuturesGeneral)
        ensures
            r.client.api_key == api_key,
            r.client.secret_key == secret_key,
            r.client.host@ == config.coin_futures_rest_api_endpoint@,
            r.client.timeout == config.timeout,
    {
        FuturesGeneral {
            client: Client::new(api_key, secret_key, config.coin_futures_rest_api_endpoint.clone(), config.timeout),
        }
    }
}

impl FuturesGeneral {
    /// The request that tests connectivity.
    pub fn ping_request(&self) -> (r: Request)
        ensures
            r.method == Method::Get,
            r.url@ == self.client.host@ + "/dapi/v1/ping"@,
            r.query@.len() == 0,
            r.api_key is None,
    {
        self.client.public_request(Method::Get, "/dapi/v1/ping", &Params::new())
    }

    /// Tests connectivity: the answer to `ping_request` must be an empty object.
    pub fn ping(&self, status: u16, body: &str) -> (r: Result<String, Error>)
        ensures
            result_view(r) == ping_outcome(status, body@),
    {
        match classify(status, body) {
            Ok(Node::Object(fs)) => {
                if fs.len() == 0 {
                    Ok("pong".to_owned())
                } else {
                    Err(Error::SchemaMismatch(body.to_owned()))
                }
            },
            Ok(_) => Err(Error::SchemaMismatch(body.to_owned())),
            Err(e) => Err(e),
        }
    }

    /// The request for the server's clock.
    pub fn server_time_request(&self) -> (r: Request)
        ensures
            r.method == Method::Get,
            r.url@ == self.client.host@ + "/dapi/v1/time"@,
            r.query@.len() == 0,
            r.api_key is None,
    {
        self.client.public_request(Method::Get, "/dapi/v1/time", &Params::new())
    }

    /// Reads the server's clock from the answer to `server_time_request`.
    pub fn get_server_time(&self, status: u16, body: &str) -> (r: Result<ServerTime, Error>)
        ensures
            match r {
                Ok(t) => server_time_outcome(status, body@) == Ok::<i64, ErrorView>(t.server_time),
                Err(e) => server_time_outcome(status, body@) == Err::<i64, ErrorView>(e@),
            },
    {
        match classify(status, body) {
            Ok(Node::Object(fs)) => match ServerTime::from_fields(&fs) {
                Some(t) => Ok(t),
                None => Err(Error::SchemaMismatch(body.to_owned())),
            },
            Ok(_) => Err(Error::SchemaMismatch(body.to_owned())),
            Err(e) => Err(e),
        }
    }

    /// The request for the exchange's trading rules and symbols.
    pub fn exchange_info_request(&self) -> (r: Request)
        ensures
            r.method == Method::Get,
            r.url@ == self.client.host@ + "/dapi/v1/exchangeInfo"@,
            r.query@.len() == 0,
            r.api_key is None,
    {
        self.client.public_request(Method::Get, "/dapi/v1/exchangeInfo", &Params::new())
    }

    /// Reads the exchange information from the answer to `exchange_info_request`.
    pub fn exchange_info(&self, status: u16, body: &str) -> (r: Result<CoinFutureExchangeInformation, Error>)
        ensures
            result_view(r) == exchange_info_outcome(status, body@),
    {
        match classify(status, body) {
            Ok(Node::Object(fs)) => match CoinFutureExchangeInformation::from_fields(&fs) {
                Some(x) => Ok(x),
                None => Err(Error::SchemaMismatch(body.to_owned())),
            },
            Ok(_) => Err(Error::SchemaMismatch(body.to_owned())),
            Err(e) => Err(e),
        }
    }

    /// Finds `symbol`, in any case, in the answer to `exchange_info_request`.
    pub fn get_symbol_info(&self, symbol: String, status: u16, body: &str) -> (r: Result<CoinFutureSymbol, Error>)
        ensures
            result_view(r) == symbol_info_outcome(symbol@, status, body@),
    {
        let upper = to_upper(symbol.as_str());
        match self.exchange_info(status, body) {
            Ok(info) => find_symbol(info.symbols, upper.as_str(), symbol),
            Err(e) => Err(e),
        }
    }
}

} // verus!
