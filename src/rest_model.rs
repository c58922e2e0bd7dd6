use vstd::prelude::*;
use crate::json::{field, field_from, fields_view, find_field, json_node_of, parse_node, Item, ItemView, Node, NodeView};

verus! {

/// The string value of a field, if it is a string.
pub open spec fn str_of(i: Option<ItemView>) -> Option<Seq<char>> {
    match i {
        Some(ItemView::Str(s)) => Some(s),
        _ => None,
    }
}

/// The integer value of a field, if it is an integer that fits in `i64`.
pub open spec fn int_of(i: Option<ItemView>) -> Option<i64> {
    match i {
        Some(ItemView::Number(Some(n))) => Some(n),
        _ => None,
    }
}

/// The view of an optional string.
pub open spec fn opt_str(o: Option<String>) -> Option<Seq<char>> {
    match o {
        Some(s) => Some(s@),
        None => None,
    }
}

/// Reads a string field of an object.
pub fn str_field(fs: &Vec<(String, Item)>, key: &str) -> (r: Option<String>)
    ensures
        opt_str(r) == str_of(field(fields_view(fs@), key@)),
{
    match find_field(fs, key) {
        Some(i) => match &fs[i].1 {
            Item::Str(s) => Some(s.clone()),
            _ => None,
        },
        None => None,
    }
}

/// Reads an integer field of an object.
pub fn int_field(fs: &Vec<(String, Item)>, key: &str) -> (r: Option<i64>)
    ensures
        r == int_of(field(fields_view(fs@), key@)),
{
    match find_field(fs, key) {
        Some(i) => match &fs[i].1 {
            Item::Number(Some(n)) => Some(*n),
            _ => None,
        },
        None => None,
    }
}

/// The server's clock, in milliseconds since the epoch.
#[derive(Debug)]
pub struct ServerTime {
    pub server_time: i64,
}

/// `{"serverTime": <integer>}`; other fields do not matter.
pub open spec fn server_time_of(fs: Seq<(Seq<char>, ItemView)>) -> Option<i64> {
    int_of(field(fs, "serverTime"@))
}

/// The fields that a server time is written as.
pub open spec fn server_time_fields(t: i64) -> Seq<(Seq<char>, ItemView)> {
    seq![("serverTime"@, ItemView::Number(Some(t)))]
}

impl ServerTime {
    /// Reads a server time from the fields of an object.
    pub fn from_fields(fs: &Vec<(String, Item)>) -> (r: Option<ServerTime>)
        ensures
            match r {
                Some(t) => server_time_of(fields_view(fs@)) == Some(t.server_time),
                None => server_time_of(fields_view(fs@)) is None,
            },
    {
        match int_field(fs, "serverTime") {
            Some(t) => Some(ServerTime { server_time: t }),
            None => None,
        }
    }

    /// Writes a server time as the fields of an object.
    pub fn to_fields(&self) -> (r: Vec<(String, Item)>)
        ensures
            fields_view(r@) == server_time_fields(self.server_time),
    {
        let mut r: Vec<(String, Item)> = Vec::new();
        r.push(("serverTime".to_owned(), Item::Number(Some(self.server_time))));
        assert(fields_view(r@) =~= server_time_fields(self.server_time));
        r
    }
}

/// A server time written as fields reads back as the same time, and an
/// object read as a server time has the same `serverTime` field as the
/// fields written back from what was read.
pub proof fn lemma_server_time_round_trip(t: i64, fs: Seq<(Seq<char>, ItemView)>)
    ensures
        server_time_of(server_time_fields(t)) == Some(t),
        server_time_of(fs) == Some(t) ==> field(fs, "serverTime"@) == field(server_time_fields(t), "serverTime"@),
{
    assert(field_from(server_time_fields(t), "serverTime"@, 0) == Some(ItemView::Number(Some(t))));
}

/// One contract that the coin-margined futures market lists.
#[derive(Debug)]
pub struct CoinFutureSymbol {
    pub symbol: String,
    pub pair: String,
    pub contract_type: String,
    pub contract_status: String,
    pub margin_asset: String,
    pub contract_size: i64,
    pub price_precision: i64,
    pub quantity_precision: i64,
}

/// The view of a `CoinFutureSymbol`.
pub struct SymbolView {
    pub symbol: Seq<char>,
    pub pair: Seq<char>,
    pub contract_type: Seq<char>,
    pub contract_status: Seq<char>,
    pub margin_asset: Seq<char>,
    pub contract_size: i64,
    pub price_precision: i64,
    pub quantity_precision: i64,
}

impl View for CoinFutureSymbol {
    type V = SymbolView;

    open spec fn view(&self) -> SymbolView {
        SymbolView {
            symbol: self.symbol@,
            pair: self.pair@,
            contract_type: self.contract_type@,
            contract_status: self.contract_status@,
            margin_asset: self.margin_asset@,
            contract_size: self.contract_size,
            price_precision: self.price_precision,
            quantity_precision: self.quantity_precision,
        }
    }
}

/// The views of a list of symbol records.
pub open spec fn symbols_view(ss: Seq<CoinFutureSymbol>) -> Seq<SymbolView> {
    ss.map_values(|s: CoinFutureSymbol| s@)
}

/// A symbol record read from the fields of an object: every listed field
/// must be there with the right kind of value; other fields do not matter.
pub open spec fn symbol_of(fs: Seq<(Seq<char>, ItemView)>) -> Option<SymbolView> {
    let symbol = str_of(field(fs, "symbol"@));
    let pair = str_of(field(fs, "pair"@));
    let contract_type = str_of(field(fs, "contractType"@));
    let contract_status = str_of(field(fs, "contractStatus"@));
    let margin_asset = str_of(field(fs, "marginAsset"@));
    let contract_size = int_of(field(fs, "contractSize"@));
    let price_precision = int_of(field(fs, "pricePrecision"@));
    let quantity_precision = int_of(field(fs, "quantityPrecision"@));
    if symbol is Some && pair is Some && contract_type is Some && contract_status is Some
        && margin_asset is Some && contract_size is Some && price_precision is Some
        && quantity_precision is Some {
        Some(
            SymbolView {
                symbol: symbol->Some_0,
                pair: pair->Some_0,
                contract_type: contract_type->Some_0,
                contract_status: contract_status->Some_0,
                margin_asset: margin_asset->Some_0,
                contract_size: contract_size->Some_0,
                price_precision: price_precision->Some_0,
                quantity_precision: quantity_precision->Some_0,
            },
        )
    } else {
        None
    }
}

/// The fields that a symbol record is written as.
pub open spec fn symbol_fields(s: SymbolView) -> Seq<(Seq<char>, ItemView)> {
    seq![
        ("symbol"@, ItemView::Str(s.symbol)),
        ("pair"@, ItemView::Str(s.pair)),
        ("contractType"@, ItemView::Str(s.contract_type)),
        ("contractStatus"@, ItemView::Str(s.contract_status)),
        ("marginAsset"@, ItemView::Str(s.margin_asset)),
        ("contractSize"@, ItemView::Number(Some(s.contract_size))),
        ("pricePrecision"@, ItemView::Number(Some(s.price_precision))),
        ("quantityPrecision"@, ItemView::Number(Some(s.quantity_precision))),
    ]
}

/// A symbol record written as fields reads back as the same record, and an
/// object read as a symbol record has the same listed fields as the fields
/// written back from what was read.
pub proof fn lemma_symbol_round_trip(s: SymbolView, fs: Seq<(Seq<char>, ItemView)>)
    ensures
        symbol_of(symbol_fields(s)) == Some(s),
        symbol_of(fs) == Some(s) ==> {
            &&& field(fs, "symbol"@) == field(symbol_fields(s), "symbol"@)
            &&& field(fs, "pair"@) == field(symbol_fields(s), "pair"@)
            &&& field(fs, "contractType"@) == field(symbol_fields(s), "contractType"@)
            &&& field(fs, "contractStatus"@) == field(symbol_fields(s), "contractStatus"@)
            &&& field(fs, "marginAsset"@) == field(symbol_fields(s), "marginAsset"@)
            &&& field(fs, "contractSize"@) == field(symbol_fields(s), "contractSize"@)
            &&& field(fs, "pricePrecision"@) == field(symbol_fields(s), "pricePrecision"@)
            &&& field(fs, "quantityPrecision"@) == field(symbol_fields(s), "quantityPrecision"@)
        },
{
    reveal_strlit("symbol");
    reveal_strlit("pair");
    reveal_strlit("contractType");
    reveal_strlit("contractStatus");
    reveal_strlit("marginAsset");
    reveal_strlit("contractSize");
    reveal_strlit("pricePrecision");
    reveal_strlit("quantityPrecision");
    let f = symbol_fields(s);
    let keys = seq!["symbol"@, "pair"@, "contractType"@, "contractStatus"@, "marginAsset"@,
        "contractSize"@, "pricePrecision"@, "quantityPrecision"@];
    assert forall|i: int, j: int| 0 <= i < 8 && 0 <= j < 8 && i != j implies keys[i] != keys[j] by {
        assert(keys[i].len() != keys[j].len() || keys[i][0] != keys[j][0] || keys[i][8] != keys[j][8]);
    }
    assert forall|i: int| 0 <= i < 8 implies f[i].0 == keys[i] by {}
    assert forall|i: int| 0 <= i < 8 implies #[trigger] field(f, keys[i]) == Some(f[i].1) by {
        lemma_field_at(f, keys[i], 0, i);
    }
}

/// Where no field from position `k` up to `i` is named `key` and field `i`
/// is, the first field named `key` from `k` on is field `i`.
proof fn lemma_field_at(fs: Seq<(Seq<char>, ItemView)>, key: Seq<char>, k: int, i: int)
    requires
        0 <= k <= i < fs.len(),
        fs[i].0 == key,
        forall|j: int| k <= j < i ==> fs[j].0 != key,
    ensures
        field_from(fs, key, k) == Some(fs[i].1),
    decreases i - k,
{
    if k < i {
        lemma_field_at(fs, key, k + 1, i);
    }
}

/// A symbol record read from an item that holds a nested object.
pub open spec fn symbol_of_item(i: ItemView) -> Option<SymbolView> {
    match i {
        ItemView::Nested(t) => match json_node_of(t) {
            Some(NodeView::Object(fs)) => symbol_of(fs),
            _ => None,
        },
        _ => None,
    }
}

/// All symbol records of an array, in order; `None` if any item is not one.
pub open spec fn symbols_of(items: Seq<ItemView>) -> Option<Seq<SymbolView>>
    decreases items.len(),
{
    if items.len() == 0 {
        Some(seq![])
    } else {
        match (symbols_of(items.drop_last()), symbol_of_item(items.last())) {
            (Some(ss), Some(s)) => Some(ss.push(s)),
            _ => None,
        }
    }
}

impl CoinFutureSymbol {
    /// Reads a symbol record from the fields of an object.
    pub fn from_fields(fs: &Vec<(String, Item)>) -> (r: Option<CoinFutureSymbol>)
        ensures
            match r {
                Some(s) => symbol_of(fields_view(fs@)) == Some(s@),
                None => symbol_of(fields_view(fs@)) is None,
            },
    {
        let symbol = str_field(fs, "symbol");
        let pair = str_field(fs, "pair");
        let contract_type = str_field(fs, "contractType");
        let contract_status = str_field(fs, "contractStatus");
        let margin_asset = str_field(fs, "marginAsset");
        let contract_size = int_field(fs, "contractSize");
        let price_precision = int_field(fs, "pricePrecision");
        let quantity_precision = int_field(fs, "quantityPrecision");
        match (symbol, pair, contract_type, contract_status, margin_asset) {
            (Some(symbol), Some(pair), Some(contract_type), Some(contract_status), Some(margin_asset)) => {
                match (contract_size, price_precision, quantity_precision) {
                    (Some(contract_size), Some(price_precision), Some(quantity_precision)) => Some(
                        CoinFutureSymbol {
                            symbol,
                            pair,
                            contract_type,
                            contract_status,
                            margin_asset,
                            contract_size,
                            price_precision,
                            quantity_precision,
                        },
                    ),
                    _ => None,
                }
            },
            _ => None,
        }
    }

    /// Reads a symbol record from an item that holds a nested object.
    pub fn from_item(i: &Item) -> (r: Option<CoinFutureSymbol>)
        ensures
            match r {
                Some(s) => symbol_of_item(i@) == Some(s@),
                None => symbol_of_item(i@) is None,
            },
    {
        match i {
            Item::Nested(t) => match parse_node(t.as_str()) {
                Some(Node::Object(fs)) => CoinFutureSymbol::from_fields(&fs),
                _ => None,
            },
            _ => None,
        }
    }
}

/// Reads every symbol record of an array, in order.
pub fn symbols_from_items(items: &Vec<Item>) -> (r: Option<Vec<CoinFutureSymbol>>)
    ensures
        match r {
            Some(v) => symbols_of(items@.map_values(|i: Item| i@)) == Some(symbols_view(v@)),
            None => symbols_of(items@.map_values(|i: Item| i@)) is None,
        },
{
    let ghost iv = items@.map_values(|i: Item| i@);
    let mut out: Vec<CoinFutureSymbol> = Vec::new();
    let mut k: usize = 0;
    while k < items.len()
        invariant
            0 <= k <= items@.len(),
            iv == items@.map_values(|i: Item| i@),
            symbols_of(iv.subrange(0, k as int)) == Some(symbols_view(out@)),
        decreases items@.len() - k,
    {
        let ghost prev = symbols_view(out@);
        assert(iv.subrange(0, k + 1).drop_last() =~= iv.subrange(0, k as int));
        match CoinFutureSymbol::from_item(&items[k]) {
            Some(s) => {
                out.push(s);
                assert(symbols_view(out@) =~= prev.push(out@.last()@));
            },
            None => {
                proof { lemma_symbols_of_prefix(iv, k as int); }
                return None;
            },
        }
        k = k + 1;
    }
    assert(iv.subrange(0, items@.len() as int) =~= iv);
    Some(out)
}

/// Reading an array of symbol records keeps their number and their order:
/// the `i`-th record read is the one held by the `i`-th item.
pub proof fn lemma_symbols_in_order(items: Seq<ItemView>)
    requires
        symbols_of(items) is Some,
    ensures
        symbols_of(items)->Some_0.len() == items.len(),
        forall|i: int| 0 <= i < items.len() ==> symbol_of_item(#[trigger] items[i]) == Some(symbols_of(items)->Some_0[i]),
    decreases items.len(),
{
    if items.len() > 0 {
        let front = items.drop_last();
        lemma_symbols_in_order(front);
        let ss = symbols_of(items)->Some_0;
        assert forall|i: int| 0 <= i < items.len() implies symbol_of_item(#[trigger] items[i]) == Some(ss[i]) by {
            if i < items.len() - 1 {
                assert(items[i] == front[i]);
            }
        }
    }
}

/// Where one item of an array is not a symbol record, neither is the array.
proof fn lemma_symbols_of_prefix(items: Seq<ItemView>, k: int)
    requires
        0 <= k < items.len(),
        symbol_of_item(items[k]) is None,
    ensures
        symbols_of(items) is None,
    decreases items.len(),
{
    if k < items.len() - 1 {
        lemma_symbols_of_prefix(items.drop_last(), k);
    }
}

/// What the exchange says of its trading rules and of the symbols it lists.
#[derive(Debug)]
pub struct CoinFutureExchangeInformation {
    pub timezone: String,
    pub server_time: i64,
    pub symbols: Vec<CoinFutureSymbol>,
}

/// The view of a `CoinFutureExchangeInformation`.
pub struct ExchangeInfoView {
    pub timezone: Seq<char>,
    pub server_time: i64,
    pub symbols: Seq<SymbolView>,
}

impl View for CoinFutureExchangeInformation {
    type V = ExchangeInfoView;

    open spec fn view(&self) -> ExchangeInfoView {
        ExchangeInfoView {
            timezone: self.timezone@,
            server_time: self.server_time,
            symbols: symbols_view(self.symbols@),
        }
    }
}

/// The symbol records held in a field whose value is a nested array.
pub open spec fn symbols_field(i: Option<ItemView>) -> Option<Seq<SymbolView>> {
    match i {
        Some(ItemView::Nested(t)) => match json_node_of(t) {
            Some(NodeView::Array(items)) => symbols_of(items),
            _ => None,
        },
        _ => None,
    }
}

/// Exchange information read from the fields of an object.
pub open spec fn exchange_info_of(fs: Seq<(Seq<char>, ItemView)>) -> Option<ExchangeInfoView> {
    let timezone = str_of(field(fs, "timezone"@));
    let server_time = int_of(field(fs, "serverTime"@));
    let symbols = symbols_field(field(fs, "symbols"@));
    if timezone is Some && server_time is Some && symbols is Some {
        Some(
            ExchangeInfoView {
                timezone: timezone->Some_0,
                server_time: server_time->Some_0,
                symbols: symbols->Some_0,
            },
        )
    } else {
        None
    }
}

impl CoinFutureExchangeInformation {
    /// Reads exchange information from the fields of an object.
    pub fn from_fields(fs: &Vec<(String, Item)>) -> (r: Option<CoinFutureExchangeInformation>)
        ensures
            match r {
                Some(x) => exchange_info_of(fields_view(fs@)) == Some(x@),
                None => exchange_info_of(fields_view(fs@)) is None,
            },
    {
        let timezone = str_field(fs, "timezone");
        let server_time = int_field(fs, "serverTime");
        let symbols = match find_field(fs, "symbols") {
            Some(i) => match &fs[i].1 {
                Item::Nested(t) => match parse_node(t.as_str()) {
                    Some(Node::Array(items)) => symbols_from_items(&items),
                    _ => None,
                },
                _ => None,
            },
            None => None,
        };
        match (timezone, server_time, symbols) {
            (Some(timezone), Some(server_time), Some(symbols)) => Some(
                CoinFutureExchangeInformation { timezone, server_time, symbols },
            ),
            _ => None,
        }
    }
}

} // verus!
