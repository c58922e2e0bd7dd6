use serde_json::Value;
use vstd::prelude::*;

verus! {

/// A value met inside a JSON array or object. Arrays and objects inside are
/// kept as their JSON text, to be parsed when they are needed.
#[derive(Debug)]
pub enum Item {
    Null,
    Bool(bool),
    /// A number, with its value where it is an integer that fits in `i64`.
    Number(Option<i64>),
    Str(String),
    Nested(String),
}

/// One level of a parsed JSON document.
#[derive(Debug)]
pub enum Node {
    Scalar(Item),
    Array(Vec<Item>),
    Object(Vec<(String, Item)>),
}

/// The view of an `Item`.
pub enum ItemView {
    Null,
    Bool(bool),
    Number(Option<i64>),
    Str(Seq<char>),
    Nested(Seq<char>),
}

/// The view of a `Node`.
pub enum NodeView {
    Scalar(ItemView),
    Array(Seq<ItemView>),
    Object(Seq<(Seq<char>, ItemView)>),
}

impl View for Item {
    type V = ItemView;

    open spec fn view(&self) -> ItemView {
        match self {
            Item::Null => ItemView::Null,
            Item::Bool(b) => ItemView::Bool(*b),
            Item::Number(n) => ItemView::Number(*n),
            Item::Str(s) => ItemView::Str(s@),
            Item::Nested(t) => ItemView::Nested(t@),
        }
    }
}

/// The view of the fields of an object, in order.
pub open spec fn fields_view(fs: Seq<(String, Item)>) -> Seq<(Seq<char>, ItemView)> {
    fs.map_values(|p: (String, Item)| (p.0@, p.1@))
}

impl View for Node {
    type V = NodeView;

    open spec fn view(&self) -> NodeView {
        match self {
            Node::Scalar(i) => NodeView::Scalar(i@),
            Node::Array(items) => NodeView::Array(items@.map_values(|i: Item| i@)),
            Node::Object(fs) => NodeView::Object(fields_view(fs@)),
        }
    }
}

/// The view of what a parse gave, `None` where the text is not JSON.
pub open spec fn parsed_view(n: Option<Node>) -> Option<NodeView> {
    match n {
        Some(x) => Some(x@),
        None => None,
    }
}

/// The top level of the JSON document in `text`, or `None` where `text` is not JSON.
pub uninterp spec fn json_node_of(text: Seq<char>) -> Option<NodeView>;

/// Relies on `serde_json::from_str::<Value>`, which parses a JSON
/// document, and on `Value`'s `Display`, which writes a nested array or object
/// back as JSON text, and `Number::as_i64`.
#[verifier::external_body]
pub fn parse_node(text: &str) -> (r: Option<Node>)
    ensures
        parsed_view(r) == json_node_of(text@),
{
    let item = |v: Value| match v {
        Value::Null => Item::Null,
        Value::Bool(b) => Item::Bool(b),
        Value::Number(n) => Item::Number(n.as_i64()),
        Value::String(s) => Item::Str(s),
        nested => Item::Nested(nested.to_string()),
    };
    match serde_json::from_str::<Value>(text) {
        Ok(Value::Array(a)) => Some(Node::Array(a.into_iter().map(item).collect())),
        Ok(Value::Object(m)) => Some(Node::Object(m.into_iter().map(|(k, v)| (k, item(v))).collect())),
        Ok(v) => Some(Node::Scalar(item(v))),
        Err(_) => None,
    }
}

/// The value of the first field named `key` at or after position `i`.
pub open spec fn field_from(fs: Seq<(Seq<char>, ItemView)>, key: Seq<char>, i: int) -> Option<ItemView>
    decreases fs.len() - i,
{
    if i < 0 || i >= fs.len() {
        None
    } else if fs[i].0 == key {
        Some(fs[i].1)
    } else {
        field_from(fs, key, i + 1)
    }
}

/// The value of the field named `key`, the first one where names repeat.
pub open spec fn field(fs: Seq<(Seq<char>, ItemView)>, key: Seq<char>) -> Option<ItemView> {
    field_from(fs, key, 0)
}

/// The position of the field named `key`, the first one where names repeat.
pub fn find_field(fs: &Vec<(String, Item)>, key: &str) -> (r: Option<usize>)
    ensures
        match r {
            Some(i) => i < fs@.len() && fs@[i as int].0@ == key@ && field(fields_view(fs@), key@)
                == Some(fs@[i as int].1@),
            None => field(fields_view(fs@), key@) is None,
        },
{
    let ghost v = fields_view(fs@);
    let k = key.to_owned();
    let mut i: usize = 0;
    while i < fs.len()
        invariant
            0 <= i <= fs@.len(),
            v == fields_view(fs@),
            k@ == key@,
            field(v, key@) == field_from(v, key@, i as int),
        decreases fs@.len() - i,
    {
        if fs[i].0 == k {
            return Some(i);
        }
        i = i + 1;
    }
    None
}

} // verus!
