use vstd::prelude::*;
use crate::error::{result_view, Error, ErrorView};
use crate::json::{field, field_from, find_field, parse_node, parsed_view, json_node_of, Item, ItemView, Node, NodeView};

verus! {

/// A status in the success range.
pub open spec fn is_success(status: u16) -> bool {
    200 <= status < 300
}

/// The exchange's error envelope: an object with an integer `code` and a
/// string `msg`. Other fields do not matter.
pub open spec fn envelope(node: Option<NodeView>) -> Option<(i64, Seq<char>)> {
    match node {
        Some(NodeView::Object(fs)) => match (field(fs, "code"@), field(fs, "msg"@)) {
            (Some(ItemView::Number(Some(c))), Some(ItemView::Str(m))) => Some((c, m)),
            _ => None,
        },
        _ => None,
    }
}

/// Reads the error envelope out of a parsed body, if it is one.
pub fn error_envelope(node: &Option<Node>) -> (r: Option<(i64, String)>)
    ensures
        match r {
            Some((c, m)) => envelope(parsed_view(*node)) == Some((c, m@)),
            None => envelope(parsed_view(*node)) is None,
        },
{
    match node {
        Some(Node::Object(fs)) => {
            let code = find_field(fs, "code");
            let msg = find_field(fs, "msg");
            match (code, msg) {
                (Some(i), Some(j)) => match (&fs[i].1, &fs[j].1) {
                    (Item::Number(Some(c)), Item::Str(m)) => Some((*c, m.clone())),
                    _ => None,
                },
                _ => None,
            }
        },
        _ => None,
    }
}

/// The outcome of a response, from its status, its body and what the body
/// parsed to: an error envelope is an exchange error whatever the status;
/// otherwise a success status gives the parsed body, or a schema mismatch
/// where the body is not JSON; any other status is an unparseable response
/// carrying the raw body.
pub open spec fn classified(status: u16, body: Seq<char>, parsed: Option<NodeView>) -> Result<NodeView, ErrorView> {
    match envelope(parsed) {
        Some((c, m)) => Err(ErrorView::Exchange { code: c, msg: m }),
        None => if is_success(status) {
            match parsed {
                Some(n) => Ok(n),
                None => Err(ErrorView::SchemaMismatch(body)),
            }
        } else {
            Err(ErrorView::Unparseable(body))
        },
    }
}

/// An error envelope is an exchange error carrying its code and message,
/// whatever the status, and never an unparseable response.
pub proof fn lemma_envelope_whatever_status(status: u16, body: Seq<char>, parsed: Option<NodeView>)
    requires
        envelope(parsed) is Some,
    ensures
        classified(status, body, parsed) == Err::<NodeView, ErrorView>(
            ErrorView::Exchange { code: envelope(parsed)->Some_0.0, msg: envelope(parsed)->Some_0.1 },
        ),
        !(classified(status, body, parsed) matches Err(ErrorView::Unparseable(_))),
{
}

/// The fields that an error envelope is written as.
pub open spec fn envelope_fields(code: i64, msg: Seq<char>) -> Seq<(Seq<char>, ItemView)> {
    seq![("code"@, ItemView::Number(Some(code))), ("msg"@, ItemView::Str(msg))]
}

/// An error envelope written as fields reads back as the same code and
/// message, and an object read as an envelope has the same `code` and `msg`
/// fields as the envelope written back from what was read.
pub proof fn lemma_envelope_round_trip(code: i64, msg: Seq<char>, fs: Seq<(Seq<char>, ItemView)>)
    ensures
        envelope(Some(NodeView::Object(envelope_fields(code, msg)))) == Some((code, msg)),
        envelope(Some(NodeView::Object(fs))) == Some((code, msg)) ==> {
            &&& field(fs, "code"@) == field(envelope_fields(code, msg), "code"@)
            &&& field(fs, "msg"@) == field(envelope_fields(code, msg), "msg"@)
        },
{
    reveal_strlit("code");
    reveal_strlit("msg");
    let e = envelope_fields(code, msg);
    assert("code"@ != "msg"@) by {
        assert("code"@.len() != "msg"@.len());
    }
    assert(field_from(e, "msg"@, 2) is None);
    assert(field_from(e, "code"@, 0) == Some(ItemView::Number(Some(code))));
    assert(field_from(e, "msg"@, 1) == Some(ItemView::Str(msg)));
}

/// Classifies a response whose body has already been parsed.
pub fn classify_parsed(status: u16, body: &str, parsed: Option<Node>) -> (r: Result<Node, Error>)
    ensures
        result_view(r) == classified(status, body@, parsed_view(parsed)),
{
    match error_envelope(&parsed) {
        Some((code, msg)) => Err(Error::Exchange { code, msg }),
        None => {
            if 200 <= status && status < 300 {
                match parsed {
                    Some(n) => Ok(n),
                    None => Err(Error::SchemaMismatch(body.to_owned())),
                }
            } else {
                Err(Error::Unparseable(body.to_owned()))
            }
        },
    }
}

/// Parses a response body and classifies the response.
pub fn classify(status: u16, body: &str) -> (r: Result<Node, Error>)
    ensures
        result_view(r) == classified(status, body@, json_node_of(body@)),
{
    let parsed = parse_node(body);
    classify_parsed(status, body, parsed)
}

} // verus!
