use vstd::prelude::*;
use vstd::utf8::encode_utf8;
use crate::encode::{canonical, encode_pair, Params};
use crate::error::Error;
use crate::text::{decimal, decimal_string, hex_of, push_hex, push_str_bytes};

verus! {

/// The HMAC-SHA256 tag of a message under a key.
pub uninterp spec fn hmac_sha256_of(key: Seq<u8>, message: Seq<u8>) -> Seq<u8>;

/// Relies on hmac's `Hmac<sha2::Sha256>` (`new_from_slice`, `update`, `finalize`):
/// the 32-byte tag of `message` under `key`. HMAC takes keys of any length.
#[verifier::external_body]
fn hmac_sha256(key: &[u8], message: &[u8]) -> (r: Vec<u8>)
    ensures
        r@ == hmac_sha256_of(key@, message@),
        r@.len() == 32,
{
    let mut mac = <hmac::Hmac<sha2::Sha256> as hmac::Mac>::new_from_slice(key)
        .expect("HMAC takes a key of any length");
    hmac::Mac::update(&mut mac, message);
    hmac::Mac::finalize(mac).into_bytes().to_vec()
}

/// The HTTP method of a request.
#[derive(Clone, Copy, PartialEq, Eq, Structural, Debug)]
pub enum Method {
    Get,
    Post,
    Put,
    Delete,
}

/// What a client is configured with: credentials, the host of one API family,
/// and a timeout in seconds. Immutable once built.
#[derive(Clone)]
pub struct Client {
    pub api_key: Option<String>,
    pub secret_key: Option<String>,
    pub host: String,
    pub timeout: Option<u64>,
}

/// A request ready to send: for GET and DELETE `query` goes in the URL, for
/// POST and PUT it is the form body. `api_key` is the key header, if any.
#[derive(Debug)]
pub struct Request {
    pub method: Method,
    pub url: String,
    pub query: Vec<u8>,
    pub api_key: Option<String>,
}

/// The view of an optional string.
pub open spec fn opt_view(o: Option<String>) -> Option<Seq<char>> {
    match o {
        Some(s) => Some(s@),
        None => None,
    }
}

/// The parameters of a signed call: those given, then `recvWindow`, then `timestamp`.
pub open spec fn augmented(ps: Seq<(Seq<char>, Seq<char>)>, recv_window: nat, timestamp: nat) -> Seq<
    (Seq<char>, Seq<char>),
> {
    ps.push(("recvWindow"@, decimal(recv_window))).push(("timestamp"@, decimal(timestamp)))
}

/// The string that is signed and sent: the canonical form of the augmented parameters.
pub open spec fn signed_payload(ps: Seq<(Seq<char>, Seq<char>)>, recv_window: nat, timestamp: nat) -> Seq<u8> {
    canonical(augmented(ps, recv_window, timestamp))
}

/// The query of a signed call: the payload, then `&signature=` and the
/// lowercase hexadecimal HMAC-SHA256 of that same payload under the secret.
pub open spec fn signed_query(
    secret: Seq<char>,
    ps: Seq<(Seq<char>, Seq<char>)>,
    recv_window: nat,
    timestamp: nat,
) -> Seq<u8> {
    let payload = signed_payload(ps, recv_window, timestamp);
    payload + encode_utf8("&signature="@) + hex_of(hmac_sha256_of(encode_utf8(secret), payload))
}

/// What is signed is what is sent: the query of a signed call begins with
/// the canonical form of the given parameters followed by `recvWindow` and
/// `timestamp`, and what follows it is `&signature=` and the hexadecimal
/// HMAC-SHA256, under the secret, of exactly those leading bytes. The query
/// is a function of the secret, the parameters, the receive window and the
/// timestamp alone. The caller's parameters come first, in their order.
pub proof fn lemma_signed_what_is_sent(
    secret: Seq<char>,
    ps: Seq<(Seq<char>, Seq<char>)>,
    recv_window: nat,
    timestamp: nat,
)
    ensures
        ({
            let q = signed_query(secret, ps, recv_window, timestamp);
            let payload = canonical(augmented(ps, recv_window, timestamp));
            let sep = encode_utf8("&signature="@);
            &&& q.subrange(0, payload.len() as int) == payload
            &&& ps.len() > 0 ==> q.subrange(0, canonical(ps).len() as int) == canonical(ps)
            &&& q.subrange(payload.len() as int, (payload.len() + sep.len()) as int) == sep
            &&& q.subrange((payload.len() + sep.len()) as int, q.len() as int) == hex_of(
                hmac_sha256_of(encode_utf8(secret), q.subrange(0, payload.len() as int)),
            )
        }),
{
    let q = signed_query(secret, ps, recv_window, timestamp);
    let payload = canonical(augmented(ps, recv_window, timestamp));
    let sep = encode_utf8("&signature="@);
    let h = hex_of(hmac_sha256_of(encode_utf8(secret), payload));
    assert(q =~= payload + sep + h);
    assert(q.subrange(0, payload.len() as int) =~= payload);
    assert(q.subrange(payload.len() as int, (payload.len() + sep.len()) as int) =~= sep);
    assert(q.subrange((payload.len() + sep.len()) as int, q.len() as int) =~= h);
    if ps.len() > 0 {
        let a1 = ps.push(("recvWindow"@, decimal(recv_window)));
        let a2 = a1.push(("timestamp"@, decimal(timestamp)));
        assert(a2.drop_last() =~= a1);
        assert(a1.drop_last() =~= ps);
        let rest = seq![38u8] + encode_pair(a1.last()) + seq![38u8] + encode_pair(a2.last());
        assert(a2 == augmented(ps, recv_window, timestamp));
        assert(canonical(a1) == canonical(ps) + seq![38u8] + encode_pair(a1.last()));
        assert(canonical(a2) == canonical(a1) + seq![38u8] + encode_pair(a2.last()));
        assert(payload =~= canonical(ps) + rest);
        assert(q.subrange(0, canonical(ps).len() as int) =~= canonical(ps));
    }
}

impl Client {
    /// A client for the API family at `host`.
    pub fn new(api_key: Option<String>, secret_key: Option<String>, host: String, timeout: Option<u64>) -> (r: Client)
        ensures
            r.api_key == api_key,
            r.secret_key == secret_key,
            r.host == host,
            r.timeout == timeout,
    {
        Client { api_key, secret_key, host, timeout }
    }

    /// A request to a public endpoint: no key header, no signature.
    pub fn public_request(&self, method: Method, path: &str, params: &Params) -> (r: Request)
        ensures
            r.method == method,
            r.url@ == self.host@ + path@,
            r.query@ == canonical(params@),
            r.api_key is None,
    {
        Request { method, url: self.host.clone().concat(path), query: params.encode(), api_key: None }
    }

    /// A request to a key-only endpoint: the key header, no signature. Fails
    /// before anything is sent when no API key is configured.
    pub fn keyed_request(&self, method: Method, path: &str, params: &Params) -> (r: Result<Request, Error>)
        ensures
            self.api_key is None <==> r matches Err(Error::Configuration(_)),
            self.api_key is Some <==> r is Ok,
            r is Ok ==> {
                let q = r->Ok_0;
                &&& q.method == method
                &&& q.url@ == self.host@ + path@
                &&& q.query@ == canonical(params@)
                &&& opt_view(q.api_key) == opt_view(self.api_key)
            },
    {
        match &self.api_key {
            None => Err(Error::Configuration("no API key is configured".to_owned())),
            Some(key) => Ok(
                Request {
                    method,
                    url: self.host.clone().concat(path),
                    query: params.encode(),
                    api_key: Some(key.clone()),
                },
            ),
        }
    }

    /// A request to a signed endpoint: `recvWindow` and `timestamp` are added
    /// to the parameters, the result is signed with the secret key, and the
    /// very bytes that were signed are the ones sent, followed by the
    /// signature. Fails before anything is sent when the API key or the
    /// secret key is not configured.
    pub fn signed_request(
        &self,
        method: Method,
        path: &str,
        params: Params,
        recv_window: u64,
        timestamp: u64,
    ) -> (r: Result<Request, Error>)
        ensures
            self.api_key is None || self.secret_key is None <==> r matches Err(Error::Configuration(_)),
            self.api_key is Some && self.secret_key is Some <==> r is Ok,
            r is Ok ==> {
                let q = r->Ok_0;
                &&& q.method == method
                &&& q.url@ == self.host@ + path@
                &&& q.query@ == signed_query(
                    self.secret_key->Some_0@,
                    params@,
                    recv_window as nat,
                    timestamp as nat,
                )
                &&& opt_view(q.api_key) == opt_view(self.api_key)
            },
    {
        match (&self.api_key, &self.secret_key) {
            (Some(key), Some(secret)) => {
                let mut all = params;
                all.push("recvWindow".to_owned(), decimal_string(recv_window));
                all.push("timestamp".to_owned(), decimal_string(timestamp));
                let mut query = all.encode();
                let signature = hmac_sha256(secret.as_str().as_bytes(), query.as_slice());
                push_str_bytes(&mut query, "&signature=");
                push_hex(&mut query, signature.as_slice());
                Ok(
                    Request {
                        method,
                        url: self.host.clone().concat(path),
                        query,
                        api_key: Some(key.clone()),
                    },
                )
            },
            (None, _) => Err(Error::Configuration("no API key is configured".to_owned())),
            (_, None) => Err(Error::Configuration("no secret key is configured".to_owned())),
        }
    }

    /// The configured timeout, in seconds.
    pub fn timeout(&self) -> (r: Option<u64>)
        ensures
            r == self.timeout,
    {
        self.timeout
    }
}

} // verus!
