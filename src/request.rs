use crate::error::Error;
use http::header::{HeaderValue, InvalidHeaderValue};
use std::collections::HashMap;
use vstd::prelude::*;

verus! {

/// The HTTP methods that the API is called with.
#[derive(PartialEq, Eq, Structural, Clone, Copy, Debug)]
pub enum Method {
    Get,
    Post,
    Patch,
    Delete,
}

/// The fields of one highlight, by name, as sent to the server.
pub type Fields = HashMap<String, String>;

/// A request body as the resource operations hand it to the signer: the JSON
/// object `{"<key>": [<items>...]}`.
#[derive(Debug, PartialEq, Eq)]
pub struct Body {
    pub key: String,
    pub items: Vec<Fields>,
}

/// What goes on the wire as the JSON body of a request.
#[derive(Debug, PartialEq, Eq)]
pub enum Payload {
    /// The whole body object, `{"<key>": [<items>...]}`.
    Batch(Body),
    /// One field object, `{<fields>}`.
    Single(Fields),
}

/// A request, signed and ready to send.
#[derive(Debug, PartialEq, Eq)]
pub struct Request {
    pub method: Method,
    /// The absolute URL.
    pub url: String,
    /// The text of the `Authorization` header.
    pub authorization: String,
    /// The JSON body, if any.
    pub payload: Option<Payload>,
}

/// What the server answered: its status code and the text of its body.
#[derive(Debug, PartialEq, Eq)]
pub struct Response {
    pub status: u16,
    pub text: String,
}

/// Every API path starts with this prefix, after the base URL.
pub open spec fn api_prefix() -> Seq<char> {
    seq!['/', 'a', 'p', 'i', '/', 'v', '2']
}

/// The absolute URL of `endpoint` under `base`: `<base>/api/v2<endpoint>`.
pub open spec fn api_url(base: Seq<char>, endpoint: Seq<char>) -> Seq<char> {
    base + api_prefix() + endpoint
}

/// The scheme word in front of the token in the `Authorization` header.
pub open spec fn token_scheme() -> Seq<char> {
    seq!['T', 'o', 'k', 'e', 'n', ' ']
}

/// The `Authorization` header text for `token`: `Token <token>`.
pub open spec fn authorization_text(token: Seq<char>) -> Seq<char> {
    token_scheme() + token
}

/// A character that a header value may hold: a tab, or any character from
/// the space on but DEL. (Every byte of a non-ASCII character is 128 or more.)
pub open spec fn header_char(c: char) -> bool {
    c == '\t' || (c as u32 >= 32 && c as u32 != 127)
}

/// A text that a header value can hold.
pub open spec fn header_safe(s: Seq<char>) -> bool {
    forall|i: int| 0 <= i < s.len() ==> header_char(#[trigger] s[i])
}

/// A body that `method` can be signed with: POST sends a body whole, PATCH
/// sends the first item of a body under the key `body`.
pub open spec fn body_fits(method: Method, body: Option<Body>) -> bool {
    match method {
        Method::Post => body is Some,
        Method::Patch => body is Some && body->Some_0.key@ == seq!['b', 'o', 'd', 'y']
            && body->Some_0.items@.len() > 0,
        _ => true,
    }
}

/// What is sent for `body` with `method`: nothing for GET and DELETE, the
/// body as it is for POST, and the first item under `body` for PATCH.
pub open spec fn payload_of(method: Method, body: Option<Body>) -> Option<Payload> {
    match method {
        Method::Post => Some(Payload::Batch(body->Some_0)),
        Method::Patch => Some(Payload::Single(body->Some_0.items@[0])),
        _ => None,
    }
}

/// `q` is the request for `method` on `endpoint` under `base`, signed with
/// `token`, that carries `payload`.
pub open spec fn signed_as(
    q: Request,
    base: Seq<char>,
    token: Seq<char>,
    method: Method,
    endpoint: Seq<char>,
    payload: Option<Payload>,
) -> bool {
    &&& q.method == method
    &&& q.url@ == api_url(base, endpoint)
    &&& q.authorization@ == authorization_text(token)
    &&& q.payload == payload
}

/// A status code that reports success: 200 to 299.
pub open spec fn is_success(status: u16) -> bool {
    200 <= status <= 299
}

/// Declares http's header value, which checking a header text yields.
#[verifier::external_type_specification]
#[verifier::external_body]
pub struct ExHeaderValue(HeaderValue);

/// Relies on http's `HeaderValue::from_str`: it accepts a text exactly when
/// every byte of it is a tab, or 32 or more but not 127.
#[verifier::external_body]
fn header_value(text: &str) -> (r: Result<HeaderValue, InvalidHeaderValue>)
    ensures
        r is Ok <==> header_safe(text@),
{
    HeaderValue::from_str(text)
}

/// The `Authorization` header text for `token`, unchecked.
pub(crate) fn token_header(token: &str) -> (r: String)
    ensures
        r@ == authorization_text(token@),
{
    let mut r = String::from_str("Token ");
    proof {
        reveal_strlit("Token ");
    }
    r.append(token);
    assert(r@ =~= authorization_text(token@));
    r
}

proof fn lemma_header_safe_concat(a: Seq<char>, b: Seq<char>)
    requires
        header_safe(a),
    ensures
        header_safe(a + b) <==> header_safe(b),
{
    if header_safe(a + b) {
        assert forall|i: int| 0 <= i < b.len() implies header_char(#[trigger] b[i]) by {
            assert((a + b)[a.len() + i] == b[i]);
        }
    }
    if header_safe(b) {
        assert forall|i: int| 0 <= i < (a + b).len() implies header_char(#[trigger] (a + b)[i]) by {
            if i >= a.len() {
                assert((a + b)[i] == b[i - a.len()]);
            }
        }
    }
}

/// The checked `Authorization` header text for `token`: it fails exactly
/// when the token holds a character that no header value can hold.
pub(crate) fn authorization(token: &str) -> (r: Result<String, Error>)
    ensures
        r is Ok <==> header_safe(token@),
        r matches Ok(a) ==> a@ == authorization_text(token@),
        r matches Err(e) ==> e is HeaderValue,
{
    let text = token_header(token);
    proof {
        assert(header_safe(token_scheme())) by {
            reveal_strlit("Token ");
        }
        lemma_header_safe_concat(token_scheme(), token@);
    }
    match header_value(text.as_str()) {
        Ok(_) => Ok(text),
        Err(source) => Err(Error::HeaderValue { source }),
    }
}

/// Signs a request with an already built `Authorization` text.
pub(crate) fn sign(
    base_url: &str,
    endpoint: &str,
    authorization: String,
    method: Method,
    body: Option<Body>,
) -> (q: Request)
    requires
        body_fits(method, body),
    ensures
        q.method == method,
        q.url@ == api_url(base_url@, endpoint@),
        q.authorization == authorization,
        q.payload == payload_of(method, body),
{
    let mut url = String::from_str(base_url);
    url.append("/api/v2");
    url.append(endpoint);
    proof {
        reveal_strlit("/api/v2");
    }
    assert(url@ =~= api_url(base_url@, endpoint@));
    let payload = match method {
        Method::Get => None,
        Method::Delete => None,
        Method::Post => match body {
            Some(b) => Some(Payload::Batch(b)),
            None => None,
        },
        Method::Patch => match body {
            Some(b) => {
                let mut items = b.items;
                let first = items.remove(0);
                Some(Payload::Single(first))
            },
            None => None,
        },
    };
    Request { method, url, authorization, payload }
}

/// Signs a request for `endpoint` under `base_url` with the access token
/// `token`. It fails exactly when the token cannot stand in a header.
pub fn signed_request(
    base_url: &str,
    endpoint: &str,
    token: &str,
    method: Method,
    body: Option<Body>,
) -> (r: Result<Request, Error>)
    requires
        body_fits(method, body),
    ensures
        r is Ok <==> header_safe(token@),
        r matches Ok(q) ==> signed_as(
            q,
            base_url@,
            token@,
            method,
            endpoint@,
            payload_of(method, body),
        ),
        r matches Err(e) ==> e is HeaderValue,
{
    match authorization(token) {
        Ok(text) => Ok(sign(base_url, endpoint, text, method, body)),
        Err(e) => Err(e),
    }
}

/// Passes on an answer with a success status; any other status fails with
/// `BadRequest`, which carries it.
pub fn check_status(response: Response) -> (r: Result<Response, Error>)
    ensures
        is_success(response.status) ==> r == Ok::<Response, Error>(response),
        !is_success(response.status) ==> r == Err::<Response, Error>(
            Error::BadRequest { status: response.status },
        ),
{
    if 200 <= response.status && response.status <= 299 {
        Ok(response)
    } else {
        Err(Error::BadRequest { status: response.status })
    }
}

} // verus!
