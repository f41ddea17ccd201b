//! The envelope of one outbound call: where it goes, how, with which body,
//! and the metadata a transport sends along as headers.
use vstd::prelude::*;

use crate::decimal::{encode_decimal, decimal_text, lemma_nat_digits, nat_digits, Decimal};

verus! {

/// The HTTP verb of a call.
#[derive(Clone, Copy, Debug, PartialEq, Eq, Hash, Structural)]
pub enum Method {
    Get,
    Post,
}

impl Method {
    pub open spec fn spec_name(self) -> Seq<char> {
        match self {
            Method::Get => "GET"@,
            Method::Post => "POST"@,
        }
    }

    /// The verb as HTTP writes it.
    pub fn as_str(&self) -> (r: &'static str)
        ensures
            r@ == self.spec_name(),
    {
        match self {
            Method::Get => "GET",
            Method::Post => "POST",
        }
    }
}

/// How long the gateway is asked to work on a call, in milliseconds, unless
/// the caller says otherwise.
pub const DEFAULT_REQUEST_TIMEOUT: u32 = 9999;

/// One outbound call, made fresh for each call and handed to a transport once.
#[derive(Clone, Debug, PartialEq)]
pub struct YandexPayApiRequest {
    /// The serialized JSON body, if the call has one.
    pub body: Option<String>,
    pub method: Method,
    pub url: String,
    /// The merchant's API key, sent as `Authorization: Api-Key <key>`.
    pub api_key: String,
    /// A token unique to the call, sent as `X-Request-Id`.
    pub request_id: String,
    /// How long the gateway is asked to work on the call, in milliseconds.
    pub request_timeout: u32,
    /// How many times the call was tried before; the caller counts retries.
    pub request_attempt: u32,
}

/// A [`YandexPayApiRequest`] being put together.
#[derive(Clone, Debug, PartialEq)]
pub struct RequestBuilder {
    pub body: Option<String>,
    pub method: Method,
    pub url: String,
    pub api_key: String,
    /// The request identifier, when the caller chose one.
    pub request_id: Option<String>,
    pub request_timeout: u32,
    pub request_attempt: u32,
}

pub open spec fn is_lower_hex(c: char) -> bool {
    ('0' <= c && c <= '9') || ('a' <= c && c <= 'f')
}

/// A version 7 UUID in hyphenated lower-case form, such as
/// `01890a5d-ac96-774b-bcce-b302099a8057`.
pub open spec fn is_uuid_v7_text(s: Seq<char>) -> bool {
    &&& s.len() == 36
    &&& forall|i: int|
        0 <= i < 36 ==> if i == 8 || i == 13 || i == 18 || i == 23 {
            s[i] == '-'
        } else {
            is_lower_hex(#[trigger] s[i])
        }
    &&& s[14] == '7'
}

/// Relies on uuid's `Uuid::now_v7`, a version 7 UUID from the current time,
/// and on its `Display`, which writes the hyphenated lower-case form.
#[verifier::external_body]
fn new_request_id() -> (r: String)
    ensures
        is_uuid_v7_text(r@),
{
    uuid::Uuid::now_v7().to_string()
}

impl YandexPayApiRequest {
    /// Starts an envelope for `url`, authorized by `api_key`: a `GET` with
    /// no body, no chosen request identifier, the default timeout, and
    /// attempt number 0.
    pub fn new(url: String, api_key: String) -> (r: RequestBuilder)
        ensures
            r.url == url,
            r.api_key == api_key,
            r.method == Method::Get,
            r.body is None,
            r.request_id is None,
            r.request_timeout == DEFAULT_REQUEST_TIMEOUT,
            r.request_attempt == 0,
    {
        RequestBuilder {
            body: None,
            method: Method::Get,
            url,
            api_key,
            request_id: None,
            request_timeout: DEFAULT_REQUEST_TIMEOUT,
            request_attempt: 0,
        }
    }
}

impl RequestBuilder {
    pub fn method(self, method: Method) -> (r: RequestBuilder)
        ensures
            r == (RequestBuilder { method, ..self }),
    {
        RequestBuilder { method, ..self }
    }

    pub fn body(self, body: Option<String>) -> (r: RequestBuilder)
        ensures
            r == (RequestBuilder { body, ..self }),
    {
        RequestBuilder { body, ..self }
    }

    /// Uses `request_id` instead of a generated identifier.
    pub fn request_id(self, request_id: String) -> (r: RequestBuilder)
        ensures
            r == (RequestBuilder { request_id: Some(request_id), ..self }),
    {
        RequestBuilder { request_id: Some(request_id), ..self }
    }

    pub fn request_timeout(self, request_timeout: u32) -> (r: RequestBuilder)
        ensures
            r == (RequestBuilder { request_timeout, ..self }),
    {
        RequestBuilder { request_timeout, ..self }
    }

    pub fn request_attempt(self, request_attempt: u32) -> (r: RequestBuilder)
        ensures
            r == (RequestBuilder { request_attempt, ..self }),
    {
        RequestBuilder { request_attempt, ..self }
    }

    /// The envelope, with the chosen request identifier or else `fresh_id`.
    pub fn assemble(self, fresh_id: String) -> (r: YandexPayApiRequest)
        ensures
            r.body == self.body,
            r.method == self.method,
            r.url == self.url,
            r.api_key == self.api_key,
            r.request_id == match self.request_id {
                Some(id) => id,
                None => fresh_id,
            },
            r.request_timeout == self.request_timeout,
            r.request_attempt == self.request_attempt,
    {
        let request_id = match self.request_id {
            Some(id) => id,
            None => fresh_id,
        };
        YandexPayApiRequest {
            body: self.body,
            method: self.method,
            url: self.url,
            api_key: self.api_key,
            request_id,
            request_timeout: self.request_timeout,
            request_attempt: self.request_attempt,
        }
    }

    /// The envelope. Without a chosen request identifier it gets a fresh
    /// version 7 UUID, which orders by creation time.
    pub fn build(self) -> (r: YandexPayApiRequest)
        ensures
            r.body == self.body,
            r.method == self.method,
            r.url == self.url,
            r.api_key == self.api_key,
            self.request_id matches Some(id) ==> r.request_id == id,
            self.request_id is None ==> is_uuid_v7_text(r.request_id@),
            r.request_timeout == self.request_timeout,
            r.request_attempt == self.request_attempt,
    {
        match self.request_id {
            Some(_) => self.assemble(String::new()),
            None => {
                let fresh = new_request_id();
                self.assemble(fresh)
            },
        }
    }
}

/// The text of a whole number, as a header value carries it.
pub fn number_text(n: u32) -> (r: String)
    ensures
        r@ == nat_digits(n as nat),
{
    proof {
        lemma_nat_digits(n as nat);
        assert(decimal_text(Decimal { mantissa: n as i64, scale: 0 }) =~= nat_digits(n as nat));
    }
    encode_decimal(Decimal { mantissa: n as i64, scale: 0 })
}

fn header(name: &str, value: String) -> (r: (String, String))
    ensures
        r.0@ == name@,
        r.1 == value,
{
    (String::from_str(name), value)
}

/// The headers a transport sends with `request`, in this order:
/// `Authorization: Api-Key <key>`, `X-Request-Id`, `X-Request-Timeout`,
/// `X-Request-Attempt` and `Content-Type: application/json`.
pub fn request_headers(request: &YandexPayApiRequest) -> (r: Vec<(String, String)>)
    ensures
        r@.len() == 5,
        r@[0].0@ == "Authorization"@,
        r@[0].1@ == "Api-Key "@ + request.api_key@,
        r@[1].0@ == "X-Request-Id"@,
        r@[1].1@ == request.request_id@,
        r@[2].0@ == "X-Request-Timeout"@,
        r@[2].1@ == nat_digits(request.request_timeout as nat),
        r@[3].0@ == "X-Request-Attempt"@,
        r@[3].1@ == nat_digits(request.request_attempt as nat),
        r@[4].0@ == "Content-Type"@,
        r@[4].1@ == "application/json"@,
{
    let mut auth = String::from_str("Api-Key ");
    auth.append(request.api_key.as_str());
    let mut headers: Vec<(String, String)> = Vec::new();
    headers.push(header("Authorization", auth));
    headers.push(header("X-Request-Id", request.request_id.clone()));
    headers.push(header("X-Request-Timeout", number_text(request.request_timeout)));
    headers.push(header("X-Request-Attempt", number_text(request.request_attempt)));
    headers.push(header("Content-Type", String::from_str("application/json")));
    headers
}

} // verus!
