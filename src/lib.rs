//! A typed client for the Yandex Pay merchant API.
//!
//! The library turns typed requests into the gateway's JSON wire format and
//! reads its answers back: amounts travel as decimal strings, instants as
//! RFC 3339 timestamps or bare dates, and every answer is wrapped in a
//! success or failure envelope. For each API action it plans the outbound
//! envelope (verb, URL, body, headers) and reads the payload of the answer;
//! carrying the envelope over the network is left to a transport.
use vstd::prelude::*;

pub mod api;
pub mod decimal;
pub mod json;
pub mod orders;
pub mod orders_cancel;
pub mod orders_capture;
pub mod orders_id;
pub mod orders_refund;
pub mod orders_submit;
pub mod orders_subscriptions;
pub mod orders_subscriptions_id;
pub mod orders_subscriptions_recur;
pub mod request;
pub mod response;
pub mod text;
pub mod timestamp;

pub use api::YandexPayApi;
pub use request::{Method, RequestBuilder, YandexPayApiRequest};
pub use response::{YandexPayApiError, YandexPayApiResponse, YandexPayApiResponseError};

verus! {

} // verus!
