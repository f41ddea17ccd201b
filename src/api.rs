//! The operations of the merchant API. For each action the library plans the
//! outbound envelope (verb, path, body) and reads the payload of the answer;
//! a transport carries the envelope over the network in between.
use vstd::prelude::*;

use crate::decimal::DecodeError;
use crate::json::{json_text, write_document, Json};
use crate::orders::{CreateOrderRequest, CreateOrderResponse};
use crate::orders_cancel::{CancelOrderRequest, OperationResponseData};
use crate::orders_capture::CaptureOrderRequest;
use crate::orders_id::OrderResponseData;
use crate::orders_refund::RefundRequest;
use crate::orders_submit::SubmitRequest;
use crate::orders_subscriptions::OrderSubscriptionRequest;
use crate::orders_subscriptions_id::{CustomerSubscriptionResponseData, GetSubscriptionRequest};
use crate::orders_subscriptions_recur::{CreateRecurrentChargeRequest, RecurSubscriptionResponseData};
use crate::request::{is_uuid_v7_text, Method, YandexPayApiRequest, DEFAULT_REQUEST_TIMEOUT};
use crate::response::{decode_response, decoded_payload, envelope_error, YandexPayApiError};

verus! {

/// A client of the merchant API at `base_url`, authorized by `api_key`.
/// `client` is the transport that carries its calls.
#[derive(Clone, Debug)]
pub struct YandexPayApi<C> {
    pub client: C,
    pub base_url: String,
    pub api_key: String,
}

/// `r` is a fresh envelope for a call to `url` by `method`, authorized by
/// `api_key`.
pub open spec fn is_fresh_call(r: YandexPayApiRequest, api_key: Seq<char>, url: Seq<char>, method: Method) -> bool {
    &&& r.url@ == url
    &&& r.method == method
    &&& r.api_key@ == api_key
    &&& is_uuid_v7_text(r.request_id@)
    &&& r.request_timeout == DEFAULT_REQUEST_TIMEOUT
    &&& r.request_attempt == 0
}

/// `r` carries as its body the text that serde_json writes for a JSON
/// document of which `says` holds.
pub open spec fn carries_json(r: YandexPayApiRequest, says: spec_fn(Json) -> bool) -> bool {
    r.body matches Some(b) && exists|doc: Json| #[trigger] json_text(doc) == b@ && says(doc)
}

/// `r` is what a transport outcome gives when its payload is read as a `T`:
/// the error of an envelope without a payload is passed on, a payload that
/// cannot be read is a `Decode` error, and a value comes only from a payload.
pub open spec fn passes_outcome<T>(success: bool, body: Seq<char>, r: Result<T, YandexPayApiError>) -> bool {
    &&& r is Ok ==> decoded_payload(success, body) is Some
    &&& decoded_payload(success, body) is Some ==> (r matches Err(e) ==> e is Decode)
    &&& decoded_payload(success, body) is None ==> (r matches Err(e) && envelope_error(success, body, e))
}

impl<C> YandexPayApi<C> {
    pub fn new(base_url: String, api_key: String, client: C) -> (r: YandexPayApi<C>)
        ensures
            r.base_url == base_url,
            r.api_key == api_key,
            r.client == client,
    {
        YandexPayApi { client, base_url, api_key }
    }

    pub fn get_base_url(&self) -> (r: &str)
        ensures
            r@ == self.base_url@,
    {
        self.base_url.as_str()
    }

    pub fn get_api_key(&self) -> (r: &str)
        ensures
            r@ == self.api_key@,
    {
        self.api_key.as_str()
    }

    /// The base URL followed by `path`.
    fn url_of(&self, path: &str) -> (r: String)
        ensures
            r@ == self.base_url@ + path@,
    {
        let mut url = self.base_url.clone();
        url.append(path);
        url
    }

    /// The base URL followed by `prefix`, `id` and `suffix`.
    fn url_with_id(&self, prefix: &str, id: &str, suffix: &str) -> (r: String)
        ensures
            r@ == self.base_url@ + prefix@ + id@ + suffix@,
    {
        let mut url = self.base_url.clone();
        url.append(prefix);
        url.append(id);
        url.append(suffix);
        url
    }

    fn call(&self, url: String, method: Method, body: Option<String>) -> (r: YandexPayApiRequest)
        ensures
            r.url == url,
            r.method == method,
            r.body == body,
            r.api_key == self.api_key,
            is_uuid_v7_text(r.request_id@),
            r.request_timeout == DEFAULT_REQUEST_TIMEOUT,
            r.request_attempt == 0,
    {
        YandexPayApiRequest::new(url, self.api_key.clone()).method(method).body(body).build()
    }

    /// The envelope that creates an order: `POST /api/merchant/v1/orders`
    /// with the order as its body.
    pub fn create_order_request(&self, request: &CreateOrderRequest) -> (r: YandexPayApiRequest)
        ensures
            r.url@ == self.base_url@ + "/api/merchant/v1/orders"@,
            r.method == Method::Post,
            carries_json(r, |doc: Json| CreateOrderRequest::writes_as(doc, *request) && CreateOrderRequest::read_from(doc, *request)),
            is_fresh_call(r, self.api_key@, self.base_url@ + "/api/merchant/v1/orders"@, Method::Post),
    {
        let doc = request.to_json();
        let body = write_document(&doc);
        assert(json_text(doc) == body@);
        self.call(self.url_of("/api/merchant/v1/orders"), Method::Post, Some(body))
    }

    /// Reads the answer to [`Self::create_order_request`].
    pub fn create_order_response(&self, success: bool, body: &str) -> (r: Result<CreateOrderResponse, YandexPayApiError>)
        ensures
            passes_outcome(success, body@, r),
            r matches Ok(v) ==> CreateOrderResponse::read_from(decoded_payload(success, body@)->0, v),
            decoded_payload(success, body@) is Some ==> (r is Ok <==> CreateOrderResponse::readable(decoded_payload(success, body@)->0)),
    {
        match decode_response(success, body) {
            Ok(data) => match CreateOrderResponse::from_json(&data) {
                Ok(v) => Ok(v),
                Err(e) => Err(YandexPayApiError::Decode(e)),
            },
            Err(e) => Err(e),
        }
    }

    /// The envelope that reads an order: `GET /api/merchant/v1/orders/{order_id}`.
    pub fn get_order_request(&self, order_id: &str) -> (r: YandexPayApiRequest)
        ensures
            is_fresh_call(r, self.api_key@, self.base_url@ + "/api/merchant/v1/orders/"@ + order_id@ + ""@, Method::Get),
            r.body is None,
    {
        self.call(self.url_with_id("/api/merchant/v1/orders/", order_id, ""), Method::Get, None)
    }

    /// Reads the answer to [`Self::get_order_request`].
    pub fn get_order_response(&self, success: bool, body: &str) -> (r: Result<OrderResponseData, YandexPayApiError>)
        ensures
            passes_outcome(success, body@, r),
            r matches Ok(v) ==> OrderResponseData::read_from(decoded_payload(success, body@)->0, v),
            decoded_payload(success, body@) is Some ==> (r is Ok <==> OrderResponseData::readable(decoded_payload(success, body@)->0)),
    {
        match decode_response(success, body) {
            Ok(data) => match OrderResponseData::from_json(&data) {
                Ok(v) => Ok(v),
                Err(e) => Err(YandexPayApiError::Decode(e)),
            },
            Err(e) => Err(e),
        }
    }

    /// The envelope that cancels a payment:
    /// `POST /api/merchant/v1/orders/{order_id}/cancel` with the request as its body.
    pub fn cancel_order_request(&self, order_id: &str, request: &CancelOrderRequest) -> (r: YandexPayApiRequest)
        ensures
            carries_json(r, |doc: Json| CancelOrderRequest::writes_as(doc, *request) && CancelOrderRequest::read_from(doc, *request)),
            is_fresh_call(
                r,
                self.api_key@,
                self.base_url@ + "/api/merchant/v1/orders/"@ + order_id@ + "/cancel"@,
                Method::Post,
            ),
    {
        let doc = request.to_json();
        let body = write_document(&doc);
        assert(json_text(doc) == body@);
        self.call(self.url_with_id("/api/merchant/v1/orders/", order_id, "/cancel"), Method::Post, Some(body))
    }

    /// The envelope that captures a payment:
    /// `POST /api/merchant/v1/orders/{order_id}/capture` with the request as its body.
    pub fn capture_order_request(&self, order_id: &str, request: &CaptureOrderRequest) -> (r: YandexPayApiRequest)
        ensures
            carries_json(r, |doc: Json| CaptureOrderRequest::writes_as(doc, *request) && CaptureOrderRequest::read_from(doc, *request)),
            is_fresh_call(
                r,
                self.api_key@,
                self.base_url@ + "/api/merchant/v1/orders/"@ + order_id@ + "/capture"@,
                Method::Post,
            ),
    {
        let doc = request.to_json();
        let body = write_document(&doc);
        assert(json_text(doc) == body@);
        self.call(self.url_with_id("/api/merchant/v1/orders/", order_id, "/capture"), Method::Post, Some(body))
    }

    /// The envelope that refunds a payment:
    /// `POST /api/merchant/v2/orders/{order_id}/refund` with the request as its body.
    pub fn refund_order_request(&self, order_id: &str, request: &RefundRequest) -> (r: YandexPayApiRequest)
        ensures
            carries_json(r, |doc: Json| RefundRequest::writes_as(doc, *request) && RefundRequest::read_from(doc, *request)),
            is_fresh_call(
                r,
                self.api_key@,
                self.base_url@ + "/api/merchant/v2/orders/"@ + order_id@ + "/refund"@,
                Method::Post,
            ),
    {
        let doc = request.to_json();
        let body = write_document(&doc);
        assert(json_text(doc) == body@);
        self.call(self.url_with_id("/api/merchant/v2/orders/", order_id, "/refund"), Method::Post, Some(body))
    }

    /// The envelope that rolls an order back:
    /// `POST /api/merchant/v1/orders/{order_id}/rollback` with no body.
    pub fn rollback_order_request(&self, order_id: &str) -> (r: YandexPayApiRequest)
        ensures
            is_fresh_call(
                r,
                self.api_key@,
                self.base_url@ + "/api/merchant/v1/orders/"@ + order_id@ + "/rollback"@,
                Method::Post,
            ),
            r.body is None,
    {
        self.call(self.url_with_id("/api/merchant/v1/orders/", order_id, "/rollback"), Method::Post, None)
    }

    /// Reads the answer to [`Self::rollback_order_request`]: its payload as it is.
    pub fn rollback_order_response(&self, success: bool, body: &str) -> (r: Result<Json, YandexPayApiError>)
        ensures
            passes_outcome(success, body@, r),
            r matches Ok(v) ==> decoded_payload(success, body@) == Some(v),
            decoded_payload(success, body@) is Some ==> r == Ok::<Json, YandexPayApiError>(decoded_payload(success, body@)->0),
    {
        decode_response(success, body)
    }

    /// The envelope that confirms a payment on delivery:
    /// `POST /api/merchant/v1/orders/{order_id}/submit` with the request as its body.
    pub fn submit_order_request(&self, order_id: &str, request: &SubmitRequest) -> (r: YandexPayApiRequest)
        ensures
            carries_json(r, |doc: Json| SubmitRequest::writes_as(doc, *request) && SubmitRequest::read_from(doc, *request)),
            is_fresh_call(
                r,
                self.api_key@,
                self.base_url@ + "/api/merchant/v1/orders/"@ + order_id@ + "/submit"@,
                Method::Post,
            ),
    {
        let doc = request.to_json();
        let body = write_document(&doc);
        assert(json_text(doc) == body@);
        self.call(self.url_with_id("/api/merchant/v1/orders/", order_id, "/submit"), Method::Post, Some(body))
    }

    /// The envelope that reads an operation:
    /// `GET /api/merchant/v1/operations/{external_operation_id}`.
    pub fn get_operation_request(&self, external_operation_id: &str) -> (r: YandexPayApiRequest)
        ensures
            is_fresh_call(
                r,
                self.api_key@,
                self.base_url@ + "/api/merchant/v1/operations/"@ + external_operation_id@ + ""@,
                Method::Get,
            ),
            r.body is None,
    {
        self.call(self.url_with_id("/api/merchant/v1/operations/", external_operation_id, ""), Method::Get, None)
    }

    /// Reads the answer to the cancel, capture, refund, submit and
    /// get-operation envelopes.
    pub fn operation_response(&self, success: bool, body: &str) -> (r: Result<OperationResponseData, YandexPayApiError>)
        ensures
            passes_outcome(success, body@, r),
            r matches Ok(v) ==> OperationResponseData::read_from(decoded_payload(success, body@)->0, v),
            decoded_payload(success, body@) is Some ==> (r is Ok <==> OperationResponseData::readable(decoded_payload(success, body@)->0)),
    {
        match decode_response(success, body) {
            Ok(data) => match OperationResponseData::from_json(&data) {
                Ok(v) => Ok(v),
                Err(e) => Err(YandexPayApiError::Decode(e)),
            },
            Err(e) => Err(e),
        }
    }

    /// The envelope that creates a subscription:
    /// `POST /api/merchant/v1/subscriptions` with the request as its body.
    pub fn create_subscription_request(&self, subscription: &OrderSubscriptionRequest) -> (r: YandexPayApiRequest)
        ensures
            carries_json(r, |doc: Json| OrderSubscriptionRequest::writes_as(doc, *subscription) && OrderSubscriptionRequest::read_from(doc, *subscription)),
            is_fresh_call(
                r,
                self.api_key@,
                self.base_url@ + "/api/merchant/v1/subscriptions"@,
                Method::Post,
            ),
    {
        let doc = subscription.to_json();
        let body = write_document(&doc);
        assert(json_text(doc) == body@);
        self.call(self.url_of("/api/merchant/v1/subscriptions"), Method::Post, Some(body))
    }

    /// Reads the answer to [`Self::create_subscription_request`]: its payload as it is.
    pub fn create_subscription_response(&self, success: bool, body: &str) -> (r: Result<Json, YandexPayApiError>)
        ensures
            passes_outcome(success, body@, r),
            r matches Ok(v) ==> decoded_payload(success, body@) == Some(v),
            decoded_payload(success, body@) is Some ==> r == Ok::<Json, YandexPayApiError>(decoded_payload(success, body@)->0),
    {
        decode_response(success, body)
    }

    /// The envelope that charges a subscription again:
    /// `POST /api/merchant/v1/subscriptions/recur` with the request as its body.
    pub fn recur_subscription_request(&self, subscription: &CreateRecurrentChargeRequest) -> (r: YandexPayApiRequest)
        ensures
            carries_json(r, |doc: Json| CreateRecurrentChargeRequest::writes_as(doc, *subscription) && CreateRecurrentChargeRequest::read_from(doc, *subscription)),
            is_fresh_call(
                r,
                self.api_key@,
                self.base_url@ + "/api/merchant/v1/subscriptions/recur"@,
                Method::Post,
            ),
    {
        let doc = subscription.to_json();
        let body = write_document(&doc);
        assert(json_text(doc) == body@);
        self.call(self.url_of("/api/merchant/v1/subscriptions/recur"), Method::Post, Some(body))
    }

    /// Reads the answer to [`Self::recur_subscription_request`].
    pub fn recur_subscription_response(&self, success: bool, body: &str) -> (r: Result<
        RecurSubscriptionResponseData,
        YandexPayApiError,
    >)
        ensures
            passes_outcome(success, body@, r),
            r matches Ok(v) ==> RecurSubscriptionResponseData::read_from(decoded_payload(success, body@)->0, v),
            decoded_payload(success, body@) is Some ==> (r is Ok <==> RecurSubscriptionResponseData::readable(decoded_payload(success, body@)->0)),
    {
        match decode_response(success, body) {
            Ok(data) => match RecurSubscriptionResponseData::from_json(&data) {
                Ok(v) => Ok(v),
                Err(e) => Err(YandexPayApiError::Decode(e)),
            },
            Err(e) => Err(e),
        }
    }

    /// The envelope that reads a subscription:
    /// `GET /api/merchant/v1/subscriptions/{customer_subscription_id}` with the
    /// request as its body.
    pub fn get_subscription_request(&self, customer_subscription_id: &str, request: &GetSubscriptionRequest) -> (r:
        YandexPayApiRequest)
        ensures
            carries_json(r, |doc: Json| GetSubscriptionRequest::writes_as(doc, *request) && GetSubscriptionRequest::read_from(doc, *request)),
            is_fresh_call(
                r,
                self.api_key@,
                self.base_url@ + "/api/merchant/v1/subscriptions/"@ + customer_subscription_id@ + ""@,
                Method::Get,
            ),
    {
        let doc = request.to_json();
        let body = write_document(&doc);
        assert(json_text(doc) == body@);
        self.call(self.url_with_id("/api/merchant/v1/subscriptions/", customer_subscription_id, ""), Method::Get, Some(body))
    }

    /// Reads the answer to [`Self::get_subscription_request`].
    pub fn get_subscription_response(&self, success: bool, body: &str) -> (r: Result<
        CustomerSubscriptionResponseData,
        YandexPayApiError,
    >)
        ensures
            passes_outcome(success, body@, r),
            r matches Ok(v) ==> CustomerSubscriptionResponseData::read_from(decoded_payload(success, body@)->0, v),
            decoded_payload(success, body@) is Some ==> (r is Ok <==> CustomerSubscriptionResponseData::readable(decoded_payload(success, body@)->0)),
    {
        match decode_response(success, body) {
            Ok(data) => match CustomerSubscriptionResponseData::from_json(&data) {
                Ok(v) => Ok(v),
                Err(e) => Err(YandexPayApiError::Decode(e)),
            },
            Err(e) => Err(e),
        }
    }
}

} // verus!
