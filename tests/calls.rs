use yandex_pay_api::decimal::{Decimal, DecodeError};
use yandex_pay_api::json::{get_member, read_document, Json};
use yandex_pay_api::orders::{CartTotal, CreateOrderRequest, RenderedCart};
use yandex_pay_api::orders_cancel::CancelOrderRequest;
use yandex_pay_api::orders_refund::RefundRequest;
use yandex_pay_api::orders_submit::SubmitRequest;
use yandex_pay_api::orders_subscriptions::OrderSubscriptionRequest;
use yandex_pay_api::orders_subscriptions_recur::CreateRecurrentChargeRequest;
use yandex_pay_api::orders_subscriptions_id::GetSubscriptionRequest;
use yandex_pay_api::request::{number_text, request_headers, DEFAULT_REQUEST_TIMEOUT};
use yandex_pay_api::response::decode_response;
use yandex_pay_api::{Method, YandexPayApi, YandexPayApiError, YandexPayApiRequest};

fn api() -> YandexPayApi<()> {
    YandexPayApi::new("https://sandbox.pay.yandex.ru".to_string(), "key-1".to_string(), ())
}

fn order() -> CreateOrderRequest {
    CreateOrderRequest::new(
        RenderedCart::new(vec![], CartTotal::new(Decimal { mantissa: 29999, scale: 2 }), "cart-1".to_string()),
        "order-1".to_string(),
    )
}

fn is_uuid_v7(s: &str) -> bool {
    s.len() == 36
        && s.char_indices().all(|(i, c)| match i {
            8 | 13 | 18 | 23 => c == '-',
            _ => c.is_ascii_digit() || ('a'..='f').contains(&c),
        })
        && s.as_bytes()[14] == b'7'
}

#[test]
fn create_order_reads_payment_url() {
    let api = api();
    // the transport double answers with a success body
    let envelope = api.create_order_request(&order());
    assert_eq!(envelope.method, Method::Post);
    let body = r#"{"data": {"paymentUrl": "https://x"}, "code": 200}"#;
    let response = api.create_order_response(true, body).unwrap();
    assert_eq!(response.payment_url, "https://x");
}

#[test]
fn failure_body_gives_api_error() {
    let api = api();
    let body = r#"{"code":400,"status":"BAD_REQUEST","message":"duplicate"}"#;
    match api.operation_response(false, body) {
        Err(YandexPayApiError::Api(e)) => {
            assert_eq!(e.message, "duplicate");
            assert_eq!(e.code, Some(400));
            assert_eq!(e.status, Some("BAD_REQUEST".to_string()));
        },
        other => panic!("unexpected {:?}", other),
    }
}

#[test]
fn failure_body_without_message() {
    match decode_response(false, r#"{"code": 500}"#) {
        Err(YandexPayApiError::Api(e)) => {
            assert_eq!(e.message, "");
            assert_eq!(e.status, None);
        },
        other => panic!("unexpected {:?}", other),
    }
}

#[test]
fn malformed_bodies() {
    let malformed = Err(YandexPayApiError::Decode(DecodeError::MalformedResponse));
    assert_eq!(decode_response(true, "not json").map(|_| ()), malformed);
    assert_eq!(decode_response(false, "not json").map(|_| ()), malformed);
    assert_eq!(decode_response(true, r#"{"code": 200}"#).map(|_| ()), malformed);
    assert_eq!(decode_response(true, r#"{"data": {}, "code": "200"}"#).map(|_| ()), malformed);
    assert_eq!(decode_response(false, r#"{"message": null}"#).map(|_| ()), malformed);
    assert_eq!(decode_response(false, r#"[]"#).map(|_| ()), malformed);
    // the success flag, not the body, picks the shape
    assert_eq!(decode_response(true, r#"{"code":400,"message":"duplicate"}"#).map(|_| ()), malformed);
    assert!(matches!(decode_response(false, r#"{"data": {"paymentUrl": "u"}}"#), Err(YandexPayApiError::Api(_))));
}

#[test]
fn payload_of_wrong_shape_is_decode_error() {
    let api = api();
    let r = api.create_order_response(true, r#"{"data": {"paymentUrl": 7}}"#);
    assert_eq!(r.err(), Some(YandexPayApiError::Decode(DecodeError::MalformedResponse)));
}

#[test]
fn rollback_returns_payload_as_is() {
    let api = api();
    let data = api.rollback_order_response(true, r#"{"data": {"ok": true}, "status": "success"}"#).unwrap();
    assert!(matches!(get_member(&data, "ok"), Some(Json::Bool(true))));
}

#[test]
fn generated_request_ids_are_distinct_and_ordered() {
    let first = YandexPayApiRequest::new("u".to_string(), "k".to_string()).build();
    let second = YandexPayApiRequest::new("u".to_string(), "k".to_string()).build();
    assert!(is_uuid_v7(&first.request_id), "{}", first.request_id);
    assert!(is_uuid_v7(&second.request_id), "{}", second.request_id);
    assert_ne!(first.request_id, second.request_id);
    assert!(first.request_id < second.request_id);
}

#[test]
fn builder_defaults_and_choices() {
    let r = YandexPayApiRequest::new("https://h/p".to_string(), "k".to_string()).build();
    assert_eq!(r.method, Method::Get);
    assert_eq!(r.body, None);
    assert_eq!(r.request_timeout, DEFAULT_REQUEST_TIMEOUT);
    assert_eq!(r.request_timeout, 9999);
    assert_eq!(r.request_attempt, 0);
    let r = YandexPayApiRequest::new("https://h/p".to_string(), "k".to_string())
        .method(Method::Post)
        .body(Some("{}".to_string()))
        .request_id("my-id".to_string())
        .request_timeout(500)
        .request_attempt(2)
        .build();
    assert_eq!(r.method, Method::Post);
    assert_eq!(r.body, Some("{}".to_string()));
    assert_eq!(r.request_id, "my-id");
    assert_eq!(r.request_timeout, 500);
    assert_eq!(r.request_attempt, 2);
    let kept = YandexPayApiRequest::new("u".to_string(), "k".to_string()).assemble("fresh".to_string());
    assert_eq!(kept.request_id, "fresh");
}

#[test]
fn headers_of_a_request() {
    let r = YandexPayApiRequest::new("https://h/p".to_string(), "secret".to_string())
        .request_id("id-1".to_string())
        .request_attempt(3)
        .build();
    let headers = request_headers(&r);
    let expected = [
        ("Authorization", "Api-Key secret"),
        ("X-Request-Id", "id-1"),
        ("X-Request-Timeout", "9999"),
        ("X-Request-Attempt", "3"),
        ("Content-Type", "application/json"),
    ];
    assert_eq!(headers.len(), expected.len());
    for (h, (name, value)) in headers.iter().zip(expected) {
        assert_eq!(h.0, name);
        assert_eq!(h.1, value);
    }
    assert_eq!(number_text(0), "0");
    assert_eq!(number_text(u32::MAX), "4294967295");
}

#[test]
fn paths_and_verbs_of_actions() {
    let api = api();
    let base = "https://sandbox.pay.yandex.ru";
    let r = api.create_order_request(&order());
    assert_eq!(r.url, format!("{}/api/merchant/v1/orders", base));
    assert_eq!(r.api_key, "key-1");
    let body = read_document(r.body.as_ref().unwrap()).unwrap();
    assert!(matches!(get_member(&body, "orderId"), Some(Json::Str(s)) if s == "order-1"));
    let r = api.get_order_request("o1");
    assert_eq!((r.url.as_str(), r.method, r.body.is_none()), ("https://sandbox.pay.yandex.ru/api/merchant/v1/orders/o1", Method::Get, true));
    let refund = RefundRequest::new(Decimal { mantissa: 15, scale: 1 });
    let r = api.refund_order_request("o1", &refund);
    assert_eq!(r.url, format!("{}/api/merchant/v2/orders/o1/refund", base));
    assert_eq!(r.body, Some("{\"refundAmount\":\"1.5\"}".to_string()));
    let r = api.rollback_order_request("o1");
    assert_eq!((r.url.as_str(), r.method, r.body.is_none()), ("https://sandbox.pay.yandex.ru/api/merchant/v1/orders/o1/rollback", Method::Post, true));
    let r = api.get_operation_request("ext-9");
    assert_eq!(r.url, format!("{}/api/merchant/v1/operations/ext-9", base));
    let r = api.get_subscription_request("s-1", &GetSubscriptionRequest::new(true));
    assert_eq!((r.url.as_str(), r.method), ("https://sandbox.pay.yandex.ru/api/merchant/v1/subscriptions/s-1", Method::Get));
    assert_eq!(r.body, Some("{\"checkCardActive\":true}".to_string()));
    assert_eq!(api.get_base_url(), base);
    assert_eq!(api.get_api_key(), "key-1");
}

#[test]
fn request_bodies_are_the_serialized_requests() {
    let api = api();
    let r = api.cancel_order_request("o1", &CancelOrderRequest::new("r".to_string()));
    assert_eq!(r.body, Some("{\"reason\":\"r\"}".to_string()));
    let r = api.refund_order_request("o1", &RefundRequest::new(Decimal { mantissa: 12345, scale: 2 }));
    assert_eq!(r.body, Some("{\"refundAmount\":\"123.45\"}".to_string()));
    let r = api.submit_order_request("o1", &SubmitRequest::new("op-1".to_string()));
    assert_eq!(r.body, Some("{\"externalOperationId\":\"op-1\"}".to_string()));
    let mut sub = OrderSubscriptionRequest::new("s1".to_string());
    sub.ttl = None;
    let r = api.create_subscription_request(&sub);
    let body = r.body.unwrap();
    assert!(!body.contains("null"), "{}", body);
    assert_eq!(body, "{\"currencyCode\":\"RUB\",\"isBinding\":false,\"orderId\":\"s1\"}");
    let recur = CreateRecurrentChargeRequest::new(
        Decimal { mantissa: 5, scale: 0 },
        RenderedCart::new(vec![], CartTotal::new(Decimal { mantissa: 5, scale: 0 }), "c".to_string()),
        "o2".to_string(),
        "o1".to_string(),
    );
    let r = api.recur_subscription_request(&recur);
    let doc = read_document(r.body.as_ref().unwrap()).unwrap();
    match &doc {
        Json::Object(ms) => {
            let mut keys: Vec<&str> = ms.iter().map(|(k, _)| k.as_str()).collect();
            keys.sort();
            assert_eq!(keys, vec!["amount", "cart", "currencyCode", "orderId", "parentOrderId"]);
        },
        other => panic!("unexpected {:?}", other),
    }
}

#[test]
fn create_order_body_matches_original_example() {
    let api = api();
    let request = CreateOrderRequest::new(
        RenderedCart::new(vec![], CartTotal::new(Decimal { mantissa: 100, scale: 0 }), "123".to_string()),
        "123".to_string(),
    );
    let body = api.create_order_request(&request).body.unwrap();
    assert_eq!(
        body,
        "{\"availablePaymentMethods\":[\"CARD\"],\"cart\":{\"externalId\":\"123\",\"total\":{\"amount\":\"100\"}},\
         \"currencyCode\":\"RUB\",\"isPrepayment\":false,\"orderId\":\"123\",\"preferredPaymentMethod\":\"FULLPAYMENT\",\"ttl\":1800}"
    );
    // an empty cart, left out when written, reads back as empty
    let back = CreateOrderRequest::from_json(&read_document(&body).unwrap()).unwrap();
    assert_eq!(back, request);
}
