use yandex_pay_api::decimal::{Decimal, DecodeError};
use yandex_pay_api::json::{get_member, read_document, read_strings, strings_json, write_document, Json};
use yandex_pay_api::orders::{
    AvailablePaymentMethod, CartTotal, CreateOrderRequest, CurrencyCode, ItemQuantity, Measure,
    MerchantRedirectUrls, PreferredPaymentMethod, RenderedCart, RenderedCartItem, Tax,
};
use yandex_pay_api::orders_cancel::{CancelOrderRequest, OperationResponseData};
use yandex_pay_api::orders_capture::CartVersion;
use yandex_pay_api::orders_id::{OperationStatus, OperationType, OrderResponseData};

const CREATE_ORDER_JSON: &str = r#"
        {
            "availablePaymentMethods": [],
            "billingPhone": "string",
            "cart": {
                "externalId": "string",
                "items": [
                    {
                        "description": "string",
                        "discountedUnitPrice": "123.45",
                        "features": {
                            "pointsDisabled": false
                        },
                        "pointsAmount": "123.46",
                        "productId": "string",
                        "quantity": {
                            "available": "123.45",
                            "count": "123.45"
                        },
                        "receipt": {
                            "agent": {
                                "agentType": 1,
                                "operation": "string",
                                "paymentsOperator": {
                                    "phones": [
                                        "string"
                                    ]
                                },
                                "phones": [
                                    "string"
                                ],
                                "transferOperator": {
                                    "address": "string",
                                    "inn": "string",
                                    "name": "string",
                                    "phones": [
                                        "string"
                                    ]
                                }
                            },
                            "excise": "123.45",
                            "markQuantity": {
                                "denominator": 0,
                                "numerator": 0
                            },
                            "measure": 0,
                            "paymentMethodType": 1,
                            "paymentSubjectType": 1,
                            "productCode": "string",
                            "supplier": {
                                "inn": "string",
                                "name": "string",
                                "phones": [
                                    "string"
                                ]
                            },
                            "tax": 1,
                            "title": "string"
                        },
                        "subtotal": "123.45",
                        "title": "string",
                        "total": "123.45",
                        "unitPrice": "123.45"
                    }
                ],
                "total": {
                    "amount": "123.45",
                    "pointsAmount": "123.45"
                }
            },
            "currencyCode": "RUB",
            "extensions": {
                "billingReport": {
                    "branchId": null,
                    "managerId": null
                },
                "qrData": {
                    "token": "string"
                },
                "smsOffer": {
                    "phone": "string"
                }
            },
            "isPrepayment": false,
            "metadata": "string",
            "orderId": "string",
            "orderSource": "WEBSITE",
            "preferredPaymentMethod": "FULLPAYMENT",
            "publicConstructor": "string",
            "purpose": "string",
            "redirectUrls": {
                "onAbort": "string",
                "onError": "string",
                "onSuccess": "string"
            },
            "risk": {
                "billingPhone": "string",
                "customerAggregates": {
                    "amountFirstSuccessfulOrder": "123.45",
                    "amountLatestSuccessfulOrder": "123.45",
                    "cookie": "string",
                    "daysSinceLastPasswordReset": 0,
                    "failedLoginAttemptsOneDay": 0,
                    "failedLoginAttemptsSevenDays": 0,
                    "firstSuccessfulOrderDate": "string",
                    "historicalCookieLogin": false,
                    "historicalDeviceLogin": false,
                    "lastPasswordResetDate": "string",
                    "latestSuccessfulOrderLastYearDate": "string",
                    "previousSuccessfulOrdersAtSameAddress": false,
                    "redemptionRateLastHalfYear": "123.45",
                    "registrationDate": "string"
                },
                "deviceId": "string",
                "isExpressShipping": false,
                "periodCheckAggregates": {
                    "successfulOrdersCountNineMonths": 0,
                    "successfulOrdersCountOneMonth": 0,
                    "successfulOrdersCountSixMonths": 0,
                    "successfulOrdersCountThreeMonths": 0,
                    "successfulOrdersCountTwelveMonths": 0,
                    "totalAmountSuccessfulOrdersNineMonths": "123.45",
                    "totalAmountSuccessfulOrdersOneMonth": "123.45",
                    "totalAmountSuccessfulOrdersSixMonths": "123.45",
                    "totalAmountSuccessfulOrdersThreeMonths": "123.45",
                    "totalAmountSuccessfulOrdersTwelveMonths": "123.45"
                },
                "shippingAddress": "string",
                "shippingPhone": "string",
                "shippingType": "COURIER"
            },
            "ttl": 1800,
            "uniqrMetadata": {
                "uniQrId": "string"
            }
        }
        "#;

fn dec(mantissa: i64, scale: u32) -> Decimal {
    Decimal { mantissa, scale }
}

fn small_order() -> CreateOrderRequest {
    CreateOrderRequest::new(
        RenderedCart::new(vec![], CartTotal::new(dec(100, 0)), "123".to_string()),
        "123".to_string(),
    )
}

#[test]
fn test_parse_create_order_request() {
    let doc = read_document(CREATE_ORDER_JSON).unwrap();
    let parsed = CreateOrderRequest::from_json(&doc).unwrap();
    assert_eq!(parsed.billing_phone, Some("string".to_string()));
    assert_eq!(parsed.cart.external_id, "string".to_string());
    assert_eq!(parsed.currency_code, CurrencyCode::Rub);
    assert_eq!(parsed.order_id, "string".to_string());
}

#[test]
fn parsed_order_keeps_nested_values() {
    let doc = read_document(CREATE_ORDER_JSON).unwrap();
    let parsed = CreateOrderRequest::from_json(&doc).unwrap();
    let item = &parsed.cart.items[0];
    assert_eq!(item.total, dec(12345, 2));
    assert_eq!(item.points_amount, Some(dec(12346, 2)));
    let receipt = item.receipt.as_ref().unwrap();
    assert_eq!(receipt.tax, Tax::Vat20);
    assert_eq!(receipt.measure, Some(Measure::Units));
    assert_eq!(parsed.ttl, Some(1800));
    assert_eq!(parsed.available_payment_methods, vec![]);
    assert_eq!(parsed.preferred_payment_method, Some(PreferredPaymentMethod::FullPayment));
    let extensions = parsed.extensions.as_ref().unwrap();
    assert_eq!(extensions.billing_report.as_ref().unwrap().branch_id, None);
}

#[test]
fn test_create_order() {
    let request = small_order();
    let json = write_document(&request.to_json());
    println!("{}", json);
    assert!(json.contains("\"orderId\":\"123\""));
    assert!(json.contains("\"amount\":\"100\""));
}

#[test]
fn new_order_has_builder_defaults() {
    let request = small_order();
    assert_eq!(request.currency_code, CurrencyCode::Rub);
    assert_eq!(request.available_payment_methods, vec![AvailablePaymentMethod::Card]);
    assert!(!request.is_prepayment);
    assert_eq!(request.preferred_payment_method, Some(PreferredPaymentMethod::FullPayment));
    assert_eq!(request.ttl, Some(1800));
    assert_eq!(request.billing_phone, None);
}

#[test]
fn unset_optional_fields_are_absent() {
    let request = small_order();
    let doc = request.to_json();
    for key in ["billingPhone", "extensions", "metadata", "orderSource", "publicConstructor", "purpose",
        "redirectUrls", "risk", "uniqrMetadata"] {
        assert!(get_member(&doc, key).is_none(), "{}", key);
    }
    let text = write_document(&doc);
    assert!(!text.contains("null"));
    assert!(!text.contains("billingPhone"));
    assert!(text.contains("\"ttl\":1800"));
    // an empty list of items is left out as well
    let cart = get_member(&doc, "cart").unwrap();
    assert!(get_member(cart, "items").is_none());
}

#[test]
fn set_optional_fields_are_written() {
    let mut request = small_order();
    request.billing_phone = Some("+71234567890".to_string());
    request.redirect_urls = Some(MerchantRedirectUrls::new("https://e/error".to_string(), "https://e/ok".to_string()));
    let doc = request.to_json();
    match get_member(&doc, "billingPhone") {
        Some(Json::Str(s)) => assert_eq!(s, "+71234567890"),
        other => panic!("unexpected {:?}", other),
    }
    let urls = get_member(&doc, "redirectUrls").unwrap();
    assert!(get_member(urls, "onAbort").is_none());
}

#[test]
fn order_round_trips_through_json() {
    let mut request = small_order();
    request.cart.items.push(RenderedCartItem::new(
        "p1".to_string(),
        ItemQuantity::new(dec(1, 0), dec(5, 0)),
        "Phone".to_string(),
        dec(2999999, 2),
    ));
    let text = write_document(&request.to_json());
    let back = CreateOrderRequest::from_json(&read_document(&text).unwrap()).unwrap();
    assert_eq!(back, request);
}

#[test]
fn cancel_request_leaves_out_unset_operation_id() {
    let request = CancelOrderRequest::new("changed mind".to_string());
    let text = write_document(&request.to_json());
    assert_eq!(text, "{\"reason\":\"changed mind\"}");
}

#[test]
fn enum_wire_forms() {
    assert_eq!(Tax::Vat10_110.code(), 4);
    assert_eq!(Tax::from_code(6), Some(Tax::NoVat));
    assert_eq!(Tax::from_code(11), None);
    assert_eq!(Measure::from_code(255), Some(Measure::Other));
    assert_eq!(AvailablePaymentMethod::Split.wire_name(), "SPLIT");
    assert_eq!(CartVersion::SemiValid.wire_name(), "SEMIVALID");
    assert_eq!(OperationType::from_wire_name("BIND_CARD"), Some(OperationType::BindCard));
    assert_eq!(OperationType::from_wire_name("bind_card"), None);
    assert_eq!(CartVersion::default(), CartVersion::Valid);
}

#[test]
fn records_reject_wrong_shapes() {
    let doc = read_document("[1, 2]").unwrap();
    assert_eq!(CancelOrderRequest::from_json(&doc).err(), Some(DecodeError::MalformedResponse));
    let doc = read_document(r#"{"reason": 5}"#).unwrap();
    assert_eq!(CancelOrderRequest::from_json(&doc).err(), Some(DecodeError::MalformedResponse));
    let doc = read_document(r#"{"amount": "12,5"}"#).unwrap();
    assert_eq!(CartTotal::from_json(&doc).err(), Some(DecodeError::MalformedNumber));
    let doc = read_document(r#"{"tax": 99}"#).unwrap();
    assert!(yandex_pay_api::orders::ItemReceipt::from_json(&doc).is_err());
}

#[test]
fn operation_reads_number_amount_and_dates() {
    let doc = read_document(
        r#"{"operation": {"amount": 100.5, "operationId": "op", "operationType": "REFUND", "orderId": "o1",
            "created": "2022-12-29", "updated": "2025-05-11T19:21:09Z", "params": {"a": [1, true]},
            "status": "SUCCESS"}}"#,
    )
    .unwrap();
    let data = OperationResponseData::from_json(&doc).unwrap();
    let op = data.operation;
    assert_eq!(op.amount, dec(1005, 1));
    assert_eq!(op.operation_type, OperationType::Refund);
    assert_eq!(op.status, OperationStatus::Success);
    assert_eq!(op.created.unwrap().day, 29);
    assert_eq!(op.updated.unwrap().hour, 19);
    assert_eq!(op.params, Some("{\"a\":[1,true]}".to_string()));
    assert_eq!(op.reason, None);
}

#[test]
fn order_response_reads_defaults() {
    let doc = read_document(
        r#"{"operations": [], "order": {"cart": {"items": [], "cartId": "c", "total": {"amount": "10.00"}},
            "orderAmount": "10.00", "orderId": "o1"}}"#,
    )
    .unwrap();
    let data = OrderResponseData::from_json(&doc).unwrap();
    let order = data.order.unwrap();
    assert_eq!(order.currency_code, CurrencyCode::Rub);
    assert!(!order.is_prepayment);
    assert_eq!(order.cart.coupons, vec![]);
    assert_eq!(order.order_amount, dec(1000, 2));
    assert!(data.delivery.is_none());
    let missing = read_document(r#"{"order": null}"#).unwrap();
    assert_eq!(OrderResponseData::from_json(&missing).err(), Some(DecodeError::MalformedResponse));
}

#[test]
fn string_lists() {
    let items = vec!["a".to_string(), "b".to_string()];
    let j = strings_json(&items);
    assert_eq!(read_strings(&j), Ok(items));
    let bad = read_document(r#"["a", 1]"#).unwrap();
    assert_eq!(read_strings(&bad), Err(DecodeError::MalformedResponse));
}

#[test]
fn numbers_keep_their_text() {
    let doc = read_document(r#"{"height": 100.10, "length": 12345678901234567.89, "weight": 1, "width": 0.5}"#).unwrap();
    let m = yandex_pay_api::orders_id::Measurements::from_json(&doc).unwrap();
    assert_eq!(m.height, dec(10010, 2));
    assert_eq!(m.length, dec(1234567890123456789, 2));
    let text = write_document(&m.to_json());
    assert!(text.contains("\"height\":100.10"), "{}", text);
    assert!(text.contains("\"length\":12345678901234567.89"), "{}", text);
}
