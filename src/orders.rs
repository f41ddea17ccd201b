//! Orders: the request that creates one, its cart, receipt and risk data.
use vstd::prelude::*;

use crate::decimal::{decimal_text, Decimal, DecodeError};
use crate::json::{Json, member, lookup, lemma_lookup_concat, field_holds, opt_field_holds, list_holds, list_or_empty_holds, string_value, bool_value, decimal_string_value, i32_value, u32_value, u8_value, read_string, read_bool, read_decimal_string, read_i32, read_u32, read_u8, string_json, decimal_string_json, integer_json, push_field, push_optional, is_object, get_member, same_text, strings_json, read_strings, strings_readable};

verus! {

/// The body of a request that creates an order and its payment link.
#[derive(Clone, Debug, PartialEq)]
pub struct CreateOrderRequest {
    pub cart: RenderedCart,
    pub currency_code: CurrencyCode,
    pub order_id: String,
    pub available_payment_methods: Vec<AvailablePaymentMethod>,
    pub billing_phone: Option<String>,
    pub extensions: Option<OrderExtensions>,
    pub is_prepayment: bool,
    pub metadata: Option<String>,
    pub order_source: Option<OrderSource>,
    pub preferred_payment_method: Option<PreferredPaymentMethod>,
    pub public_constructor: Option<String>,
    pub purpose: Option<String>,
    pub redirect_urls: Option<MerchantRedirectUrls>,
    pub risk: Option<MerchantRiskInfo>,
    pub ttl: Option<u32>,
    pub uniqr_metadata: Option<UniqrMetadata>,
}

impl CreateOrderRequest {
    /// A value with the given fields and every other field at its default:
    /// `currency_code` is `CurrencyCode::Rub`, `available_payment_methods` is `vec![AvailablePaymentMethod::Card]`, `is_prepayment` is `false`, `preferred_payment_method` is `Some(PreferredPaymentMethod::FullPayment)`, `ttl` is `Some(1800u32)`, and the optional fields unset.
    pub fn new(cart: RenderedCart, order_id: String) -> (r: CreateOrderRequest)
        ensures
            r.cart == cart,
            r.order_id == order_id,
            r.currency_code == CurrencyCode::Rub,
            r.available_payment_methods@ == seq![AvailablePaymentMethod::Card],
            r.billing_phone is None,
            r.extensions is None,
            r.is_prepayment == false,
            r.metadata is None,
            r.order_source is None,
            r.preferred_payment_method == Some(PreferredPaymentMethod::FullPayment),
            r.public_constructor is None,
            r.purpose is None,
            r.redirect_urls is None,
            r.risk is None,
            r.ttl == Some(1800u32),
            r.uniqr_metadata is None,
    {
        CreateOrderRequest {
            cart,
            currency_code: CurrencyCode::Rub,
            order_id,
            available_payment_methods: vec![AvailablePaymentMethod::Card],
            billing_phone: None,
            extensions: None,
            is_prepayment: false,
            metadata: None,
            order_source: None,
            preferred_payment_method: Some(PreferredPaymentMethod::FullPayment),
            public_constructor: None,
            purpose: None,
            redirect_urls: None,
            risk: None,
            ttl: Some(1800u32),
            uniqr_metadata: None,
        }
    }

    /// `doc` is what [`Self::to_json`] writes for `v`: each field under its
    /// camelCase key, amounts as strings, nested values as they write
    /// themselves, no member at all for an unset optional field or an empty
    /// list that is left out, and no member under any other key.
    pub open spec fn writes_as(doc: Json, v: CreateOrderRequest) -> bool {
        &&& doc is Object
        &&& field_holds(member(doc, "cart"@), |j: Json, x: RenderedCart| RenderedCart::writes_as(j, x), v.cart)
        &&& field_holds(member(doc, "currencyCode"@), |j: Json, x: CurrencyCode| CurrencyCode::writes_as(j, x), v.currency_code)
        &&& field_holds(member(doc, "orderId"@), |j: Json, x: String| string_value(j) == Ok::<String, DecodeError>(x), v.order_id)
        &&& if v.available_payment_methods@.len() == 0 {
            member(doc, "availablePaymentMethods"@) is None
        } else {
            list_holds(member(doc, "availablePaymentMethods"@), |j: Json, x: AvailablePaymentMethod| AvailablePaymentMethod::writes_as(j, x), v.available_payment_methods@)
        }
        &&& match v.billing_phone {
            None => member(doc, "billingPhone"@) is None,
            Some(w) => field_holds(member(doc, "billingPhone"@), |j: Json, x: String| string_value(j) == Ok::<String, DecodeError>(x), w),
        }
        &&& match v.extensions {
            None => member(doc, "extensions"@) is None,
            Some(w) => field_holds(member(doc, "extensions"@), |j: Json, x: OrderExtensions| OrderExtensions::writes_as(j, x), w),
        }
        &&& field_holds(member(doc, "isPrepayment"@), |j: Json, x: bool| bool_value(j) == Ok::<bool, DecodeError>(x), v.is_prepayment)
        &&& match v.metadata {
            None => member(doc, "metadata"@) is None,
            Some(w) => field_holds(member(doc, "metadata"@), |j: Json, x: String| string_value(j) == Ok::<String, DecodeError>(x), w),
        }
        &&& match v.order_source {
            None => member(doc, "orderSource"@) is None,
            Some(w) => field_holds(member(doc, "orderSource"@), |j: Json, x: OrderSource| OrderSource::writes_as(j, x), w),
        }
        &&& match v.preferred_payment_method {
            None => member(doc, "preferredPaymentMethod"@) is None,
            Some(w) => field_holds(member(doc, "preferredPaymentMethod"@), |j: Json, x: PreferredPaymentMethod| PreferredPaymentMethod::writes_as(j, x), w),
        }
        &&& match v.public_constructor {
            None => member(doc, "publicConstructor"@) is None,
            Some(w) => field_holds(member(doc, "publicConstructor"@), |j: Json, x: String| string_value(j) == Ok::<String, DecodeError>(x), w),
        }
        &&& match v.purpose {
            None => member(doc, "purpose"@) is None,
            Some(w) => field_holds(member(doc, "purpose"@), |j: Json, x: String| string_value(j) == Ok::<String, DecodeError>(x), w),
        }
        &&& match v.redirect_urls {
            None => member(doc, "redirectUrls"@) is None,
            Some(w) => field_holds(member(doc, "redirectUrls"@), |j: Json, x: MerchantRedirectUrls| MerchantRedirectUrls::writes_as(j, x), w),
        }
        &&& match v.risk {
            None => member(doc, "risk"@) is None,
            Some(w) => field_holds(member(doc, "risk"@), |j: Json, x: MerchantRiskInfo| MerchantRiskInfo::writes_as(j, x), w),
        }
        &&& match v.ttl {
            None => member(doc, "ttl"@) is None,
            Some(w) => field_holds(member(doc, "ttl"@), |j: Json, x: u32| j matches Json::Number(t) && t@ == decimal_text(Decimal { mantissa: x as i64, scale: 0 }), w),
        }
        &&& match v.uniqr_metadata {
            None => member(doc, "uniqrMetadata"@) is None,
            Some(w) => field_holds(member(doc, "uniqrMetadata"@), |j: Json, x: UniqrMetadata| UniqrMetadata::writes_as(j, x), w),
        }
        &&& forall|k: Seq<char>| #[trigger] member(doc, k) is Some ==> k == "cart"@ || k == "currencyCode"@ || k == "orderId"@ || k == "availablePaymentMethods"@ || k == "billingPhone"@ || k == "extensions"@ || k == "isPrepayment"@ || k == "metadata"@ || k == "orderSource"@ || k == "preferredPaymentMethod"@ || k == "publicConstructor"@ || k == "purpose"@ || k == "redirectUrls"@ || k == "risk"@ || k == "ttl"@ || k == "uniqrMetadata"@
    }

    /// The members for `cart`, `currency_code`, `order_id`, `available_payment_methods`, `billing_phone`, `extensions`.
    fn members_1(&self) -> (ms: Vec<(String, Json)>)
        ensures
            field_holds(lookup(ms@, "cart"@), |j: Json, x: RenderedCart| RenderedCart::writes_as(j, x), self.cart),
            field_holds(lookup(ms@, "cart"@), |j: Json, x: RenderedCart| RenderedCart::read_from(j, x), self.cart),
            field_holds(lookup(ms@, "currencyCode"@), |j: Json, x: CurrencyCode| CurrencyCode::writes_as(j, x), self.currency_code),
            field_holds(lookup(ms@, "currencyCode"@), |j: Json, x: CurrencyCode| CurrencyCode::read_from(j, x), self.currency_code),
            field_holds(lookup(ms@, "orderId"@), |j: Json, x: String| string_value(j) == Ok::<String, DecodeError>(x), self.order_id),
            field_holds(lookup(ms@, "orderId"@), |j: Json, x: String| string_value(j) == Ok::<String, DecodeError>(x), self.order_id),
            if self.available_payment_methods@.len() == 0 {
                    lookup(ms@, "availablePaymentMethods"@) is None
                } else {
                    list_holds(lookup(ms@, "availablePaymentMethods"@), |j: Json, x: AvailablePaymentMethod| AvailablePaymentMethod::writes_as(j, x), self.available_payment_methods@)
                },
            list_or_empty_holds(lookup(ms@, "availablePaymentMethods"@), |j: Json, x: AvailablePaymentMethod| AvailablePaymentMethod::read_from(j, x), self.available_payment_methods@),
            match self.billing_phone {
                    None => lookup(ms@, "billingPhone"@) is None,
                    Some(w) => field_holds(lookup(ms@, "billingPhone"@), |j: Json, x: String| string_value(j) == Ok::<String, DecodeError>(x), w),
                },
            opt_field_holds(lookup(ms@, "billingPhone"@), |j: Json, x: String| string_value(j) == Ok::<String, DecodeError>(x), self.billing_phone),
            match self.extensions {
                    None => lookup(ms@, "extensions"@) is None,
                    Some(w) => field_holds(lookup(ms@, "extensions"@), |j: Json, x: OrderExtensions| OrderExtensions::writes_as(j, x), w),
                },
            opt_field_holds(lookup(ms@, "extensions"@), |j: Json, x: OrderExtensions| OrderExtensions::read_from(j, x), self.extensions),
            forall|k: Seq<char>| #[trigger] lookup(ms@, k) is Some ==> k == "cart"@ || k == "currencyCode"@ || k == "orderId"@ || k == "availablePaymentMethods"@ || k == "billingPhone"@ || k == "extensions"@,
    {
        let mut ms: Vec<(String, Json)> = Vec::new();
        proof {
            reveal_strlit("cart");
            reveal_strlit("currencyCode");
            reveal_strlit("orderId");
            reveal_strlit("availablePaymentMethods");
            reveal_strlit("billingPhone");
            reveal_strlit("extensions");
            assert("cart"@.len() == 4);
            assert("currencyCode"@.len() == 12);
            assert("orderId"@.len() == 7);
            assert("availablePaymentMethods"@.len() == 23);
            assert("billingPhone"@.len() == 12);
            assert("extensions"@.len() == 10);
            assert("billingPhone"@[0] == 'b');
            assert("currencyCode"@[0] == 'c');
        }
        push_field(&mut ms, "cart", self.cart.to_json());
        push_field(&mut ms, "currencyCode", self.currency_code.to_json());
        push_field(&mut ms, "orderId", string_json(&self.order_id));
        if self.available_payment_methods.len() > 0 {
            push_field(&mut ms, "availablePaymentMethods", AvailablePaymentMethod::list_to_json(&self.available_payment_methods));
        }
        push_optional(&mut ms, "billingPhone", match &self.billing_phone {
            Some(x) => Some(string_json(x)),
            None => None,
        });
        push_optional(&mut ms, "extensions", match &self.extensions {
            Some(x) => Some(x.to_json()),
            None => None,
        });
        ms
    }

    /// The members for `is_prepayment`, `metadata`, `order_source`, `preferred_payment_method`, `public_constructor`, `purpose`.
    fn members_2(&self) -> (ms: Vec<(String, Json)>)
        ensures
            field_holds(lookup(ms@, "isPrepayment"@), |j: Json, x: bool| bool_value(j) == Ok::<bool, DecodeError>(x), self.is_prepayment),
            field_holds(lookup(ms@, "isPrepayment"@), |j: Json, x: bool| bool_value(j) == Ok::<bool, DecodeError>(x), self.is_prepayment),
            match self.metadata {
                    None => lookup(ms@, "metadata"@) is None,
                    Some(w) => field_holds(lookup(ms@, "metadata"@), |j: Json, x: String| string_value(j) == Ok::<String, DecodeError>(x), w),
                },
            opt_field_holds(lookup(ms@, "metadata"@), |j: Json, x: String| string_value(j) == Ok::<String, DecodeError>(x), self.metadata),
            match self.order_source {
                    None => lookup(ms@, "orderSource"@) is None,
                    Some(w) => field_holds(lookup(ms@, "orderSource"@), |j: Json, x: OrderSource| OrderSource::writes_as(j, x), w),
                },
            opt_field_holds(lookup(ms@, "orderSource"@), |j: Json, x: OrderSource| OrderSource::read_from(j, x), self.order_source),
            match self.preferred_payment_method {
                    None => lookup(ms@, "preferredPaymentMethod"@) is None,
                    Some(w) => field_holds(lookup(ms@, "preferredPaymentMethod"@), |j: Json, x: PreferredPaymentMethod| PreferredPaymentMethod::writes_as(j, x), w),
                },
            opt_field_holds(lookup(ms@, "preferredPaymentMethod"@), |j: Json, x: PreferredPaymentMethod| PreferredPaymentMethod::read_from(j, x), self.preferred_payment_method),
            match self.public_constructor {
                    None => lookup(ms@, "publicConstructor"@) is None,
                    Some(w) => field_holds(lookup(ms@, "publicConstructor"@), |j: Json, x: String| string_value(j) == Ok::<String, DecodeError>(x), w),
                },
            opt_field_holds(lookup(ms@, "publicConstructor"@), |j: Json, x: String| string_value(j) == Ok::<String, DecodeError>(x), self.public_constructor),
            match self.purpose {
                    None => lookup(ms@, "purpose"@) is None,
                    Some(w) => field_holds(lookup(ms@, "purpose"@), |j: Json, x: String| string_value(j) == Ok::<String, DecodeError>(x), w),
                },
            opt_field_holds(lookup(ms@, "purpose"@), |j: Json, x: String| string_value(j) == Ok::<String, DecodeError>(x), self.purpose),
            forall|k: Seq<char>| #[trigger] lookup(ms@, k) is Some ==> k == "isPrepayment"@ || k == "metadata"@ || k == "orderSource"@ || k == "preferredPaymentMethod"@ || k == "publicConstructor"@ || k == "purpose"@,
    {
        let mut ms: Vec<(String, Json)> = Vec::new();
        proof {
            reveal_strlit("isPrepayment");
            reveal_strlit("metadata");
            reveal_strlit("orderSource");
            reveal_strlit("preferredPaymentMethod");
            reveal_strlit("publicConstructor");
            reveal_strlit("purpose");
            assert("isPrepayment"@.len() == 12);
            assert("metadata"@.len() == 8);
            assert("orderSource"@.len() == 11);
            assert("preferredPaymentMethod"@.len() == 22);
            assert("publicConstructor"@.len() == 17);
            assert("purpose"@.len() == 7);
        }
        push_field(&mut ms, "isPrepayment", Json::Bool(*&self.is_prepayment));
        push_optional(&mut ms, "metadata", match &self.metadata {
            Some(x) => Some(string_json(x)),
            None => None,
        });
        push_optional(&mut ms, "orderSource", match &self.order_source {
            Some(x) => Some(x.to_json()),
            None => None,
        });
        push_optional(&mut ms, "preferredPaymentMethod", match &self.preferred_payment_method {
            Some(x) => Some(x.to_json()),
            None => None,
        });
        push_optional(&mut ms, "publicConstructor", match &self.public_constructor {
            Some(x) => Some(string_json(x)),
            None => None,
        });
        push_optional(&mut ms, "purpose", match &self.purpose {
            Some(x) => Some(string_json(x)),
            None => None,
        });
        ms
    }

    /// The members for `redirect_urls`, `risk`, `ttl`, `uniqr_metadata`.
    fn members_3(&self) -> (ms: Vec<(String, Json)>)
        ensures
            match self.redirect_urls {
                    None => lookup(ms@, "redirectUrls"@) is None,
                    Some(w) => field_holds(lookup(ms@, "redirectUrls"@), |j: Json, x: MerchantRedirectUrls| MerchantRedirectUrls::writes_as(j, x), w),
                },
            opt_field_holds(lookup(ms@, "redirectUrls"@), |j: Json, x: MerchantRedirectUrls| MerchantRedirectUrls::read_from(j, x), self.redirect_urls),
            match self.risk {
                    None => lookup(ms@, "risk"@) is None,
                    Some(w) => field_holds(lookup(ms@, "risk"@), |j: Json, x: MerchantRiskInfo| MerchantRiskInfo::writes_as(j, x), w),
                },
            opt_field_holds(lookup(ms@, "risk"@), |j: Json, x: MerchantRiskInfo| MerchantRiskInfo::read_from(j, x), self.risk),
            match self.ttl {
                    None => lookup(ms@, "ttl"@) is None,
                    Some(w) => field_holds(lookup(ms@, "ttl"@), |j: Json, x: u32| j matches Json::Number(t) && t@ == decimal_text(Decimal { mantissa: x as i64, scale: 0 }), w),
                },
            opt_field_holds(lookup(ms@, "ttl"@), |j: Json, x: u32| u32_value(j) == Ok::<u32, DecodeError>(x), self.ttl),
            match self.uniqr_metadata {
                    None => lookup(ms@, "uniqrMetadata"@) is None,
                    Some(w) => field_holds(lookup(ms@, "uniqrMetadata"@), |j: Json, x: UniqrMetadata| UniqrMetadata::writes_as(j, x), w),
                },
            opt_field_holds(lookup(ms@, "uniqrMetadata"@), |j: Json, x: UniqrMetadata| UniqrMetadata::read_from(j, x), self.uniqr_metadata),
            forall|k: Seq<char>| #[trigger] lookup(ms@, k) is Some ==> k == "redirectUrls"@ || k == "risk"@ || k == "ttl"@ || k == "uniqrMetadata"@,
    {
        let mut ms: Vec<(String, Json)> = Vec::new();
        proof {
            reveal_strlit("redirectUrls");
            reveal_strlit("risk");
            reveal_strlit("ttl");
            reveal_strlit("uniqrMetadata");
            assert("redirectUrls"@.len() == 12);
            assert("risk"@.len() == 4);
            assert("ttl"@.len() == 3);
            assert("uniqrMetadata"@.len() == 13);
        }
        push_optional(&mut ms, "redirectUrls", match &self.redirect_urls {
            Some(x) => Some(x.to_json()),
            None => None,
        });
        push_optional(&mut ms, "risk", match &self.risk {
            Some(x) => Some(x.to_json()),
            None => None,
        });
        push_optional(&mut ms, "ttl", match &self.ttl {
            Some(x) => Some(integer_json(*x as i64)),
            None => None,
        });
        push_optional(&mut ms, "uniqrMetadata", match &self.uniqr_metadata {
            Some(x) => Some(x.to_json()),
            None => None,
        });
        ms
    }

    /// The value as a JSON object with camelCase keys. An unset optional field
    /// is left out, not written as `null`; reading the object back gives the
    /// same value.
    #[verifier::spinoff_prover]
    #[verifier::rlimit(100)]
    pub fn to_json(&self) -> (r: Json)
        ensures
            CreateOrderRequest::writes_as(r, *self),
            CreateOrderRequest::read_from(r, *self),
    {
        let mut ms = self.members_1();
        proof {
            reveal_strlit("cart");
            reveal_strlit("currencyCode");
            reveal_strlit("orderId");
            reveal_strlit("availablePaymentMethods");
            reveal_strlit("billingPhone");
            reveal_strlit("extensions");
            reveal_strlit("isPrepayment");
            reveal_strlit("metadata");
            reveal_strlit("orderSource");
            reveal_strlit("preferredPaymentMethod");
            reveal_strlit("publicConstructor");
            reveal_strlit("purpose");
            reveal_strlit("redirectUrls");
            reveal_strlit("risk");
            reveal_strlit("ttl");
            reveal_strlit("uniqrMetadata");
            assert("cart"@.len() == 4);
            assert("currencyCode"@.len() == 12);
            assert("orderId"@.len() == 7);
            assert("availablePaymentMethods"@.len() == 23);
            assert("billingPhone"@.len() == 12);
            assert("extensions"@.len() == 10);
            assert("isPrepayment"@.len() == 12);
            assert("metadata"@.len() == 8);
            assert("orderSource"@.len() == 11);
            assert("preferredPaymentMethod"@.len() == 22);
            assert("publicConstructor"@.len() == 17);
            assert("purpose"@.len() == 7);
            assert("redirectUrls"@.len() == 12);
            assert("risk"@.len() == 4);
            assert("ttl"@.len() == 3);
            assert("uniqrMetadata"@.len() == 13);
            assert("billingPhone"@[0] == 'b');
            assert("cart"@[0] == 'c');
            assert("currencyCode"@[0] == 'c');
            assert("isPrepayment"@[0] == 'i');
            assert("orderId"@[0] == 'o');
            assert("purpose"@[0] == 'p');
            assert("redirectUrls"@[0] == 'r');
            assert("risk"@[0] == 'r');
        }
        let ghost a = ms@;
        let mut rest = self.members_2();
        let ghost b = rest@;
        ms.append(&mut rest);
        assert forall|k: Seq<char>| #[trigger] lookup(ms@, k) == (if lookup(a, k) is Some {
            lookup(a, k)
        } else {
            lookup(b, k)
        }) by {
            lemma_lookup_concat(a, b, k);
        }
        let ghost a = ms@;
        let mut rest = self.members_3();
        let ghost b = rest@;
        ms.append(&mut rest);
        assert forall|k: Seq<char>| #[trigger] lookup(ms@, k) == (if lookup(a, k) is Some {
            lookup(a, k)
        } else {
            lookup(b, k)
        }) by {
            lemma_lookup_concat(a, b, k);
        }
        Json::Object(ms)
    }

    /// `v` is what the JSON object `doc` says, field by field.
    pub open spec fn read_from(doc: Json, v: CreateOrderRequest) -> bool {
        &&& doc is Object
        &&& field_holds(member(doc, "cart"@), |j: Json, x: RenderedCart| RenderedCart::read_from(j, x), v.cart)
        &&& field_holds(member(doc, "currencyCode"@), |j: Json, x: CurrencyCode| CurrencyCode::read_from(j, x), v.currency_code)
        &&& field_holds(member(doc, "orderId"@), |j: Json, x: String| string_value(j) == Ok::<String, DecodeError>(x), v.order_id)
        &&& list_or_empty_holds(member(doc, "availablePaymentMethods"@), |j: Json, x: AvailablePaymentMethod| AvailablePaymentMethod::read_from(j, x), v.available_payment_methods@)
        &&& opt_field_holds(member(doc, "billingPhone"@), |j: Json, x: String| string_value(j) == Ok::<String, DecodeError>(x), v.billing_phone)
        &&& opt_field_holds(member(doc, "extensions"@), |j: Json, x: OrderExtensions| OrderExtensions::read_from(j, x), v.extensions)
        &&& field_holds(member(doc, "isPrepayment"@), |j: Json, x: bool| bool_value(j) == Ok::<bool, DecodeError>(x), v.is_prepayment)
        &&& opt_field_holds(member(doc, "metadata"@), |j: Json, x: String| string_value(j) == Ok::<String, DecodeError>(x), v.metadata)
        &&& opt_field_holds(member(doc, "orderSource"@), |j: Json, x: OrderSource| OrderSource::read_from(j, x), v.order_source)
        &&& opt_field_holds(member(doc, "preferredPaymentMethod"@), |j: Json, x: PreferredPaymentMethod| PreferredPaymentMethod::read_from(j, x), v.preferred_payment_method)
        &&& opt_field_holds(member(doc, "publicConstructor"@), |j: Json, x: String| string_value(j) == Ok::<String, DecodeError>(x), v.public_constructor)
        &&& opt_field_holds(member(doc, "purpose"@), |j: Json, x: String| string_value(j) == Ok::<String, DecodeError>(x), v.purpose)
        &&& opt_field_holds(member(doc, "redirectUrls"@), |j: Json, x: MerchantRedirectUrls| MerchantRedirectUrls::read_from(j, x), v.redirect_urls)
        &&& opt_field_holds(member(doc, "risk"@), |j: Json, x: MerchantRiskInfo| MerchantRiskInfo::read_from(j, x), v.risk)
        &&& opt_field_holds(member(doc, "ttl"@), |j: Json, x: u32| u32_value(j) == Ok::<u32, DecodeError>(x), v.ttl)
        &&& opt_field_holds(member(doc, "uniqrMetadata"@), |j: Json, x: UniqrMetadata| UniqrMetadata::read_from(j, x), v.uniqr_metadata)
    }

    /// Whether every field of `doc` can be read: required fields are present,
    /// and every field that is there holds a value of its kind.
    pub open spec fn readable(doc: Json) -> bool {
        &&& doc is Object
        &&& match member(doc, "cart"@) {
            Some(j) => RenderedCart::readable(j),
            None => false,
        }
        &&& match member(doc, "currencyCode"@) {
            Some(j) => CurrencyCode::readable(j),
            None => false,
        }
        &&& match member(doc, "orderId"@) {
            Some(j) => string_value(j) is Ok,
            None => false,
        }
        &&& match member(doc, "availablePaymentMethods"@) {
            Some(j) => AvailablePaymentMethod::list_readable(j),
            None => true,
        }
        &&& match member(doc, "billingPhone"@) {
            Some(j) => j == Json::Null || string_value(j) is Ok,
            None => true,
        }
        &&& match member(doc, "extensions"@) {
            Some(j) => j == Json::Null || OrderExtensions::readable(j),
            None => true,
        }
        &&& match member(doc, "isPrepayment"@) {
            Some(j) => bool_value(j) is Ok,
            None => false,
        }
        &&& match member(doc, "metadata"@) {
            Some(j) => j == Json::Null || string_value(j) is Ok,
            None => true,
        }
        &&& match member(doc, "orderSource"@) {
            Some(j) => j == Json::Null || OrderSource::readable(j),
            None => true,
        }
        &&& match member(doc, "preferredPaymentMethod"@) {
            Some(j) => j == Json::Null || PreferredPaymentMethod::readable(j),
            None => true,
        }
        &&& match member(doc, "publicConstructor"@) {
            Some(j) => j == Json::Null || string_value(j) is Ok,
            None => true,
        }
        &&& match member(doc, "purpose"@) {
            Some(j) => j == Json::Null || string_value(j) is Ok,
            None => true,
        }
        &&& match member(doc, "redirectUrls"@) {
            Some(j) => j == Json::Null || MerchantRedirectUrls::readable(j),
            None => true,
        }
        &&& match member(doc, "risk"@) {
            Some(j) => j == Json::Null || MerchantRiskInfo::readable(j),
            None => true,
        }
        &&& match member(doc, "ttl"@) {
            Some(j) => j == Json::Null || u32_value(j) is Ok,
            None => true,
        }
        &&& match member(doc, "uniqrMetadata"@) {
            Some(j) => j == Json::Null || UniqrMetadata::readable(j),
            None => true,
        }
    }

    /// Reads the value from a JSON object with camelCase keys. A missing or
    /// `null` optional field is unset; members it does not know are ignored.
    #[verifier::spinoff_prover]
    #[verifier::rlimit(100)]
    pub fn from_json(doc: &Json) -> (r: Result<CreateOrderRequest, DecodeError>)
        ensures
            !(*doc is Object) ==> r == Err::<CreateOrderRequest, DecodeError>(DecodeError::MalformedResponse),
            r matches Ok(v) ==> CreateOrderRequest::read_from(*doc, v),
            r is Ok <==> CreateOrderRequest::readable(*doc),
    {
        if !is_object(doc) {
            return Err(DecodeError::MalformedResponse);
        }
        let cart = match get_member(doc, "cart") {
            Some(j) => match RenderedCart::from_json(j) {
                Ok(v) => v,
                Err(e) => return Err(e),
            },
            None => return Err(DecodeError::MalformedResponse),
        };
        let currency_code = match get_member(doc, "currencyCode") {
            Some(j) => match CurrencyCode::from_json(j) {
                Ok(v) => v,
                Err(e) => return Err(e),
            },
            None => return Err(DecodeError::MalformedResponse),
        };
        let order_id = match get_member(doc, "orderId") {
            Some(j) => match read_string(j) {
                Ok(v) => v,
                Err(e) => return Err(e),
            },
            None => return Err(DecodeError::MalformedResponse),
        };
        let available_payment_methods = match get_member(doc, "availablePaymentMethods") {
            Some(j) => match AvailablePaymentMethod::list_from_json(j) {
                Ok(v) => v,
                Err(e) => return Err(e),
            },
            None => Vec::new(),
        };
        let billing_phone = match get_member(doc, "billingPhone") {
            None => None,
            Some(Json::Null) => None,
            Some(j) => match read_string(j) {
                Ok(v) => Some(v),
                Err(e) => return Err(e),
            },
        };
        let extensions = match get_member(doc, "extensions") {
            None => None,
            Some(Json::Null) => None,
            Some(j) => match OrderExtensions::from_json(j) {
                Ok(v) => Some(v),
                Err(e) => return Err(e),
            },
        };
        let is_prepayment = match get_member(doc, "isPrepayment") {
            Some(j) => match read_bool(j) {
                Ok(v) => v,
                Err(e) => return Err(e),
            },
            None => return Err(DecodeError::MalformedResponse),
        };
        let metadata = match get_member(doc, "metadata") {
            None => None,
            Some(Json::Null) => None,
            Some(j) => match read_string(j) {
                Ok(v) => Some(v),
                Err(e) => return Err(e),
            },
        };
        let order_source = match get_member(doc, "orderSource") {
            None => None,
            Some(Json::Null) => None,
            Some(j) => match OrderSource::from_json(j) {
                Ok(v) => Some(v),
                Err(e) => return Err(e),
            },
        };
        let preferred_payment_method = match get_member(doc, "preferredPaymentMethod") {
            None => None,
            Some(Json::Null) => None,
            Some(j) => match PreferredPaymentMethod::from_json(j) {
                Ok(v) => Some(v),
                Err(e) => return Err(e),
            },
        };
        let public_constructor = match get_member(doc, "publicConstructor") {
            None => None,
            Some(Json::Null) => None,
            Some(j) => match read_string(j) {
                Ok(v) => Some(v),
                Err(e) => return Err(e),
            },
        };
        let purpose = match get_member(doc, "purpose") {
            None => None,
            Some(Json::Null) => None,
            Some(j) => match read_string(j) {
                Ok(v) => Some(v),
                Err(e) => return Err(e),
            },
        };
        let redirect_urls = match get_member(doc, "redirectUrls") {
            None => None,
            Some(Json::Null) => None,
            Some(j) => match MerchantRedirectUrls::from_json(j) {
                Ok(v) => Some(v),
                Err(e) => return Err(e),
            },
        };
        let risk = match get_member(doc, "risk") {
            None => None,
            Some(Json::Null) => None,
            Some(j) => match MerchantRiskInfo::from_json(j) {
                Ok(v) => Some(v),
                Err(e) => return Err(e),
            },
        };
        let ttl = match get_member(doc, "ttl") {
            None => None,
            Some(Json::Null) => None,
            Some(j) => match read_u32(j) {
                Ok(v) => Some(v),
                Err(e) => return Err(e),
            },
        };
        let uniqr_metadata = match get_member(doc, "uniqrMetadata") {
            None => None,
            Some(Json::Null) => None,
            Some(j) => match UniqrMetadata::from_json(j) {
                Ok(v) => Some(v),
                Err(e) => return Err(e),
            },
        };
        Ok(CreateOrderRequest {
            cart,
            currency_code,
            order_id,
            available_payment_methods,
            billing_phone,
            extensions,
            is_prepayment,
            metadata,
            order_source,
            preferred_payment_method,
            public_constructor,
            purpose,
            redirect_urls,
            risk,
            ttl,
            uniqr_metadata,
        })
    }
}

/// A cart as shown to the buyer on the payment form.
#[derive(Clone, Debug, PartialEq)]
pub struct RenderedCart {
    pub items: Vec<RenderedCartItem>,
    pub total: CartTotal,
    pub external_id: String,
}

impl RenderedCart {
    /// A value with the given fields and every other field at its default:
    /// the optional fields unset.
    pub fn new(items: Vec<RenderedCartItem>, total: CartTotal, external_id: String) -> (r: RenderedCart)
        ensures
            r.items == items,
            r.total == total,
            r.external_id == external_id,
    {
        RenderedCart {
            items,
            total,
            external_id,
        }
    }

    /// `doc` is what [`Self::to_json`] writes for `v`: each field under its
    /// camelCase key, amounts as strings, nested values as they write
    /// themselves, no member at all for an unset optional field or an empty
    /// list that is left out, and no member under any other key.
    pub open spec fn writes_as(doc: Json, v: RenderedCart) -> bool {
        &&& doc is Object
        &&& if v.items@.len() == 0 {
            member(doc, "items"@) is None
        } else {
            list_holds(member(doc, "items"@), |j: Json, x: RenderedCartItem| RenderedCartItem::writes_as(j, x), v.items@)
        }
        &&& field_holds(member(doc, "total"@), |j: Json, x: CartTotal| CartTotal::writes_as(j, x), v.total)
        &&& field_holds(member(doc, "externalId"@), |j: Json, x: String| string_value(j) == Ok::<String, DecodeError>(x), v.external_id)
        &&& forall|k: Seq<char>| #[trigger] member(doc, k) is Some ==> k == "items"@ || k == "total"@ || k == "externalId"@
    }

    /// The value as a JSON object with camelCase keys. An unset optional field
    /// is left out, not written as `null`; reading the object back gives the
    /// same value.
    pub fn to_json(&self) -> (r: Json)
        ensures
            RenderedCart::writes_as(r, *self),
            RenderedCart::read_from(r, *self),
    {
        let mut ms: Vec<(String, Json)> = Vec::new();
        proof {
            reveal_strlit("items");
            reveal_strlit("total");
            reveal_strlit("externalId");
            assert("items"@.len() == 5);
            assert("total"@.len() == 5);
            assert("externalId"@.len() == 10);
            assert("items"@[0] == 'i');
            assert("total"@[0] == 't');
        }
        if self.items.len() > 0 {
            push_field(&mut ms, "items", RenderedCartItem::list_to_json(&self.items));
        }
        push_field(&mut ms, "total", self.total.to_json());
        push_field(&mut ms, "externalId", string_json(&self.external_id));
        Json::Object(ms)
    }

    /// `v` is what the JSON object `doc` says, field by field.
    pub open spec fn read_from(doc: Json, v: RenderedCart) -> bool {
        &&& doc is Object
        &&& list_or_empty_holds(member(doc, "items"@), |j: Json, x: RenderedCartItem| RenderedCartItem::read_from(j, x), v.items@)
        &&& field_holds(member(doc, "total"@), |j: Json, x: CartTotal| CartTotal::read_from(j, x), v.total)
        &&& field_holds(member(doc, "externalId"@), |j: Json, x: String| string_value(j) == Ok::<String, DecodeError>(x), v.external_id)
    }

    /// Whether every field of `doc` can be read: required fields are present,
    /// and every field that is there holds a value of its kind.
    pub open spec fn readable(doc: Json) -> bool {
        &&& doc is Object
        &&& match member(doc, "items"@) {
            Some(j) => RenderedCartItem::list_readable(j),
            None => true,
        }
        &&& match member(doc, "total"@) {
            Some(j) => CartTotal::readable(j),
            None => false,
        }
        &&& match member(doc, "externalId"@) {
            Some(j) => string_value(j) is Ok,
            None => false,
        }
    }

    /// Reads the value from a JSON object with camelCase keys. A missing or
    /// `null` optional field is unset; members it does not know are ignored.
    pub fn from_json(doc: &Json) -> (r: Result<RenderedCart, DecodeError>)
        ensures
            !(*doc is Object) ==> r == Err::<RenderedCart, DecodeError>(DecodeError::MalformedResponse),
            r matches Ok(v) ==> RenderedCart::read_from(*doc, v),
            r is Ok <==> RenderedCart::readable(*doc),
    {
        if !is_object(doc) {
            return Err(DecodeError::MalformedResponse);
        }
        let items = match get_member(doc, "items") {
            Some(j) => match RenderedCartItem::list_from_json(j) {
                Ok(v) => v,
                Err(e) => return Err(e),
            },
            None => Vec::new(),
        };
        let total = match get_member(doc, "total") {
            Some(j) => match CartTotal::from_json(j) {
                Ok(v) => v,
                Err(e) => return Err(e),
            },
            None => return Err(DecodeError::MalformedResponse),
        };
        let external_id = match get_member(doc, "externalId") {
            Some(j) => match read_string(j) {
                Ok(v) => v,
                Err(e) => return Err(e),
            },
            None => return Err(DecodeError::MalformedResponse),
        };
        Ok(RenderedCart {
            items,
            total,
            external_id,
        })
    }
}

/// One line of a rendered cart.
#[derive(Clone, Debug, PartialEq)]
pub struct RenderedCartItem {
    pub product_id: String,
    pub quantity: ItemQuantity,
    pub title: String,
    pub total: Decimal,
    pub description: Option<String>,
    pub discounted_unit_price: Option<Decimal>,
    pub features: Option<CartItemFeatures>,
    pub points_amount: Option<Decimal>,
    pub receipt: Option<ItemReceipt>,
    pub subtotal: Option<Decimal>,
    pub unit_price: Option<Decimal>,
}

impl RenderedCartItem {
    /// A value with the given fields and every other field at its default:
    /// the optional fields unset.
    pub fn new(product_id: String, quantity: ItemQuantity, title: String, total: Decimal) -> (r: RenderedCartItem)
        ensures
            r.product_id == product_id,
            r.quantity == quantity,
            r.title == title,
            r.total == total,
            r.description is None,
            r.discounted_unit_price is None,
            r.features is None,
            r.points_amount is None,
            r.receipt is None,
            r.subtotal is None,
            r.unit_price is None,
    {
        RenderedCartItem {
            product_id,
            quantity,
            title,
            total,
            description: None,
            discounted_unit_price: None,
            features: None,
            points_amount: None,
            receipt: None,
            subtotal: None,
            unit_price: None,
        }
    }

    /// `doc` is what [`Self::to_json`] writes for `v`: each field under its
    /// camelCase key, amounts as strings, nested values as they write
    /// themselves, no member at all for an unset optional field or an empty
    /// list that is left out, and no member under any other key.
    pub open spec fn writes_as(doc: Json, v: RenderedCartItem) -> bool {
        &&& doc is Object
        &&& field_holds(member(doc, "productId"@), |j: Json, x: String| string_value(j) == Ok::<String, DecodeError>(x), v.product_id)
        &&& field_holds(member(doc, "quantity"@), |j: Json, x: ItemQuantity| ItemQuantity::writes_as(j, x), v.quantity)
        &&& field_holds(member(doc, "title"@), |j: Json, x: String| string_value(j) == Ok::<String, DecodeError>(x), v.title)
        &&& field_holds(member(doc, "total"@), |j: Json, x: Decimal| j matches Json::Str(t) && t@ == decimal_text(x), v.total)
        &&& match v.description {
            None => member(doc, "description"@) is None,
            Some(w) => field_holds(member(doc, "description"@), |j: Json, x: String| string_value(j) == Ok::<String, DecodeError>(x), w),
        }
        &&& match v.discounted_unit_price {
            None => member(doc, "discountedUnitPrice"@) is None,
            Some(w) => field_holds(member(doc, "discountedUnitPrice"@), |j: Json, x: Decimal| j matches Json::Str(t) && t@ == decimal_text(x), w),
        }
        &&& match v.features {
            None => member(doc, "features"@) is None,
            Some(w) => field_holds(member(doc, "features"@), |j: Json, x: CartItemFeatures| CartItemFeatures::writes_as(j, x), w),
        }
        &&& match v.points_amount {
            None => member(doc, "pointsAmount"@) is None,
            Some(w) => field_holds(member(doc, "pointsAmount"@), |j: Json, x: Decimal| j matches Json::Str(t) && t@ == decimal_text(x), w),
        }
        &&& match v.receipt {
            None => member(doc, "receipt"@) is None,
            Some(w) => field_holds(member(doc, "receipt"@), |j: Json, x: ItemReceipt| ItemReceipt::writes_as(j, x), w),
        }
        &&& match v.subtotal {
            None => member(doc, "subtotal"@) is None,
            Some(w) => field_holds(member(doc, "subtotal"@), |j: Json, x: Decimal| j matches Json::Str(t) && t@ == decimal_text(x), w),
        }
        &&& match v.unit_price {
            None => member(doc, "unitPrice"@) is None,
            Some(w) => field_holds(member(doc, "unitPrice"@), |j: Json, x: Decimal| j matches Json::Str(t) && t@ == decimal_text(x), w),
        }
        &&& forall|k: Seq<char>| #[trigger] member(doc, k) is Some ==> k == "productId"@ || k == "quantity"@ || k == "title"@ || k == "total"@ || k == "description"@ || k == "discountedUnitPrice"@ || k == "features"@ || k == "pointsAmount"@ || k == "receipt"@ || k == "subtotal"@ || k == "unitPrice"@
    }

    /// The members for `product_id`, `quantity`, `title`, `total`, `description`, `discounted_unit_price`.
    fn members_1(&self) -> (ms: Vec<(String, Json)>)
        ensures
            field_holds(lookup(ms@, "productId"@), |j: Json, x: String| string_value(j) == Ok::<String, DecodeError>(x), self.product_id),
            field_holds(lookup(ms@, "productId"@), |j: Json, x: String| string_value(j) == Ok::<String, DecodeError>(x), self.product_id),
            field_holds(lookup(ms@, "quantity"@), |j: Json, x: ItemQuantity| ItemQuantity::writes_as(j, x), self.quantity),
            field_holds(lookup(ms@, "quantity"@), |j: Json, x: ItemQuantity| ItemQuantity::read_from(j, x), self.quantity),
            field_holds(lookup(ms@, "title"@), |j: Json, x: String| string_value(j) == Ok::<String, DecodeError>(x), self.title),
            field_holds(lookup(ms@, "title"@), |j: Json, x: String| string_value(j) == Ok::<String, DecodeError>(x), self.title),
            field_holds(lookup(ms@, "total"@), |j: Json, x: Decimal| j matches Json::Str(t) && t@ == decimal_text(x), self.total),
            field_holds(lookup(ms@, "total"@), |j: Json, x: Decimal| decimal_string_value(j) == Ok::<Decimal, DecodeError>(x), self.total),
            match self.description {
                    None => lookup(ms@, "description"@) is None,
                    Some(w) => field_holds(lookup(ms@, "description"@), |j: Json, x: String| string_value(j) == Ok::<String, DecodeError>(x), w),
                },
            opt_field_holds(lookup(ms@, "description"@), |j: Json, x: String| string_value(j) == Ok::<String, DecodeError>(x), self.description),
            match self.discounted_unit_price {
                    None => lookup(ms@, "discountedUnitPrice"@) is None,
                    Some(w) => field_holds(lookup(ms@, "discountedUnitPrice"@), |j: Json, x: Decimal| j matches Json::Str(t) && t@ == decimal_text(x), w),
                },
            opt_field_holds(lookup(ms@, "discountedUnitPrice"@), |j: Json, x: Decimal| decimal_string_value(j) == Ok::<Decimal, DecodeError>(x), self.discounted_unit_price),
            forall|k: Seq<char>| #[trigger] lookup(ms@, k) is Some ==> k == "productId"@ || k == "quantity"@ || k == "title"@ || k == "total"@ || k == "description"@ || k == "discountedUnitPrice"@,
    {
        let mut ms: Vec<(String, Json)> = Vec::new();
        proof {
            reveal_strlit("productId");
            reveal_strlit("quantity");
            reveal_strlit("title");
            reveal_strlit("total");
            reveal_strlit("description");
            reveal_strlit("discountedUnitPrice");
            assert("productId"@.len() == 9);
            assert("quantity"@.len() == 8);
            assert("title"@.len() == 5);
            assert("total"@.len() == 5);
            assert("description"@.len() == 11);
            assert("discountedUnitPrice"@.len() == 19);
            assert("title"@[1] == 'i');
            assert("total"@[1] == 'o');
        }
        push_field(&mut ms, "productId", string_json(&self.product_id));
        push_field(&mut ms, "quantity", self.quantity.to_json());
        push_field(&mut ms, "title", string_json(&self.title));
        push_field(&mut ms, "total", decimal_string_json(*&self.total));
        push_optional(&mut ms, "description", match &self.description {
            Some(x) => Some(string_json(x)),
            None => None,
        });
        push_optional(&mut ms, "discountedUnitPrice", match &self.discounted_unit_price {
            Some(x) => Some(decimal_string_json(*x)),
            None => None,
        });
        ms
    }

    /// The members for `features`, `points_amount`, `receipt`, `subtotal`, `unit_price`.
    fn members_2(&self) -> (ms: Vec<(String, Json)>)
        ensures
            match self.features {
                    None => lookup(ms@, "features"@) is None,
                    Some(w) => field_holds(lookup(ms@, "features"@), |j: Json, x: CartItemFeatures| CartItemFeatures::writes_as(j, x), w),
                },
            opt_field_holds(lookup(ms@, "features"@), |j: Json, x: CartItemFeatures| CartItemFeatures::read_from(j, x), self.features),
            match self.points_amount {
                    None => lookup(ms@, "pointsAmount"@) is None,
                    Some(w) => field_holds(lookup(ms@, "pointsAmount"@), |j: Json, x: Decimal| j matches Json::Str(t) && t@ == decimal_text(x), w),
                },
            opt_field_holds(lookup(ms@, "pointsAmount"@), |j: Json, x: Decimal| decimal_string_value(j) == Ok::<Decimal, DecodeError>(x), self.points_amount),
            match self.receipt {
                    None => lookup(ms@, "receipt"@) is None,
                    Some(w) => field_holds(lookup(ms@, "receipt"@), |j: Json, x: ItemReceipt| ItemReceipt::writes_as(j, x), w),
                },
            opt_field_holds(lookup(ms@, "receipt"@), |j: Json, x: ItemReceipt| ItemReceipt::read_from(j, x), self.receipt),
            match self.subtotal {
                    None => lookup(ms@, "subtotal"@) is None,
                    Some(w) => field_holds(lookup(ms@, "subtotal"@), |j: Json, x: Decimal| j matches Json::Str(t) && t@ == decimal_text(x), w),
                },
            opt_field_holds(lookup(ms@, "subtotal"@), |j: Json, x: Decimal| decimal_string_value(j) == Ok::<Decimal, DecodeError>(x), self.subtotal),
            match self.unit_price {
                    None => lookup(ms@, "unitPrice"@) is None,
                    Some(w) => field_holds(lookup(ms@, "unitPrice"@), |j: Json, x: Decimal| j matches Json::Str(t) && t@ == decimal_text(x), w),
                },
            opt_field_holds(lookup(ms@, "unitPrice"@), |j: Json, x: Decimal| decimal_string_value(j) == Ok::<Decimal, DecodeError>(x), self.unit_price),
            forall|k: Seq<char>| #[trigger] lookup(ms@, k) is Some ==> k == "features"@ || k == "pointsAmount"@ || k == "receipt"@ || k == "subtotal"@ || k == "unitPrice"@,
    {
        let mut ms: Vec<(String, Json)> = Vec::new();
        proof {
            reveal_strlit("features");
            reveal_strlit("pointsAmount");
            reveal_strlit("receipt");
            reveal_strlit("subtotal");
            reveal_strlit("unitPrice");
            assert("features"@.len() == 8);
            assert("pointsAmount"@.len() == 12);
            assert("receipt"@.len() == 7);
            assert("subtotal"@.len() == 8);
            assert("unitPrice"@.len() == 9);
            assert("features"@[0] == 'f');
            assert("subtotal"@[0] == 's');
        }
        push_optional(&mut ms, "features", match &self.features {
            Some(x) => Some(x.to_json()),
            None => None,
        });
        push_optional(&mut ms, "pointsAmount", match &self.points_amount {
            Some(x) => Some(decimal_string_json(*x)),
            None => None,
        });
        push_optional(&mut ms, "receipt", match &self.receipt {
            Some(x) => Some(x.to_json()),
            None => None,
        });
        push_optional(&mut ms, "subtotal", match &self.subtotal {
            Some(x) => Some(decimal_string_json(*x)),
            None => None,
        });
        push_optional(&mut ms, "unitPrice", match &self.unit_price {
            Some(x) => Some(decimal_string_json(*x)),
            None => None,
        });
        ms
    }

    /// The value as a JSON object with camelCase keys. An unset optional field
    /// is left out, not written as `null`; reading the object back gives the
    /// same value.
    #[verifier::rlimit(40)]
    pub fn to_json(&self) -> (r: Json)
        ensures
            RenderedCartItem::writes_as(r, *self),
            RenderedCartItem::read_from(r, *self),
    {
        let mut ms = self.members_1();
        proof {
            reveal_strlit("productId");
            reveal_strlit("quantity");
            reveal_strlit("title");
            reveal_strlit("total");
            reveal_strlit("description");
            reveal_strlit("discountedUnitPrice");
            reveal_strlit("features");
            reveal_strlit("pointsAmount");
            reveal_strlit("receipt");
            reveal_strlit("subtotal");
            reveal_strlit("unitPrice");
            assert("productId"@.len() == 9);
            assert("quantity"@.len() == 8);
            assert("title"@.len() == 5);
            assert("total"@.len() == 5);
            assert("description"@.len() == 11);
            assert("discountedUnitPrice"@.len() == 19);
            assert("features"@.len() == 8);
            assert("pointsAmount"@.len() == 12);
            assert("receipt"@.len() == 7);
            assert("subtotal"@.len() == 8);
            assert("unitPrice"@.len() == 9);
            assert("features"@[0] == 'f');
            assert("productId"@[0] == 'p');
            assert("quantity"@[0] == 'q');
            assert("subtotal"@[0] == 's');
            assert("title"@[1] == 'i');
            assert("total"@[1] == 'o');
            assert("unitPrice"@[0] == 'u');
        }
        let ghost a = ms@;
        let mut rest = self.members_2();
        let ghost b = rest@;
        ms.append(&mut rest);
        assert forall|k: Seq<char>| #[trigger] lookup(ms@, k) == (if lookup(a, k) is Some {
            lookup(a, k)
        } else {
            lookup(b, k)
        }) by {
            lemma_lookup_concat(a, b, k);
        }
        Json::Object(ms)
    }

    /// `v` is what the JSON object `doc` says, field by field.
    pub open spec fn read_from(doc: Json, v: RenderedCartItem) -> bool {
        &&& doc is Object
        &&& field_holds(member(doc, "productId"@), |j: Json, x: String| string_value(j) == Ok::<String, DecodeError>(x), v.product_id)
        &&& field_holds(member(doc, "quantity"@), |j: Json, x: ItemQuantity| ItemQuantity::read_from(j, x), v.quantity)
        &&& field_holds(member(doc, "title"@), |j: Json, x: String| string_value(j) == Ok::<String, DecodeError>(x), v.title)
        &&& field_holds(member(doc, "total"@), |j: Json, x: Decimal| decimal_string_value(j) == Ok::<Decimal, DecodeError>(x), v.total)
        &&& opt_field_holds(member(doc, "description"@), |j: Json, x: String| string_value(j) == Ok::<String, DecodeError>(x), v.description)
        &&& opt_field_holds(member(doc, "discountedUnitPrice"@), |j: Json, x: Decimal| decimal_string_value(j) == Ok::<Decimal, DecodeError>(x), v.discounted_unit_price)
        &&& opt_field_holds(member(doc, "features"@), |j: Json, x: CartItemFeatures| CartItemFeatures::read_from(j, x), v.features)
        &&& opt_field_holds(member(doc, "pointsAmount"@), |j: Json, x: Decimal| decimal_string_value(j) == Ok::<Decimal, DecodeError>(x), v.points_amount)
        &&& opt_field_holds(member(doc, "receipt"@), |j: Json, x: ItemReceipt| ItemReceipt::read_from(j, x), v.receipt)
        &&& opt_field_holds(member(doc, "subtotal"@), |j: Json, x: Decimal| decimal_string_value(j) == Ok::<Decimal, DecodeError>(x), v.subtotal)
        &&& opt_field_holds(member(doc, "unitPrice"@), |j: Json, x: Decimal| decimal_string_value(j) == Ok::<Decimal, DecodeError>(x), v.unit_price)
    }

    /// Whether every field of `doc` can be read: required fields are present,
    /// and every field that is there holds a value of its kind.
    pub open spec fn readable(doc: Json) -> bool {
        &&& doc is Object
        &&& match member(doc, "productId"@) {
            Some(j) => string_value(j) is Ok,
            None => false,
        }
        &&& match member(doc, "quantity"@) {
            Some(j) => ItemQuantity::readable(j),
            None => false,
        }
        &&& match member(doc, "title"@) {
            Some(j) => string_value(j) is Ok,
            None => false,
        }
        &&& match member(doc, "total"@) {
            Some(j) => decimal_string_value(j) is Ok,
            None => false,
        }
        &&& match member(doc, "description"@) {
            Some(j) => j == Json::Null || string_value(j) is Ok,
            None => true,
        }
        &&& match member(doc, "discountedUnitPrice"@) {
            Some(j) => j == Json::Null || decimal_string_value(j) is Ok,
            None => true,
        }
        &&& match member(doc, "features"@) {
            Some(j) => j == Json::Null || CartItemFeatures::readable(j),
            None => true,
        }
        &&& match member(doc, "pointsAmount"@) {
            Some(j) => j == Json::Null || decimal_string_value(j) is Ok,
            None => true,
        }
        &&& match member(doc, "receipt"@) {
            Some(j) => j == Json::Null || ItemReceipt::readable(j),
            None => true,
        }
        &&& match member(doc, "subtotal"@) {
            Some(j) => j == Json::Null || decimal_string_value(j) is Ok,
            None => true,
        }
        &&& match member(doc, "unitPrice"@) {
            Some(j) => j == Json::Null || decimal_string_value(j) is Ok,
            None => true,
        }
    }

    /// Reads the value from a JSON object with camelCase keys. A missing or
    /// `null` optional field is unset; members it does not know are ignored.
    #[verifier::rlimit(40)]
    pub fn from_json(doc: &Json) -> (r: Result<RenderedCartItem, DecodeError>)
        ensures
            !(*doc is Object) ==> r == Err::<RenderedCartItem, DecodeError>(DecodeError::MalformedResponse),
            r matches Ok(v) ==> RenderedCartItem::read_from(*doc, v),
            r is Ok <==> RenderedCartItem::readable(*doc),
    {
        if !is_object(doc) {
            return Err(DecodeError::MalformedResponse);
        }
        let product_id = match get_member(doc, "productId") {
            Some(j) => match read_string(j) {
                Ok(v) => v,
                Err(e) => return Err(e),
            },
            None => return Err(DecodeError::MalformedResponse),
        };
        let quantity = match get_member(doc, "quantity") {
            Some(j) => match ItemQuantity::from_json(j) {
                Ok(v) => v,
                Err(e) => return Err(e),
            },
            None => return Err(DecodeError::MalformedResponse),
        };
        let title = match get_member(doc, "title") {
            Some(j) => match read_string(j) {
                Ok(v) => v,
                Err(e) => return Err(e),
            },
            None => return Err(DecodeError::MalformedResponse),
        };
        let total = match get_member(doc, "total") {
            Some(j) => match read_decimal_string(j) {
                Ok(v) => v,
                Err(e) => return Err(e),
            },
            None => return Err(DecodeError::MalformedResponse),
        };
        let description = match get_member(doc, "description") {
            None => None,
            Some(Json::Null) => None,
            Some(j) => match read_string(j) {
                Ok(v) => Some(v),
                Err(e) => return Err(e),
            },
        };
        let discounted_unit_price = match get_member(doc, "discountedUnitPrice") {
            None => None,
            Some(Json::Null) => None,
            Some(j) => match read_decimal_string(j) {
                Ok(v) => Some(v),
                Err(e) => return Err(e),
            },
        };
        let features = match get_member(doc, "features") {
            None => None,
            Some(Json::Null) => None,
            Some(j) => match CartItemFeatures::from_json(j) {
                Ok(v) => Some(v),
                Err(e) => return Err(e),
            },
        };
        let points_amount = match get_member(doc, "pointsAmount") {
            None => None,
            Some(Json::Null) => None,
            Some(j) => match read_decimal_string(j) {
                Ok(v) => Some(v),
                Err(e) => return Err(e),
            },
        };
        let receipt = match get_member(doc, "receipt") {
            None => None,
            Some(Json::Null) => None,
            Some(j) => match ItemReceipt::from_json(j) {
                Ok(v) => Some(v),
                Err(e) => return Err(e),
            },
        };
        let subtotal = match get_member(doc, "subtotal") {
            None => None,
            Some(Json::Null) => None,
            Some(j) => match read_decimal_string(j) {
                Ok(v) => Some(v),
                Err(e) => return Err(e),
            },
        };
        let unit_price = match get_member(doc, "unitPrice") {
            None => None,
            Some(Json::Null) => None,
            Some(j) => match read_decimal_string(j) {
                Ok(v) => Some(v),
                Err(e) => return Err(e),
            },
        };
        Ok(RenderedCartItem {
            product_id,
            quantity,
            title,
            total,
            description,
            discounted_unit_price,
            features,
            points_amount,
            receipt,
            subtotal,
            unit_price,
        })
    }

    /// `vs` is what the JSON array `j` says, element by element.
    pub open spec fn list_read_from(j: Json, vs: Seq<RenderedCartItem>) -> bool {
        list_holds(Some(j), |e: Json, x: RenderedCartItem| RenderedCartItem::read_from(e, x), vs)
    }

    /// Whether the JSON value `j` is an array whose every element can be read.
    pub open spec fn list_readable(j: Json) -> bool {
        j matches Json::Array(a) && forall|i: int| 0 <= i < a@.len() ==> #[trigger] RenderedCartItem::readable(a@[i])
    }

    /// A JSON array of the values, in order.
    pub fn list_to_json(items: &Vec<RenderedCartItem>) -> (r: Json)
        ensures
            r matches Json::Array(a) && a@.len() == items@.len(),
            RenderedCartItem::list_read_from(r, items@),
            RenderedCartItem::list_writes_as(r, items@),
    {
        let mut out: Vec<Json> = Vec::new();
        let mut i: usize = 0;
        while i < items.len()
            invariant
                i <= items.len(),
                out@.len() == i,
                forall|k: int| 0 <= k < i ==> #[trigger] RenderedCartItem::read_from(out@[k], items@[k]),
                forall|k: int| 0 <= k < i ==> #[trigger] RenderedCartItem::writes_as(out@[k], items@[k]),
            decreases items.len() - i,
        {
            out.push(items[i].to_json());
            i = i + 1;
        }
        Json::Array(out)
    }

    /// `vs` is what [`Self::list_to_json`] writes, element by element.
    pub open spec fn list_writes_as(j: Json, vs: Seq<RenderedCartItem>) -> bool {
        list_holds(Some(j), |e: Json, x: RenderedCartItem| RenderedCartItem::writes_as(e, x), vs)
    }

    /// Reads a JSON array of values, failing on the first that cannot be read.
    pub fn list_from_json(j: &Json) -> (r: Result<Vec<RenderedCartItem>, DecodeError>)
        ensures
            !(*j is Array) ==> r == Err::<Vec<RenderedCartItem>, DecodeError>(DecodeError::MalformedResponse),
            r matches Ok(v) ==> RenderedCartItem::list_read_from(*j, v@),
            r is Ok <==> RenderedCartItem::list_readable(*j),
    {
        match j {
            Json::Array(a) => {
                let mut out: Vec<RenderedCartItem> = Vec::new();
                let mut i: usize = 0;
                while i < a.len()
                    invariant
                        i <= a.len(),
                        out@.len() == i,
                        *j == Json::Array(*a),
                        forall|k: int| 0 <= k < i ==> #[trigger] RenderedCartItem::read_from(a@[k], out@[k]),
                        forall|k: int| 0 <= k < i ==> #[trigger] RenderedCartItem::readable(a@[k]),
                    decreases a.len() - i,
                {
                    match RenderedCartItem::from_json(&a[i]) {
                        Ok(v) => out.push(v),
                        Err(e) => {
                            proof {
                                assert(!RenderedCartItem::readable(a@[i as int]));
                                assert(!RenderedCartItem::list_readable(*j)) by {
                                    if RenderedCartItem::list_readable(*j) {
                                        assert((*j)->Array_0 == *a);
                                        assert(RenderedCartItem::readable((*j)->Array_0@[i as int]));
                                    }
                                }
                            }
                            return Err(e);
                        },
                    }
                    i = i + 1;
                }
                Ok(out)
            },
            _ => Err(DecodeError::MalformedResponse),
        }
    }
}

/// The total of a cart.
#[derive(Clone, Debug, PartialEq)]
pub struct CartTotal {
    pub amount: Decimal,
    pub points_amount: Option<Decimal>,
}

impl CartTotal {
    /// A value with the given fields and every other field at its default:
    /// the optional fields unset.
    pub fn new(amount: Decimal) -> (r: CartTotal)
        ensures
            r.amount == amount,
            r.points_amount is None,
    {
        CartTotal {
            amount,
            points_amount: None,
        }
    }

    /// `doc` is what [`Self::to_json`] writes for `v`: each field under its
    /// camelCase key, amounts as strings, nested values as they write
    /// themselves, no member at all for an unset optional field or an empty
    /// list that is left out, and no member under any other key.
    pub open spec fn writes_as(doc: Json, v: CartTotal) -> bool {
        &&& doc is Object
        &&& field_holds(member(doc, "amount"@), |j: Json, x: Decimal| j matches Json::Str(t) && t@ == decimal_text(x), v.amount)
        &&& match v.points_amount {
            None => member(doc, "pointsAmount"@) is None,
            Some(w) => field_holds(member(doc, "pointsAmount"@), |j: Json, x: Decimal| j matches Json::Str(t) && t@ == decimal_text(x), w),
        }
        &&& forall|k: Seq<char>| #[trigger] member(doc, k) is Some ==> k == "amount"@ || k == "pointsAmount"@
    }

    /// The value as a JSON object with camelCase keys. An unset optional field
    /// is left out, not written as `null`; reading the object back gives the
    /// same value.
    pub fn to_json(&self) -> (r: Json)
        ensures
            CartTotal::writes_as(r, *self),
            CartTotal::read_from(r, *self),
    {
        let mut ms: Vec<(String, Json)> = Vec::new();
        proof {
            reveal_strlit("amount");
            reveal_strlit("pointsAmount");
            assert("amount"@.len() == 6);
            assert("pointsAmount"@.len() == 12);
        }
        push_field(&mut ms, "amount", decimal_string_json(*&self.amount));
        push_optional(&mut ms, "pointsAmount", match &self.points_amount {
            Some(x) => Some(decimal_string_json(*x)),
            None => None,
        });
        Json::Object(ms)
    }

    /// `v` is what the JSON object `doc` says, field by field.
    pub open spec fn read_from(doc: Json, v: CartTotal) -> bool {
        &&& doc is Object
        &&& field_holds(member(doc, "amount"@), |j: Json, x: Decimal| decimal_string_value(j) == Ok::<Decimal, DecodeError>(x), v.amount)
        &&& opt_field_holds(member(doc, "pointsAmount"@), |j: Json, x: Decimal| decimal_string_value(j) == Ok::<Decimal, DecodeError>(x), v.points_amount)
    }

    /// Whether every field of `doc` can be read: required fields are present,
    /// and every field that is there holds a value of its kind.
    pub open spec fn readable(doc: Json) -> bool {
        &&& doc is Object
        &&& match member(doc, "amount"@) {
            Some(j) => decimal_string_value(j) is Ok,
            None => false,
        }
        &&& match member(doc, "pointsAmount"@) {
            Some(j) => j == Json::Null || decimal_string_value(j) is Ok,
            None => true,
        }
    }

    /// Reads the value from a JSON object with camelCase keys. A missing or
    /// `null` optional field is unset; members it does not know are ignored.
    pub fn from_json(doc: &Json) -> (r: Result<CartTotal, DecodeError>)
        ensures
            !(*doc is Object) ==> r == Err::<CartTotal, DecodeError>(DecodeError::MalformedResponse),
            r matches Ok(v) ==> CartTotal::read_from(*doc, v),
            r is Ok <==> CartTotal::readable(*doc),
    {
        if !is_object(doc) {
            return Err(DecodeError::MalformedResponse);
        }
        let amount = match get_member(doc, "amount") {
            Some(j) => match read_decimal_string(j) {
                Ok(v) => v,
                Err(e) => return Err(e),
            },
            None => return Err(DecodeError::MalformedResponse),
        };
        let points_amount = match get_member(doc, "pointsAmount") {
            None => None,
            Some(Json::Null) => None,
            Some(j) => match read_decimal_string(j) {
                Ok(v) => Some(v),
                Err(e) => return Err(e),
            },
        };
        Ok(CartTotal {
            amount,
            points_amount,
        })
    }
}

/// Identifiers for the merchant's billing report.
#[derive(Clone, Debug, PartialEq)]
pub struct BillingReport {
    pub branch_id: Option<String>,
    pub manager_id: Option<String>,
}

impl BillingReport {
    /// A value with the given fields and every other field at its default:
    /// the optional fields unset.
    pub fn new() -> (r: BillingReport)
        ensures
            r.branch_id is None,
            r.manager_id is None,
    {
        BillingReport {
            branch_id: None,
            manager_id: None,
        }
    }

    /// `doc` is what [`Self::to_json`] writes for `v`: each field under its
    /// camelCase key, amounts as strings, nested values as they write
    /// themselves, no member at all for an unset optional field or an empty
    /// list that is left out, and no member under any other key.
    pub open spec fn writes_as(doc: Json, v: BillingReport) -> bool {
        &&& doc is Object
        &&& match v.branch_id {
            None => member(doc, "branchId"@) is None,
            Some(w) => field_holds(member(doc, "branchId"@), |j: Json, x: String| string_value(j) == Ok::<String, DecodeError>(x), w),
        }
        &&& match v.manager_id {
            None => member(doc, "managerId"@) is None,
            Some(w) => field_holds(member(doc, "managerId"@), |j: Json, x: String| string_value(j) == Ok::<String, DecodeError>(x), w),
        }
        &&& forall|k: Seq<char>| #[trigger] member(doc, k) is Some ==> k == "branchId"@ || k == "managerId"@
    }

    /// The value as a JSON object with camelCase keys. An unset optional field
    /// is left out, not written as `null`; reading the object back gives the
    /// same value.
    pub fn to_json(&self) -> (r: Json)
        ensures
            BillingReport::writes_as(r, *self),
            BillingReport::read_from(r, *self),
    {
        let mut ms: Vec<(String, Json)> = Vec::new();
        proof {
            reveal_strlit("branchId");
            reveal_strlit("managerId");
            assert("branchId"@.len() == 8);
            assert("managerId"@.len() == 9);
        }
        push_optional(&mut ms, "branchId", match &self.branch_id {
            Some(x) => Some(string_json(x)),
            None => None,
        });
        push_optional(&mut ms, "managerId", match &self.manager_id {
            Some(x) => Some(string_json(x)),
            None => None,
        });
        Json::Object(ms)
    }

    /// `v` is what the JSON object `doc` says, field by field.
    pub open spec fn read_from(doc: Json, v: BillingReport) -> bool {
        &&& doc is Object
        &&& opt_field_holds(member(doc, "branchId"@), |j: Json, x: String| string_value(j) == Ok::<String, DecodeError>(x), v.branch_id)
        &&& opt_field_holds(member(doc, "managerId"@), |j: Json, x: String| string_value(j) == Ok::<String, DecodeError>(x), v.manager_id)
    }

    /// Whether every field of `doc` can be read: required fields are present,
    /// and every field that is there holds a value of its kind.
    pub open spec fn readable(doc: Json) -> bool {
        &&& doc is Object
        &&& match member(doc, "branchId"@) {
            Some(j) => j == Json::Null || string_value(j) is Ok,
            None => true,
        }
        &&& match member(doc, "managerId"@) {
            Some(j) => j == Json::Null || string_value(j) is Ok,
            None => true,
        }
    }

    /// Reads the value from a JSON object with camelCase keys. A missing or
    /// `null` optional field is unset; members it does not know are ignored.
    pub fn from_json(doc: &Json) -> (r: Result<BillingReport, DecodeError>)
        ensures
            !(*doc is Object) ==> r == Err::<BillingReport, DecodeError>(DecodeError::MalformedResponse),
            r matches Ok(v) ==> BillingReport::read_from(*doc, v),
            r is Ok <==> BillingReport::readable(*doc),
    {
        if !is_object(doc) {
            return Err(DecodeError::MalformedResponse);
        }
        let branch_id = match get_member(doc, "branchId") {
            None => None,
            Some(Json::Null) => None,
            Some(j) => match read_string(j) {
                Ok(v) => Some(v),
                Err(e) => return Err(e),
            },
        };
        let manager_id = match get_member(doc, "managerId") {
            None => None,
            Some(Json::Null) => None,
            Some(j) => match read_string(j) {
                Ok(v) => Some(v),
                Err(e) => return Err(e),
            },
        };
        Ok(BillingReport {
            branch_id,
            manager_id,
        })
    }
}

/// A QR token for payment at an offline store.
#[derive(Clone, Debug, PartialEq)]
pub struct QRData {
    pub token: String,
}

impl QRData {
    /// A value with the given fields and every other field at its default:
    /// the optional fields unset.
    pub fn new(token: String) -> (r: QRData)
        ensures
            r.token == token,
    {
        QRData {
            token,
        }
    }

    /// `doc` is what [`Self::to_json`] writes for `v`: each field under its
    /// camelCase key, amounts as strings, nested values as they write
    /// themselves, no member at all for an unset optional field or an empty
    /// list that is left out, and no member under any other key.
    pub open spec fn writes_as(doc: Json, v: QRData) -> bool {
        &&& doc is Object
        &&& field_holds(member(doc, "token"@), |j: Json, x: String| string_value(j) == Ok::<String, DecodeError>(x), v.token)
        &&& forall|k: Seq<char>| #[trigger] member(doc, k) is Some ==> k == "token"@
    }

    /// The value as a JSON object with camelCase keys. An unset optional field
    /// is left out, not written as `null`; reading the object back gives the
    /// same value.
    pub fn to_json(&self) -> (r: Json)
        ensures
            QRData::writes_as(r, *self),
            QRData::read_from(r, *self),
    {
        let mut ms: Vec<(String, Json)> = Vec::new();
        proof {
            reveal_strlit("token");
            assert("token"@.len() == 5);
        }
        push_field(&mut ms, "token", string_json(&self.token));
        Json::Object(ms)
    }

    /// `v` is what the JSON object `doc` says, field by field.
    pub open spec fn read_from(doc: Json, v: QRData) -> bool {
        &&& doc is Object
        &&& field_holds(member(doc, "token"@), |j: Json, x: String| string_value(j) == Ok::<String, DecodeError>(x), v.token)
    }

    /// Whether every field of `doc` can be read: required fields are present,
    /// and every field that is there holds a value of its kind.
    pub open spec fn readable(doc: Json) -> bool {
        &&& doc is Object
        &&& match member(doc, "token"@) {
            Some(j) => string_value(j) is Ok,
            None => false,
        }
    }

    /// Reads the value from a JSON object with camelCase keys. A missing or
    /// `null` optional field is unset; members it does not know are ignored.
    pub fn from_json(doc: &Json) -> (r: Result<QRData, DecodeError>)
        ensures
            !(*doc is Object) ==> r == Err::<QRData, DecodeError>(DecodeError::MalformedResponse),
            r matches Ok(v) ==> QRData::read_from(*doc, v),
            r is Ok <==> QRData::readable(*doc),
    {
        if !is_object(doc) {
            return Err(DecodeError::MalformedResponse);
        }
        let token = match get_member(doc, "token") {
            Some(j) => match read_string(j) {
                Ok(v) => v,
                Err(e) => return Err(e),
            },
            None => return Err(DecodeError::MalformedResponse),
        };
        Ok(QRData {
            token,
        })
    }
}

/// The phone number to send a payment offer to by SMS.
#[derive(Clone, Debug, PartialEq)]
pub struct SMSOffer {
    pub phone: String,
}

impl SMSOffer {
    /// A value with the given fields and every other field at its default:
    /// the optional fields unset.
    pub fn new(phone: String) -> (r: SMSOffer)
        ensures
            r.phone == phone,
    {
        SMSOffer {
            phone,
        }
    }

    /// `doc` is what [`Self::to_json`] writes for `v`: each field under its
    /// camelCase key, amounts as strings, nested values as they write
    /// themselves, no member at all for an unset optional field or an empty
    /// list that is left out, and no member under any other key.
    pub open spec fn writes_as(doc: Json, v: SMSOffer) -> bool {
        &&& doc is Object
        &&& field_holds(member(doc, "phone"@), |j: Json, x: String| string_value(j) == Ok::<String, DecodeError>(x), v.phone)
        &&& forall|k: Seq<char>| #[trigger] member(doc, k) is Some ==> k == "phone"@
    }

    /// The value as a JSON object with camelCase keys. An unset optional field
    /// is left out, not written as `null`; reading the object back gives the
    /// same value.
    pub fn to_json(&self) -> (r: Json)
        ensures
            SMSOffer::writes_as(r, *self),
            SMSOffer::read_from(r, *self),
    {
        let mut ms: Vec<(String, Json)> = Vec::new();
        proof {
            reveal_strlit("phone");
            assert("phone"@.len() == 5);
        }
        push_field(&mut ms, "phone", string_json(&self.phone));
        Json::Object(ms)
    }

    /// `v` is what the JSON object `doc` says, field by field.
    pub open spec fn read_from(doc: Json, v: SMSOffer) -> bool {
        &&& doc is Object
        &&& field_holds(member(doc, "phone"@), |j: Json, x: String| string_value(j) == Ok::<String, DecodeError>(x), v.phone)
    }

    /// Whether every field of `doc` can be read: required fields are present,
    /// and every field that is there holds a value of its kind.
    pub open spec fn readable(doc: Json) -> bool {
        &&& doc is Object
        &&& match member(doc, "phone"@) {
            Some(j) => string_value(j) is Ok,
            None => false,
        }
    }

    /// Reads the value from a JSON object with camelCase keys. A missing or
    /// `null` optional field is unset; members it does not know are ignored.
    pub fn from_json(doc: &Json) -> (r: Result<SMSOffer, DecodeError>)
        ensures
            !(*doc is Object) ==> r == Err::<SMSOffer, DecodeError>(DecodeError::MalformedResponse),
            r matches Ok(v) ==> SMSOffer::read_from(*doc, v),
            r is Ok <==> SMSOffer::readable(*doc),
    {
        if !is_object(doc) {
            return Err(DecodeError::MalformedResponse);
        }
        let phone = match get_member(doc, "phone") {
            Some(j) => match read_string(j) {
                Ok(v) => v,
                Err(e) => return Err(e),
            },
            None => return Err(DecodeError::MalformedResponse),
        };
        Ok(SMSOffer {
            phone,
        })
    }
}

/// What the merchant knows of the buyer's history, for risk scoring.
#[derive(Clone, Debug, PartialEq)]
pub struct CustomerAggregates {
    pub amount_first_successful_order: Option<Decimal>,
    pub amount_latest_successful_order: Option<Decimal>,
    pub cookie: Option<String>,
    pub days_since_last_password_reset: Option<i32>,
    pub failed_login_attempts_one_day: Option<i32>,
    pub failed_login_attempts_seven_days: Option<i32>,
    pub first_successful_order_date: Option<String>,
    pub historical_cookie_login: Option<bool>,
    pub historical_device_login: Option<bool>,
    pub last_password_reset_date: Option<String>,
    pub latest_successful_order_last_year_date: Option<String>,
    pub previous_successful_orders_at_same_address: Option<bool>,
    pub redemption_rate_last_half_year: Option<Decimal>,
    pub registration_date: Option<String>,
}

impl CustomerAggregates {
    /// A value with the given fields and every other field at its default:
    /// the optional fields unset.
    pub fn new() -> (r: CustomerAggregates)
        ensures
            r.amount_first_successful_order is None,
            r.amount_latest_successful_order is None,
            r.cookie is None,
            r.days_since_last_password_reset is None,
            r.failed_login_attempts_one_day is None,
            r.failed_login_attempts_seven_days is None,
            r.first_successful_order_date is None,
            r.historical_cookie_login is None,
            r.historical_device_login is None,
            r.last_password_reset_date is None,
            r.latest_successful_order_last_year_date is None,
            r.previous_successful_orders_at_same_address is None,
            r.redemption_rate_last_half_year is None,
            r.registration_date is None,
    {
        CustomerAggregates {
            amount_first_successful_order: None,
            amount_latest_successful_order: None,
            cookie: None,
            days_since_last_password_reset: None,
            failed_login_attempts_one_day: None,
            failed_login_attempts_seven_days: None,
            first_successful_order_date: None,
            historical_cookie_login: None,
            historical_device_login: None,
            last_password_reset_date: None,
            latest_successful_order_last_year_date: None,
            previous_successful_orders_at_same_address: None,
            redemption_rate_last_half_year: None,
            registration_date: None,
        }
    }

    /// `doc` is what [`Self::to_json`] writes for `v`: each field under its
    /// camelCase key, amounts as strings, nested values as they write
    /// themselves, no member at all for an unset optional field or an empty
    /// list that is left out, and no member under any other key.
    pub open spec fn writes_as(doc: Json, v: CustomerAggregates) -> bool {
        &&& doc is Object
        &&& match v.amount_first_successful_order {
            None => member(doc, "amountFirstSuccessfulOrder"@) is None,
            Some(w) => field_holds(member(doc, "amountFirstSuccessfulOrder"@), |j: Json, x: Decimal| j matches Json::Str(t) && t@ == decimal_text(x), w),
        }
        &&& match v.amount_latest_successful_order {
            None => member(doc, "amountLatestSuccessfulOrder"@) is None,
            Some(w) => field_holds(member(doc, "amountLatestSuccessfulOrder"@), |j: Json, x: Decimal| j matches Json::Str(t) && t@ == decimal_text(x), w),
        }
        &&& match v.cookie {
            None => member(doc, "cookie"@) is None,
            Some(w) => field_holds(member(doc, "cookie"@), |j: Json, x: String| string_value(j) == Ok::<String, DecodeError>(x), w),
        }
        &&& match v.days_since_last_password_reset {
            None => member(doc, "daysSinceLastPasswordReset"@) is None,
            Some(w) => field_holds(member(doc, "daysSinceLastPasswordReset"@), |j: Json, x: i32| j matches Json::Number(t) && t@ == decimal_text(Decimal { mantissa: x as i64, scale: 0 }), w),
        }
        &&& match v.failed_login_attempts_one_day {
            None => member(doc, "failedLoginAttemptsOneDay"@) is None,
            Some(w) => field_holds(member(doc, "failedLoginAttemptsOneDay"@), |j: Json, x: i32| j matches Json::Number(t) && t@ == decimal_text(Decimal { mantissa: x as i64, scale: 0 }), w),
        }
        &&& match v.failed_login_attempts_seven_days {
            None => member(doc, "failedLoginAttemptsSevenDays"@) is None,
            Some(w) => field_holds(member(doc, "failedLoginAttemptsSevenDays"@), |j: Json, x: i32| j matches Json::Number(t) && t@ == decimal_text(Decimal { mantissa: x as i64, scale: 0 }), w),
        }
        &&& match v.first_successful_order_date {
            None => member(doc, "firstSuccessfulOrderDate"@) is None,
            Some(w) => field_holds(member(doc, "firstSuccessfulOrderDate"@), |j: Json, x: String| string_value(j) == Ok::<String, DecodeError>(x), w),
        }
        &&& match v.historical_cookie_login {
            None => member(doc, "historicalCookieLogin"@) is None,
            Some(w) => field_holds(member(doc, "historicalCookieLogin"@), |j: Json, x: bool| bool_value(j) == Ok::<bool, DecodeError>(x), w),
        }
        &&& match v.historical_device_login {
            None => member(doc, "historicalDeviceLogin"@) is None,
            Some(w) => field_holds(member(doc, "historicalDeviceLogin"@), |j: Json, x: bool| bool_value(j) == Ok::<bool, DecodeError>(x), w),
        }
        &&& match v.last_password_reset_date {
            None => member(doc, "lastPasswordResetDate"@) is None,
            Some(w) => field_holds(member(doc, "lastPasswordResetDate"@), |j: Json, x: String| string_value(j) == Ok::<String, DecodeError>(x), w),
        }
        &&& match v.latest_successful_order_last_year_date {
            None => member(doc, "latestSuccessfulOrderLastYearDate"@) is None,
            Some(w) => field_holds(member(doc, "latestSuccessfulOrderLastYearDate"@), |j: Json, x: String| string_value(j) == Ok::<String, DecodeError>(x), w),
        }
        &&& match v.previous_successful_orders_at_same_address {
            None => member(doc, "previousSuccessfulOrdersAtSameAddress"@) is None,
            Some(w) => field_holds(member(doc, "previousSuccessfulOrdersAtSameAddress"@), |j: Json, x: bool| bool_value(j) == Ok::<bool, DecodeError>(x), w),
        }
        &&& match v.redemption_rate_last_half_year {
            None => member(doc, "redemptionRateLastHalfYear"@) is None,
            Some(w) => field_holds(member(doc, "redemptionRateLastHalfYear"@), |j: Json, x: Decimal| j matches Json::Str(t) && t@ == decimal_text(x), w),
        }
        &&& match v.registration_date {
            None => member(doc, "registrationDate"@) is None,
            Some(w) => field_holds(member(doc, "registrationDate"@), |j: Json, x: String| string_value(j) == Ok::<String, DecodeError>(x), w),
        }
        &&& forall|k: Seq<char>| #[trigger] member(doc, k) is Some ==> k == "amountFirstSuccessfulOrder"@ || k == "amountLatestSuccessfulOrder"@ || k == "cookie"@ || k == "daysSinceLastPasswordReset"@ || k == "failedLoginAttemptsOneDay"@ || k == "failedLoginAttemptsSevenDays"@ || k == "firstSuccessfulOrderDate"@ || k == "historicalCookieLogin"@ || k == "historicalDeviceLogin"@ || k == "lastPasswordResetDate"@ || k == "latestSuccessfulOrderLastYearDate"@ || k == "previousSuccessfulOrdersAtSameAddress"@ || k == "redemptionRateLastHalfYear"@ || k == "registrationDate"@
    }

    /// The members for `amount_first_successful_order`, `amount_latest_successful_order`, `cookie`, `days_since_last_password_reset`, `failed_login_attempts_one_day`, `failed_login_attempts_seven_days`.
    fn members_1(&self) -> (ms: Vec<(String, Json)>)
        ensures
            match self.amount_first_successful_order {
                    None => lookup(ms@, "amountFirstSuccessfulOrder"@) is None,
                    Some(w) => field_holds(lookup(ms@, "amountFirstSuccessfulOrder"@), |j: Json, x: Decimal| j matches Json::Str(t) && t@ == decimal_text(x), w),
                },
            opt_field_holds(lookup(ms@, "amountFirstSuccessfulOrder"@), |j: Json, x: Decimal| decimal_string_value(j) == Ok::<Decimal, DecodeError>(x), self.amount_first_successful_order),
            match self.amount_latest_successful_order {
                    None => lookup(ms@, "amountLatestSuccessfulOrder"@) is None,
                    Some(w) => field_holds(lookup(ms@, "amountLatestSuccessfulOrder"@), |j: Json, x: Decimal| j matches Json::Str(t) && t@ == decimal_text(x), w),
                },
            opt_field_holds(lookup(ms@, "amountLatestSuccessfulOrder"@), |j: Json, x: Decimal| decimal_string_value(j) == Ok::<Decimal, DecodeError>(x), self.amount_latest_successful_order),
            match self.cookie {
                    None => lookup(ms@, "cookie"@) is None,
                    Some(w) => field_holds(lookup(ms@, "cookie"@), |j: Json, x: String| string_value(j) == Ok::<String, DecodeError>(x), w),
                },
            opt_field_holds(lookup(ms@, "cookie"@), |j: Json, x: String| string_value(j) == Ok::<String, DecodeError>(x), self.cookie),
            match self.days_since_last_password_reset {
                    None => lookup(ms@, "daysSinceLastPasswordReset"@) is None,
                    Some(w) => field_holds(lookup(ms@, "daysSinceLastPasswordReset"@), |j: Json, x: i32| j matches Json::Number(t) && t@ == decimal_text(Decimal { mantissa: x as i64, scale: 0 }), w),
                },
            opt_field_holds(lookup(ms@, "daysSinceLastPasswordReset"@), |j: Json, x: i32| i32_value(j) == Ok::<i32, DecodeError>(x), self.days_since_last_password_reset),
            match self.failed_login_attempts_one_day {
                    None => lookup(ms@, "failedLoginAttemptsOneDay"@) is None,
                    Some(w) => field_holds(lookup(ms@, "failedLoginAttemptsOneDay"@), |j: Json, x: i32| j matches Json::Number(t) && t@ == decimal_text(Decimal { mantissa: x as i64, scale: 0 }), w),
                },
            opt_field_holds(lookup(ms@, "failedLoginAttemptsOneDay"@), |j: Json, x: i32| i32_value(j) == Ok::<i32, DecodeError>(x), self.failed_login_attempts_one_day),
            match self.failed_login_attempts_seven_days {
                    None => lookup(ms@, "failedLoginAttemptsSevenDays"@) is None,
                    Some(w) => field_holds(lookup(ms@, "failedLoginAttemptsSevenDays"@), |j: Json, x: i32| j matches Json::Number(t) && t@ == decimal_text(Decimal { mantissa: x as i64, scale: 0 }), w),
                },
            opt_field_holds(lookup(ms@, "failedLoginAttemptsSevenDays"@), |j: Json, x: i32| i32_value(j) == Ok::<i32, DecodeError>(x), self.failed_login_attempts_seven_days),
            forall|k: Seq<char>| #[trigger] lookup(ms@, k) is Some ==> k == "amountFirstSuccessfulOrder"@ || k == "amountLatestSuccessfulOrder"@ || k == "cookie"@ || k == "daysSinceLastPasswordReset"@ || k == "failedLoginAttemptsOneDay"@ || k == "failedLoginAttemptsSevenDays"@,
    {
        let mut ms: Vec<(String, Json)> = Vec::new();
        proof {
            reveal_strlit("amountFirstSuccessfulOrder");
            reveal_strlit("amountLatestSuccessfulOrder");
            reveal_strlit("cookie");
            reveal_strlit("daysSinceLastPasswordReset");
            reveal_strlit("failedLoginAttemptsOneDay");
            reveal_strlit("failedLoginAttemptsSevenDays");
            assert("amountFirstSuccessfulOrder"@.len() == 26);
            assert("amountLatestSuccessfulOrder"@.len() == 27);
            assert("cookie"@.len() == 6);
            assert("daysSinceLastPasswordReset"@.len() == 26);
            assert("failedLoginAttemptsOneDay"@.len() == 25);
            assert("failedLoginAttemptsSevenDays"@.len() == 28);
            assert("amountFirstSuccessfulOrder"@[0] == 'a');
            assert("daysSinceLastPasswordReset"@[0] == 'd');
        }
        push_optional(&mut ms, "amountFirstSuccessfulOrder", match &self.amount_first_successful_order {
            Some(x) => Some(decimal_string_json(*x)),
            None => None,
        });
        push_optional(&mut ms, "amountLatestSuccessfulOrder", match &self.amount_latest_successful_order {
            Some(x) => Some(decimal_string_json(*x)),
            None => None,
        });
        push_optional(&mut ms, "cookie", match &self.cookie {
            Some(x) => Some(string_json(x)),
            None => None,
        });
        push_optional(&mut ms, "daysSinceLastPasswordReset", match &self.days_since_last_password_reset {
            Some(x) => Some(integer_json(*x as i64)),
            None => None,
        });
        push_optional(&mut ms, "failedLoginAttemptsOneDay", match &self.failed_login_attempts_one_day {
            Some(x) => Some(integer_json(*x as i64)),
            None => None,
        });
        push_optional(&mut ms, "failedLoginAttemptsSevenDays", match &self.failed_login_attempts_seven_days {
            Some(x) => Some(integer_json(*x as i64)),
            None => None,
        });
        ms
    }

    /// The members for `first_successful_order_date`, `historical_cookie_login`, `historical_device_login`, `last_password_reset_date`, `latest_successful_order_last_year_date`, `previous_successful_orders_at_same_address`.
    fn members_2(&self) -> (ms: Vec<(String, Json)>)
        ensures
            match self.first_successful_order_date {
                    None => lookup(ms@, "firstSuccessfulOrderDate"@) is None,
                    Some(w) => field_holds(lookup(ms@, "firstSuccessfulOrderDate"@), |j: Json, x: String| string_value(j) == Ok::<String, DecodeError>(x), w),
                },
            opt_field_holds(lookup(ms@, "firstSuccessfulOrderDate"@), |j: Json, x: String| string_value(j) == Ok::<String, DecodeError>(x), self.first_successful_order_date),
            match self.historical_cookie_login {
                    None => lookup(ms@, "historicalCookieLogin"@) is None,
                    Some(w) => field_holds(lookup(ms@, "historicalCookieLogin"@), |j: Json, x: bool| bool_value(j) == Ok::<bool, DecodeError>(x), w),
                },
            opt_field_holds(lookup(ms@, "historicalCookieLogin"@), |j: Json, x: bool| bool_value(j) == Ok::<bool, DecodeError>(x), self.historical_cookie_login),
            match self.historical_device_login {
                    None => lookup(ms@, "historicalDeviceLogin"@) is None,
                    Some(w) => field_holds(lookup(ms@, "historicalDeviceLogin"@), |j: Json, x: bool| bool_value(j) == Ok::<bool, DecodeError>(x), w),
                },
            opt_field_holds(lookup(ms@, "historicalDeviceLogin"@), |j: Json, x: bool| bool_value(j) == Ok::<bool, DecodeError>(x), self.historical_device_login),
            match self.last_password_reset_date {
                    None => lookup(ms@, "lastPasswordResetDate"@) is None,
                    Some(w) => field_holds(lookup(ms@, "lastPasswordResetDate"@), |j: Json, x: String| string_value(j) == Ok::<String, DecodeError>(x), w),
                },
            opt_field_holds(lookup(ms@, "lastPasswordResetDate"@), |j: Json, x: String| string_value(j) == Ok::<String, DecodeError>(x), self.last_password_reset_date),
            match self.latest_successful_order_last_year_date {
                    None => lookup(ms@, "latestSuccessfulOrderLastYearDate"@) is None,
                    Some(w) => field_holds(lookup(ms@, "latestSuccessfulOrderLastYearDate"@), |j: Json, x: String| string_value(j) == Ok::<String, DecodeError>(x), w),
                },
            opt_field_holds(lookup(ms@, "latestSuccessfulOrderLastYearDate"@), |j: Json, x: String| string_value(j) == Ok::<String, DecodeError>(x), self.latest_successful_order_last_year_date),
            match self.previous_successful_orders_at_same_address {
                    None => lookup(ms@, "previousSuccessfulOrdersAtSameAddress"@) is None,
                    Some(w) => field_holds(lookup(ms@, "previousSuccessfulOrdersAtSameAddress"@), |j: Json, x: bool| bool_value(j) == Ok::<bool, DecodeError>(x), w),
                },
            opt_field_holds(lookup(ms@, "previousSuccessfulOrdersAtSameAddress"@), |j: Json, x: bool| bool_value(j) == Ok::<bool, DecodeError>(x), self.previous_successful_orders_at_same_address),
            forall|k: Seq<char>| #[trigger] lookup(ms@, k) is Some ==> k == "firstSuccessfulOrderDate"@ || k == "historicalCookieLogin"@ || k == "historicalDeviceLogin"@ || k == "lastPasswordResetDate"@ || k == "latestSuccessfulOrderLastYearDate"@ || k == "previousSuccessfulOrdersAtSameAddress"@,
    {
        let mut ms: Vec<(String, Json)> = Vec::new();
        proof {
            reveal_strlit("firstSuccessfulOrderDate");
            reveal_strlit("historicalCookieLogin");
            reveal_strlit("historicalDeviceLogin");
            reveal_strlit("lastPasswordResetDate");
            reveal_strlit("latestSuccessfulOrderLastYearDate");
            reveal_strlit("previousSuccessfulOrdersAtSameAddress");
            assert("firstSuccessfulOrderDate"@.len() == 24);
            assert("historicalCookieLogin"@.len() == 21);
            assert("historicalDeviceLogin"@.len() == 21);
            assert("lastPasswordResetDate"@.len() == 21);
            assert("latestSuccessfulOrderLastYearDate"@.len() == 33);
            assert("previousSuccessfulOrdersAtSameAddress"@.len() == 37);
            assert("historicalCookieLogin"@[0] == 'h');
            assert("historicalCookieLogin"@[10] == 'C');
            assert("historicalDeviceLogin"@[0] == 'h');
            assert("historicalDeviceLogin"@[10] == 'D');
            assert("lastPasswordResetDate"@[0] == 'l');
        }
        push_optional(&mut ms, "firstSuccessfulOrderDate", match &self.first_successful_order_date {
            Some(x) => Some(string_json(x)),
            None => None,
        });
        push_optional(&mut ms, "historicalCookieLogin", match &self.historical_cookie_login {
            Some(x) => Some(Json::Bool(*x)),
            None => None,
        });
        push_optional(&mut ms, "historicalDeviceLogin", match &self.historical_device_login {
            Some(x) => Some(Json::Bool(*x)),
            None => None,
        });
        push_optional(&mut ms, "lastPasswordResetDate", match &self.last_password_reset_date {
            Some(x) => Some(string_json(x)),
            None => None,
        });
        push_optional(&mut ms, "latestSuccessfulOrderLastYearDate", match &self.latest_successful_order_last_year_date {
            Some(x) => Some(string_json(x)),
            None => None,
        });
        push_optional(&mut ms, "previousSuccessfulOrdersAtSameAddress", match &self.previous_successful_orders_at_same_address {
            Some(x) => Some(Json::Bool(*x)),
            None => None,
        });
        ms
    }

    /// The members for `redemption_rate_last_half_year`, `registration_date`.
    fn members_3(&self) -> (ms: Vec<(String, Json)>)
        ensures
            match self.redemption_rate_last_half_year {
                    None => lookup(ms@, "redemptionRateLastHalfYear"@) is None,
                    Some(w) => field_holds(lookup(ms@, "redemptionRateLastHalfYear"@), |j: Json, x: Decimal| j matches Json::Str(t) && t@ == decimal_text(x), w),
                },
            opt_field_holds(lookup(ms@, "redemptionRateLastHalfYear"@), |j: Json, x: Decimal| decimal_string_value(j) == Ok::<Decimal, DecodeError>(x), self.redemption_rate_last_half_year),
            match self.registration_date {
                    None => lookup(ms@, "registrationDate"@) is None,
                    Some(w) => field_holds(lookup(ms@, "registrationDate"@), |j: Json, x: String| string_value(j) == Ok::<String, DecodeError>(x), w),
                },
            opt_field_holds(lookup(ms@, "registrationDate"@), |j: Json, x: String| string_value(j) == Ok::<String, DecodeError>(x), self.registration_date),
            forall|k: Seq<char>| #[trigger] lookup(ms@, k) is Some ==> k == "redemptionRateLastHalfYear"@ || k == "registrationDate"@,
    {
        let mut ms: Vec<(String, Json)> = Vec::new();
        proof {
            reveal_strlit("redemptionRateLastHalfYear");
            reveal_strlit("registrationDate");
            assert("redemptionRateLastHalfYear"@.len() == 26);
            assert("registrationDate"@.len() == 16);
        }
        push_optional(&mut ms, "redemptionRateLastHalfYear", match &self.redemption_rate_last_half_year {
            Some(x) => Some(decimal_string_json(*x)),
            None => None,
        });
        push_optional(&mut ms, "registrationDate", match &self.registration_date {
            Some(x) => Some(string_json(x)),
            None => None,
        });
        ms
    }

    /// The value as a JSON object with camelCase keys. An unset optional field
    /// is left out, not written as `null`; reading the object back gives the
    /// same value.
    #[verifier::spinoff_prover]
    #[verifier::rlimit(100)]
    pub fn to_json(&self) -> (r: Json)
        ensures
            CustomerAggregates::writes_as(r, *self),
            CustomerAggregates::read_from(r, *self),
    {
        let mut ms = self.members_1();
        proof {
            reveal_strlit("amountFirstSuccessfulOrder");
            reveal_strlit("amountLatestSuccessfulOrder");
            reveal_strlit("cookie");
            reveal_strlit("daysSinceLastPasswordReset");
            reveal_strlit("failedLoginAttemptsOneDay");
            reveal_strlit("failedLoginAttemptsSevenDays");
            reveal_strlit("firstSuccessfulOrderDate");
            reveal_strlit("historicalCookieLogin");
            reveal_strlit("historicalDeviceLogin");
            reveal_strlit("lastPasswordResetDate");
            reveal_strlit("latestSuccessfulOrderLastYearDate");
            reveal_strlit("previousSuccessfulOrdersAtSameAddress");
            reveal_strlit("redemptionRateLastHalfYear");
            reveal_strlit("registrationDate");
            assert("amountFirstSuccessfulOrder"@.len() == 26);
            assert("amountLatestSuccessfulOrder"@.len() == 27);
            assert("cookie"@.len() == 6);
            assert("daysSinceLastPasswordReset"@.len() == 26);
            assert("failedLoginAttemptsOneDay"@.len() == 25);
            assert("failedLoginAttemptsSevenDays"@.len() == 28);
            assert("firstSuccessfulOrderDate"@.len() == 24);
            assert("historicalCookieLogin"@.len() == 21);
            assert("historicalDeviceLogin"@.len() == 21);
            assert("lastPasswordResetDate"@.len() == 21);
            assert("latestSuccessfulOrderLastYearDate"@.len() == 33);
            assert("previousSuccessfulOrdersAtSameAddress"@.len() == 37);
            assert("redemptionRateLastHalfYear"@.len() == 26);
            assert("registrationDate"@.len() == 16);
            assert("amountFirstSuccessfulOrder"@[0] == 'a');
            assert("daysSinceLastPasswordReset"@[0] == 'd');
            assert("historicalCookieLogin"@[0] == 'h');
            assert("historicalCookieLogin"@[10] == 'C');
            assert("historicalDeviceLogin"@[0] == 'h');
            assert("historicalDeviceLogin"@[10] == 'D');
            assert("lastPasswordResetDate"@[0] == 'l');
            assert("redemptionRateLastHalfYear"@[0] == 'r');
        }
        let ghost a = ms@;
        let mut rest = self.members_2();
        let ghost b = rest@;
        ms.append(&mut rest);
        assert forall|k: Seq<char>| #[trigger] lookup(ms@, k) == (if lookup(a, k) is Some {
            lookup(a, k)
        } else {
            lookup(b, k)
        }) by {
            lemma_lookup_concat(a, b, k);
        }
        let ghost a = ms@;
        let mut rest = self.members_3();
        let ghost b = rest@;
        ms.append(&mut rest);
        assert forall|k: Seq<char>| #[trigger] lookup(ms@, k) == (if lookup(a, k) is Some {
            lookup(a, k)
        } else {
            lookup(b, k)
        }) by {
            lemma_lookup_concat(a, b, k);
        }
        Json::Object(ms)
    }

    /// `v` is what the JSON object `doc` says, field by field.
    pub open spec fn read_from(doc: Json, v: CustomerAggregates) -> bool {
        &&& doc is Object
        &&& opt_field_holds(member(doc, "amountFirstSuccessfulOrder"@), |j: Json, x: Decimal| decimal_string_value(j) == Ok::<Decimal, DecodeError>(x), v.amount_first_successful_order)
        &&& opt_field_holds(member(doc, "amountLatestSuccessfulOrder"@), |j: Json, x: Decimal| decimal_string_value(j) == Ok::<Decimal, DecodeError>(x), v.amount_latest_successful_order)
        &&& opt_field_holds(member(doc, "cookie"@), |j: Json, x: String| string_value(j) == Ok::<String, DecodeError>(x), v.cookie)
        &&& opt_field_holds(member(doc, "daysSinceLastPasswordReset"@), |j: Json, x: i32| i32_value(j) == Ok::<i32, DecodeError>(x), v.days_since_last_password_reset)
        &&& opt_field_holds(member(doc, "failedLoginAttemptsOneDay"@), |j: Json, x: i32| i32_value(j) == Ok::<i32, DecodeError>(x), v.failed_login_attempts_one_day)
        &&& opt_field_holds(member(doc, "failedLoginAttemptsSevenDays"@), |j: Json, x: i32| i32_value(j) == Ok::<i32, DecodeError>(x), v.failed_login_attempts_seven_days)
        &&& opt_field_holds(member(doc, "firstSuccessfulOrderDate"@), |j: Json, x: String| string_value(j) == Ok::<String, DecodeError>(x), v.first_successful_order_date)
        &&& opt_field_holds(member(doc, "historicalCookieLogin"@), |j: Json, x: bool| bool_value(j) == Ok::<bool, DecodeError>(x), v.historical_cookie_login)
        &&& opt_field_holds(member(doc, "historicalDeviceLogin"@), |j: Json, x: bool| bool_value(j) == Ok::<bool, DecodeError>(x), v.historical_device_login)
        &&& opt_field_holds(member(doc, "lastPasswordResetDate"@), |j: Json, x: String| string_value(j) == Ok::<String, DecodeError>(x), v.last_password_reset_date)
        &&& opt_field_holds(member(doc, "latestSuccessfulOrderLastYearDate"@), |j: Json, x: String| string_value(j) == Ok::<String, DecodeError>(x), v.latest_successful_order_last_year_date)
        &&& opt_field_holds(member(doc, "previousSuccessfulOrdersAtSameAddress"@), |j: Json, x: bool| bool_value(j) == Ok::<bool, DecodeError>(x), v.previous_successful_orders_at_same_address)
        &&& opt_field_holds(member(doc, "redemptionRateLastHalfYear"@), |j: Json, x: Decimal| decimal_string_value(j) == Ok::<Decimal, DecodeError>(x), v.redemption_rate_last_half_year)
        &&& opt_field_holds(member(doc, "registrationDate"@), |j: Json, x: String| string_value(j) == Ok::<String, DecodeError>(x), v.registration_date)
    }

    /// Whether every field of `doc` can be read: required fields are present,
    /// and every field that is there holds a value of its kind.
    pub open spec fn readable(doc: Json) -> bool {
        &&& doc is Object
        &&& match member(doc, "amountFirstSuccessfulOrder"@) {
            Some(j) => j == Json::Null || decimal_string_value(j) is Ok,
            None => true,
        }
        &&& match member(doc, "amountLatestSuccessfulOrder"@) {
            Some(j) => j == Json::Null || decimal_string_value(j) is Ok,
            None => true,
        }
        &&& match member(doc, "cookie"@) {
            Some(j) => j == Json::Null || string_value(j) is Ok,
            None => true,
        }
        &&& match member(doc, "daysSinceLastPasswordReset"@) {
            Some(j) => j == Json::Null || i32_value(j) is Ok,
            None => true,
        }
        &&& match member(doc, "failedLoginAttemptsOneDay"@) {
            Some(j) => j == Json::Null || i32_value(j) is Ok,
            None => true,
        }
        &&& match member(doc, "failedLoginAttemptsSevenDays"@) {
            Some(j) => j == Json::Null || i32_value(j) is Ok,
            None => true,
        }
        &&& match member(doc, "firstSuccessfulOrderDate"@) {
            Some(j) => j == Json::Null || string_value(j) is Ok,
            None => true,
        }
        &&& match member(doc, "historicalCookieLogin"@) {
            Some(j) => j == Json::Null || bool_value(j) is Ok,
            None => true,
        }
        &&& match member(doc, "historicalDeviceLogin"@) {
            Some(j) => j == Json::Null || bool_value(j) is Ok,
            None => true,
        }
        &&& match member(doc, "lastPasswordResetDate"@) {
            Some(j) => j == Json::Null || string_value(j) is Ok,
            None => true,
        }
        &&& match member(doc, "latestSuccessfulOrderLastYearDate"@) {
            Some(j) => j == Json::Null || string_value(j) is Ok,
            None => true,
        }
        &&& match member(doc, "previousSuccessfulOrdersAtSameAddress"@) {
            Some(j) => j == Json::Null || bool_value(j) is Ok,
            None => true,
        }
        &&& match member(doc, "redemptionRateLastHalfYear"@) {
            Some(j) => j == Json::Null || decimal_string_value(j) is Ok,
            None => true,
        }
        &&& match member(doc, "registrationDate"@) {
            Some(j) => j == Json::Null || string_value(j) is Ok,
            None => true,
        }
    }

    /// Reads the value from a JSON object with camelCase keys. A missing or
    /// `null` optional field is unset; members it does not know are ignored.
    #[verifier::spinoff_prover]
    #[verifier::rlimit(100)]
    pub fn from_json(doc: &Json) -> (r: Result<CustomerAggregates, DecodeError>)
        ensures
            !(*doc is Object) ==> r == Err::<CustomerAggregates, DecodeError>(DecodeError::MalformedResponse),
            r matches Ok(v) ==> CustomerAggregates::read_from(*doc, v),
            r is Ok <==> CustomerAggregates::readable(*doc),
    {
        if !is_object(doc) {
            return Err(DecodeError::MalformedResponse);
        }
        let amount_first_successful_order = match get_member(doc, "amountFirstSuccessfulOrder") {
            None => None,
            Some(Json::Null) => None,
            Some(j) => match read_decimal_string(j) {
                Ok(v) => Some(v),
                Err(e) => return Err(e),
            },
        };
        let amount_latest_successful_order = match get_member(doc, "amountLatestSuccessfulOrder") {
            None => None,
            Some(Json::Null) => None,
            Some(j) => match read_decimal_string(j) {
                Ok(v) => Some(v),
                Err(e) => return Err(e),
            },
        };
        let cookie = match get_member(doc, "cookie") {
            None => None,
            Some(Json::Null) => None,
            Some(j) => match read_string(j) {
                Ok(v) => Some(v),
                Err(e) => return Err(e),
            },
        };
        let days_since_last_password_reset = match get_member(doc, "daysSinceLastPasswordReset") {
            None => None,
            Some(Json::Null) => None,
            Some(j) => match read_i32(j) {
                Ok(v) => Some(v),
                Err(e) => return Err(e),
            },
        };
        let failed_login_attempts_one_day = match get_member(doc, "failedLoginAttemptsOneDay") {
            None => None,
            Some(Json::Null) => None,
            Some(j) => match read_i32(j) {
                Ok(v) => Some(v),
                Err(e) => return Err(e),
            },
        };
        let failed_login_attempts_seven_days = match get_member(doc, "failedLoginAttemptsSevenDays") {
            None => None,
            Some(Json::Null) => None,
            Some(j) => match read_i32(j) {
                Ok(v) => Some(v),
                Err(e) => return Err(e),
            },
        };
        let first_successful_order_date = match get_member(doc, "firstSuccessfulOrderDate") {
            None => None,
            Some(Json::Null) => None,
            Some(j) => match read_string(j) {
                Ok(v) => Some(v),
                Err(e) => return Err(e),
            },
        };
        let historical_cookie_login = match get_member(doc, "historicalCookieLogin") {
            None => None,
            Some(Json::Null) => None,
            Some(j) => match read_bool(j) {
                Ok(v) => Some(v),
                Err(e) => return Err(e),
            },
        };
        let historical_device_login = match get_member(doc, "historicalDeviceLogin") {
            None => None,
            Some(Json::Null) => None,
            Some(j) => match read_bool(j) {
                Ok(v) => Some(v),
                Err(e) => return Err(e),
            },
        };
        let last_password_reset_date = match get_member(doc, "lastPasswordResetDate") {
            None => None,
            Some(Json::Null) => None,
            Some(j) => match read_string(j) {
                Ok(v) => Some(v),
                Err(e) => return Err(e),
            },
        };
        let latest_successful_order_last_year_date = match get_member(doc, "latestSuccessfulOrderLastYearDate") {
            None => None,
            Some(Json::Null) => None,
            Some(j) => match read_string(j) {
                Ok(v) => Some(v),
                Err(e) => return Err(e),
            },
        };
        let previous_successful_orders_at_same_address = match get_member(doc, "previousSuccessfulOrdersAtSameAddress") {
            None => None,
            Some(Json::Null) => None,
            Some(j) => match read_bool(j) {
                Ok(v) => Some(v),
                Err(e) => return Err(e),
            },
        };
        let redemption_rate_last_half_year = match get_member(doc, "redemptionRateLastHalfYear") {
            None => None,
            Some(Json::Null) => None,
            Some(j) => match read_decimal_string(j) {
                Ok(v) => Some(v),
                Err(e) => return Err(e),
            },
        };
        let registration_date = match get_member(doc, "registrationDate") {
            None => None,
            Some(Json::Null) => None,
            Some(j) => match read_string(j) {
                Ok(v) => Some(v),
                Err(e) => return Err(e),
            },
        };
        Ok(CustomerAggregates {
            amount_first_successful_order,
            amount_latest_successful_order,
            cookie,
            days_since_last_password_reset,
            failed_login_attempts_one_day,
            failed_login_attempts_seven_days,
            first_successful_order_date,
            historical_cookie_login,
            historical_device_login,
            last_password_reset_date,
            latest_successful_order_last_year_date,
            previous_successful_orders_at_same_address,
            redemption_rate_last_half_year,
            registration_date,
        })
    }
}

/// Counts and totals of the buyer's successful orders over several periods.
#[derive(Clone, Debug, PartialEq)]
pub struct PeriodCheckAggregates {
    pub successful_orders_count_nine_months: Option<i32>,
    pub successful_orders_count_one_month: Option<i32>,
    pub successful_orders_count_six_months: Option<i32>,
    pub successful_orders_count_three_months: Option<i32>,
    pub successful_orders_count_twelve_months: Option<i32>,
    pub total_amount_successful_orders_nine_months: Option<Decimal>,
    pub total_amount_successful_orders_one_month: Option<Decimal>,
    pub total_amount_successful_orders_six_months: Option<Decimal>,
    pub total_amount_successful_orders_three_months: Option<Decimal>,
    pub total_amount_successful_orders_twelve_months: Option<Decimal>,
}

impl PeriodCheckAggregates {
    /// A value with the given fields and every other field at its default:
    /// the optional fields unset.
    pub fn new() -> (r: PeriodCheckAggregates)
        ensures
            r.successful_orders_count_nine_months is None,
            r.successful_orders_count_one_month is None,
            r.successful_orders_count_six_months is None,
            r.successful_orders_count_three_months is None,
            r.successful_orders_count_twelve_months is None,
            r.total_amount_successful_orders_nine_months is None,
            r.total_amount_successful_orders_one_month is None,
            r.total_amount_successful_orders_six_months is None,
            r.total_amount_successful_orders_three_months is None,
            r.total_amount_successful_orders_twelve_months is None,
    {
        PeriodCheckAggregates {
            successful_orders_count_nine_months: None,
            successful_orders_count_one_month: None,
            successful_orders_count_six_months: None,
            successful_orders_count_three_months: None,
            successful_orders_count_twelve_months: None,
            total_amount_successful_orders_nine_months: None,
            total_amount_successful_orders_one_month: None,
            total_amount_successful_orders_six_months: None,
            total_amount_successful_orders_three_months: None,
            total_amount_successful_orders_twelve_months: None,
        }
    }

    /// `doc` is what [`Self::to_json`] writes for `v`: each field under its
    /// camelCase key, amounts as strings, nested values as they write
    /// themselves, no member at all for an unset optional field or an empty
    /// list that is left out, and no member under any other key.
    pub open spec fn writes_as(doc: Json, v: PeriodCheckAggregates) -> bool {
        &&& doc is Object
        &&& match v.successful_orders_count_nine_months {
            None => member(doc, "successfulOrdersCountNineMonths"@) is None,
            Some(w) => field_holds(member(doc, "successfulOrdersCountNineMonths"@), |j: Json, x: i32| j matches Json::Number(t) && t@ == decimal_text(Decimal { mantissa: x as i64, scale: 0 }), w),
        }
        &&& match v.successful_orders_count_one_month {
            None => member(doc, "successfulOrdersCountOneMonth"@) is None,
            Some(w) => field_holds(member(doc, "successfulOrdersCountOneMonth"@), |j: Json, x: i32| j matches Json::Number(t) && t@ == decimal_text(Decimal { mantissa: x as i64, scale: 0 }), w),
        }
        &&& match v.successful_orders_count_six_months {
            None => member(doc, "successfulOrdersCountSixMonths"@) is None,
            Some(w) => field_holds(member(doc, "successfulOrdersCountSixMonths"@), |j: Json, x: i32| j matches Json::Number(t) && t@ == decimal_text(Decimal { mantissa: x as i64, scale: 0 }), w),
        }
        &&& match v.successful_orders_count_three_months {
            None => member(doc, "successfulOrdersCountThreeMonths"@) is None,
            Some(w) => field_holds(member(doc, "successfulOrdersCountThreeMonths"@), |j: Json, x: i32| j matches Json::Number(t) && t@ == decimal_text(Decimal { mantissa: x as i64, scale: 0 }), w),
        }
        &&& match v.successful_orders_count_twelve_months {
            None => member(doc, "successfulOrdersCountTwelveMonths"@) is None,
            Some(w) => field_holds(member(doc, "successfulOrdersCountTwelveMonths"@), |j: Json, x: i32| j matches Json::Number(t) && t@ == decimal_text(Decimal { mantissa: x as i64, scale: 0 }), w),
        }
        &&& match v.total_amount_successful_orders_nine_months {
            None => member(doc, "totalAmountSuccessfulOrdersNineMonths"@) is None,
            Some(w) => field_holds(member(doc, "totalAmountSuccessfulOrdersNineMonths"@), |j: Json, x: Decimal| j matches Json::Str(t) && t@ == decimal_text(x), w),
        }
        &&& match v.total_amount_successful_orders_one_month {
            None => member(doc, "totalAmountSuccessfulOrdersOneMonth"@) is None,
            Some(w) => field_holds(member(doc, "totalAmountSuccessfulOrdersOneMonth"@), |j: Json, x: Decimal| j matches Json::Str(t) && t@ == decimal_text(x), w),
        }
        &&& match v.total_amount_successful_orders_six_months {
            None => member(doc, "totalAmountSuccessfulOrdersSixMonths"@) is None,
            Some(w) => field_holds(member(doc, "totalAmountSuccessfulOrdersSixMonths"@), |j: Json, x: Decimal| j matches Json::Str(t) && t@ == decimal_text(x), w),
        }
        &&& match v.total_amount_successful_orders_three_months {
            None => member(doc, "totalAmountSuccessfulOrdersThreeMonths"@) is None,
            Some(w) => field_holds(member(doc, "totalAmountSuccessfulOrdersThreeMonths"@), |j: Json, x: Decimal| j matches Json::Str(t) && t@ == decimal_text(x), w),
        }
        &&& match v.total_amount_successful_orders_twelve_months {
            None => member(doc, "totalAmountSuccessfulOrdersTwelveMonths"@) is None,
            Some(w) => field_holds(member(doc, "totalAmountSuccessfulOrdersTwelveMonths"@), |j: Json, x: Decimal| j matches Json::Str(t) && t@ == decimal_text(x), w),
        }
        &&& forall|k: Seq<char>| #[trigger] member(doc, k) is Some ==> k == "successfulOrdersCountNineMonths"@ || k == "successfulOrdersCountOneMonth"@ || k == "successfulOrdersCountSixMonths"@ || k == "successfulOrdersCountThreeMonths"@ || k == "successfulOrdersCountTwelveMonths"@ || k == "totalAmountSuccessfulOrdersNineMonths"@ || k == "totalAmountSuccessfulOrdersOneMonth"@ || k == "totalAmountSuccessfulOrdersSixMonths"@ || k == "totalAmountSuccessfulOrdersThreeMonths"@ || k == "totalAmountSuccessfulOrdersTwelveMonths"@
    }

    /// The value as a JSON object with camelCase keys. An unset optional field
    /// is left out, not written as `null`; reading the object back gives the
    /// same value.
    #[verifier::rlimit(40)]
    pub fn to_json(&self) -> (r: Json)
        ensures
            PeriodCheckAggregates::writes_as(r, *self),
            PeriodCheckAggregates::read_from(r, *self),
    {
        let mut ms: Vec<(String, Json)> = Vec::new();
        proof {
            reveal_strlit("successfulOrdersCountNineMonths");
            reveal_strlit("successfulOrdersCountOneMonth");
            reveal_strlit("successfulOrdersCountSixMonths");
            reveal_strlit("successfulOrdersCountThreeMonths");
            reveal_strlit("successfulOrdersCountTwelveMonths");
            reveal_strlit("totalAmountSuccessfulOrdersNineMonths");
            reveal_strlit("totalAmountSuccessfulOrdersOneMonth");
            reveal_strlit("totalAmountSuccessfulOrdersSixMonths");
            reveal_strlit("totalAmountSuccessfulOrdersThreeMonths");
            reveal_strlit("totalAmountSuccessfulOrdersTwelveMonths");
            assert("successfulOrdersCountNineMonths"@.len() == 31);
            assert("successfulOrdersCountOneMonth"@.len() == 29);
            assert("successfulOrdersCountSixMonths"@.len() == 30);
            assert("successfulOrdersCountThreeMonths"@.len() == 32);
            assert("successfulOrdersCountTwelveMonths"@.len() == 33);
            assert("totalAmountSuccessfulOrdersNineMonths"@.len() == 37);
            assert("totalAmountSuccessfulOrdersOneMonth"@.len() == 35);
            assert("totalAmountSuccessfulOrdersSixMonths"@.len() == 36);
            assert("totalAmountSuccessfulOrdersThreeMonths"@.len() == 38);
            assert("totalAmountSuccessfulOrdersTwelveMonths"@.len() == 39);
        }
        push_optional(&mut ms, "successfulOrdersCountNineMonths", match &self.successful_orders_count_nine_months {
            Some(x) => Some(integer_json(*x as i64)),
            None => None,
        });
        push_optional(&mut ms, "successfulOrdersCountOneMonth", match &self.successful_orders_count_one_month {
            Some(x) => Some(integer_json(*x as i64)),
            None => None,
        });
        push_optional(&mut ms, "successfulOrdersCountSixMonths", match &self.successful_orders_count_six_months {
            Some(x) => Some(integer_json(*x as i64)),
            None => None,
        });
        push_optional(&mut ms, "successfulOrdersCountThreeMonths", match &self.successful_orders_count_three_months {
            Some(x) => Some(integer_json(*x as i64)),
            None => None,
        });
        push_optional(&mut ms, "successfulOrdersCountTwelveMonths", match &self.successful_orders_count_twelve_months {
            Some(x) => Some(integer_json(*x as i64)),
            None => None,
        });
        push_optional(&mut ms, "totalAmountSuccessfulOrdersNineMonths", match &self.total_amount_successful_orders_nine_months {
            Some(x) => Some(decimal_string_json(*x)),
            None => None,
        });
        push_optional(&mut ms, "totalAmountSuccessfulOrdersOneMonth", match &self.total_amount_successful_orders_one_month {
            Some(x) => Some(decimal_string_json(*x)),
            None => None,
        });
        push_optional(&mut ms, "totalAmountSuccessfulOrdersSixMonths", match &self.total_amount_successful_orders_six_months {
            Some(x) => Some(decimal_string_json(*x)),
            None => None,
        });
        push_optional(&mut ms, "totalAmountSuccessfulOrdersThreeMonths", match &self.total_amount_successful_orders_three_months {
            Some(x) => Some(decimal_string_json(*x)),
            None => None,
        });
        push_optional(&mut ms, "totalAmountSuccessfulOrdersTwelveMonths", match &self.total_amount_successful_orders_twelve_months {
            Some(x) => Some(decimal_string_json(*x)),
            None => None,
        });
        Json::Object(ms)
    }

    /// `v` is what the JSON object `doc` says, field by field.
    pub open spec fn read_from(doc: Json, v: PeriodCheckAggregates) -> bool {
        &&& doc is Object
        &&& opt_field_holds(member(doc, "successfulOrdersCountNineMonths"@), |j: Json, x: i32| i32_value(j) == Ok::<i32, DecodeError>(x), v.successful_orders_count_nine_months)
        &&& opt_field_holds(member(doc, "successfulOrdersCountOneMonth"@), |j: Json, x: i32| i32_value(j) == Ok::<i32, DecodeError>(x), v.successful_orders_count_one_month)
        &&& opt_field_holds(member(doc, "successfulOrdersCountSixMonths"@), |j: Json, x: i32| i32_value(j) == Ok::<i32, DecodeError>(x), v.successful_orders_count_six_months)
        &&& opt_field_holds(member(doc, "successfulOrdersCountThreeMonths"@), |j: Json, x: i32| i32_value(j) == Ok::<i32, DecodeError>(x), v.successful_orders_count_three_months)
        &&& opt_field_holds(member(doc, "successfulOrdersCountTwelveMonths"@), |j: Json, x: i32| i32_value(j) == Ok::<i32, DecodeError>(x), v.successful_orders_count_twelve_months)
        &&& opt_field_holds(member(doc, "totalAmountSuccessfulOrdersNineMonths"@), |j: Json, x: Decimal| decimal_string_value(j) == Ok::<Decimal, DecodeError>(x), v.total_amount_successful_orders_nine_months)
        &&& opt_field_holds(member(doc, "totalAmountSuccessfulOrdersOneMonth"@), |j: Json, x: Decimal| decimal_string_value(j) == Ok::<Decimal, DecodeError>(x), v.total_amount_successful_orders_one_month)
        &&& opt_field_holds(member(doc, "totalAmountSuccessfulOrdersSixMonths"@), |j: Json, x: Decimal| decimal_string_value(j) == Ok::<Decimal, DecodeError>(x), v.total_amount_successful_orders_six_months)
        &&& opt_field_holds(member(doc, "totalAmountSuccessfulOrdersThreeMonths"@), |j: Json, x: Decimal| decimal_string_value(j) == Ok::<Decimal, DecodeError>(x), v.total_amount_successful_orders_three_months)
        &&& opt_field_holds(member(doc, "totalAmountSuccessfulOrdersTwelveMonths"@), |j: Json, x: Decimal| decimal_string_value(j) == Ok::<Decimal, DecodeError>(x), v.total_amount_successful_orders_twelve_months)
    }

    /// Whether every field of `doc` can be read: required fields are present,
    /// and every field that is there holds a value of its kind.
    pub open spec fn readable(doc: Json) -> bool {
        &&& doc is Object
        &&& match member(doc, "successfulOrdersCountNineMonths"@) {
            Some(j) => j == Json::Null || i32_value(j) is Ok,
            None => true,
        }
        &&& match member(doc, "successfulOrdersCountOneMonth"@) {
            Some(j) => j == Json::Null || i32_value(j) is Ok,
            None => true,
        }
        &&& match member(doc, "successfulOrdersCountSixMonths"@) {
            Some(j) => j == Json::Null || i32_value(j) is Ok,
            None => true,
        }
        &&& match member(doc, "successfulOrdersCountThreeMonths"@) {
            Some(j) => j == Json::Null || i32_value(j) is Ok,
            None => true,
        }
        &&& match member(doc, "successfulOrdersCountTwelveMonths"@) {
            Some(j) => j == Json::Null || i32_value(j) is Ok,
            None => true,
        }
        &&& match member(doc, "totalAmountSuccessfulOrdersNineMonths"@) {
            Some(j) => j == Json::Null || decimal_string_value(j) is Ok,
            None => true,
        }
        &&& match member(doc, "totalAmountSuccessfulOrdersOneMonth"@) {
            Some(j) => j == Json::Null || decimal_string_value(j) is Ok,
            None => true,
        }
        &&& match member(doc, "totalAmountSuccessfulOrdersSixMonths"@) {
            Some(j) => j == Json::Null || decimal_string_value(j) is Ok,
            None => true,
        }
        &&& match member(doc, "totalAmountSuccessfulOrdersThreeMonths"@) {
            Some(j) => j == Json::Null || decimal_string_value(j) is Ok,
            None => true,
        }
        &&& match member(doc, "totalAmountSuccessfulOrdersTwelveMonths"@) {
            Some(j) => j == Json::Null || decimal_string_value(j) is Ok,
            None => true,
        }
    }

    /// Reads the value from a JSON object with camelCase keys. A missing or
    /// `null` optional field is unset; members it does not know are ignored.
    #[verifier::rlimit(40)]
    pub fn from_json(doc: &Json) -> (r: Result<PeriodCheckAggregates, DecodeError>)
        ensures
            !(*doc is Object) ==> r == Err::<PeriodCheckAggregates, DecodeError>(DecodeError::MalformedResponse),
            r matches Ok(v) ==> PeriodCheckAggregates::read_from(*doc, v),
            r is Ok <==> PeriodCheckAggregates::readable(*doc),
    {
        if !is_object(doc) {
            return Err(DecodeError::MalformedResponse);
        }
        let successful_orders_count_nine_months = match get_member(doc, "successfulOrdersCountNineMonths") {
            None => None,
            Some(Json::Null) => None,
            Some(j) => match read_i32(j) {
                Ok(v) => Some(v),
                Err(e) => return Err(e),
            },
        };
        let successful_orders_count_one_month = match get_member(doc, "successfulOrdersCountOneMonth") {
            None => None,
            Some(Json::Null) => None,
            Some(j) => match read_i32(j) {
                Ok(v) => Some(v),
                Err(e) => return Err(e),
            },
        };
        let successful_orders_count_six_months = match get_member(doc, "successfulOrdersCountSixMonths") {
            None => None,
            Some(Json::Null) => None,
            Some(j) => match read_i32(j) {
                Ok(v) => Some(v),
                Err(e) => return Err(e),
            },
        };
        let successful_orders_count_three_months = match get_member(doc, "successfulOrdersCountThreeMonths") {
            None => None,
            Some(Json::Null) => None,
            Some(j) => match read_i32(j) {
                Ok(v) => Some(v),
                Err(e) => return Err(e),
            },
        };
        let successful_orders_count_twelve_months = match get_member(doc, "successfulOrdersCountTwelveMonths") {
            None => None,
            Some(Json::Null) => None,
            Some(j) => match read_i32(j) {
                Ok(v) => Some(v),
                Err(e) => return Err(e),
            },
        };
        let total_amount_successful_orders_nine_months = match get_member(doc, "totalAmountSuccessfulOrdersNineMonths") {
            None => None,
            Some(Json::Null) => None,
            Some(j) => match read_decimal_string(j) {
                Ok(v) => Some(v),
                Err(e) => return Err(e),
            },
        };
        let total_amount_successful_orders_one_month = match get_member(doc, "totalAmountSuccessfulOrdersOneMonth") {
            None => None,
            Some(Json::Null) => None,
            Some(j) => match read_decimal_string(j) {
                Ok(v) => Some(v),
                Err(e) => return Err(e),
            },
        };
        let total_amount_successful_orders_six_months = match get_member(doc, "totalAmountSuccessfulOrdersSixMonths") {
            None => None,
            Some(Json::Null) => None,
            Some(j) => match read_decimal_string(j) {
                Ok(v) => Some(v),
                Err(e) => return Err(e),
            },
        };
        let total_amount_successful_orders_three_months = match get_member(doc, "totalAmountSuccessfulOrdersThreeMonths") {
            None => None,
            Some(Json::Null) => None,
            Some(j) => match read_decimal_string(j) {
                Ok(v) => Some(v),
                Err(e) => return Err(e),
            },
        };
        let total_amount_successful_orders_twelve_months = match get_member(doc, "totalAmountSuccessfulOrdersTwelveMonths") {
            None => None,
            Some(Json::Null) => None,
            Some(j) => match read_decimal_string(j) {
                Ok(v) => Some(v),
                Err(e) => return Err(e),
            },
        };
        Ok(PeriodCheckAggregates {
            successful_orders_count_nine_months,
            successful_orders_count_one_month,
            successful_orders_count_six_months,
            successful_orders_count_three_months,
            successful_orders_count_twelve_months,
            total_amount_successful_orders_nine_months,
            total_amount_successful_orders_one_month,
            total_amount_successful_orders_six_months,
            total_amount_successful_orders_three_months,
            total_amount_successful_orders_twelve_months,
        })
    }
}

/// How many units of an item are ordered, and how many are available.
#[derive(Clone, Debug, PartialEq)]
pub struct ItemQuantity {
    pub count: Decimal,
    pub available: Decimal,
}

impl ItemQuantity {
    /// A value with the given fields and every other field at its default:
    /// the optional fields unset.
    pub fn new(count: Decimal, available: Decimal) -> (r: ItemQuantity)
        ensures
            r.count == count,
            r.available == available,
    {
        ItemQuantity {
            count,
            available,
        }
    }

    /// `doc` is what [`Self::to_json`] writes for `v`: each field under its
    /// camelCase key, amounts as strings, nested values as they write
    /// themselves, no member at all for an unset optional field or an empty
    /// list that is left out, and no member under any other key.
    pub open spec fn writes_as(doc: Json, v: ItemQuantity) -> bool {
        &&& doc is Object
        &&& field_holds(member(doc, "count"@), |j: Json, x: Decimal| j matches Json::Str(t) && t@ == decimal_text(x), v.count)
        &&& field_holds(member(doc, "available"@), |j: Json, x: Decimal| j matches Json::Str(t) && t@ == decimal_text(x), v.available)
        &&& forall|k: Seq<char>| #[trigger] member(doc, k) is Some ==> k == "count"@ || k == "available"@
    }

    /// The value as a JSON object with camelCase keys. An unset optional field
    /// is left out, not written as `null`; reading the object back gives the
    /// same value.
    pub fn to_json(&self) -> (r: Json)
        ensures
            ItemQuantity::writes_as(r, *self),
            ItemQuantity::read_from(r, *self),
    {
        let mut ms: Vec<(String, Json)> = Vec::new();
        proof {
            reveal_strlit("count");
            reveal_strlit("available");
            assert("count"@.len() == 5);
            assert("available"@.len() == 9);
        }
        push_field(&mut ms, "count", decimal_string_json(*&self.count));
        push_field(&mut ms, "available", decimal_string_json(*&self.available));
        Json::Object(ms)
    }

    /// `v` is what the JSON object `doc` says, field by field.
    pub open spec fn read_from(doc: Json, v: ItemQuantity) -> bool {
        &&& doc is Object
        &&& field_holds(member(doc, "count"@), |j: Json, x: Decimal| decimal_string_value(j) == Ok::<Decimal, DecodeError>(x), v.count)
        &&& field_holds(member(doc, "available"@), |j: Json, x: Decimal| decimal_string_value(j) == Ok::<Decimal, DecodeError>(x), v.available)
    }

    /// Whether every field of `doc` can be read: required fields are present,
    /// and every field that is there holds a value of its kind.
    pub open spec fn readable(doc: Json) -> bool {
        &&& doc is Object
        &&& match member(doc, "count"@) {
            Some(j) => decimal_string_value(j) is Ok,
            None => false,
        }
        &&& match member(doc, "available"@) {
            Some(j) => decimal_string_value(j) is Ok,
            None => false,
        }
    }

    /// Reads the value from a JSON object with camelCase keys. A missing or
    /// `null` optional field is unset; members it does not know are ignored.
    pub fn from_json(doc: &Json) -> (r: Result<ItemQuantity, DecodeError>)
        ensures
            !(*doc is Object) ==> r == Err::<ItemQuantity, DecodeError>(DecodeError::MalformedResponse),
            r matches Ok(v) ==> ItemQuantity::read_from(*doc, v),
            r is Ok <==> ItemQuantity::readable(*doc),
    {
        if !is_object(doc) {
            return Err(DecodeError::MalformedResponse);
        }
        let count = match get_member(doc, "count") {
            Some(j) => match read_decimal_string(j) {
                Ok(v) => v,
                Err(e) => return Err(e),
            },
            None => return Err(DecodeError::MalformedResponse),
        };
        let available = match get_member(doc, "available") {
            Some(j) => match read_decimal_string(j) {
                Ok(v) => v,
                Err(e) => return Err(e),
            },
            None => return Err(DecodeError::MalformedResponse),
        };
        Ok(ItemQuantity {
            count,
            available,
        })
    }
}

/// Options of a cart item.
#[derive(Clone, Debug, PartialEq)]
pub struct CartItemFeatures {
    pub points_disabled: Option<bool>,
}

impl CartItemFeatures {
    /// A value with the given fields and every other field at its default:
    /// `points_disabled` is `Some(false)`, and the optional fields unset.
    pub fn new() -> (r: CartItemFeatures)
        ensures
            r.points_disabled == Some(false),
    {
        CartItemFeatures {
            points_disabled: Some(false),
        }
    }

    /// `doc` is what [`Self::to_json`] writes for `v`: each field under its
    /// camelCase key, amounts as strings, nested values as they write
    /// themselves, no member at all for an unset optional field or an empty
    /// list that is left out, and no member under any other key.
    pub open spec fn writes_as(doc: Json, v: CartItemFeatures) -> bool {
        &&& doc is Object
        &&& match v.points_disabled {
            None => member(doc, "pointsDisabled"@) is None,
            Some(w) => field_holds(member(doc, "pointsDisabled"@), |j: Json, x: bool| bool_value(j) == Ok::<bool, DecodeError>(x), w),
        }
        &&& forall|k: Seq<char>| #[trigger] member(doc, k) is Some ==> k == "pointsDisabled"@
    }

    /// The value as a JSON object with camelCase keys. An unset optional field
    /// is left out, not written as `null`; reading the object back gives the
    /// same value.
    pub fn to_json(&self) -> (r: Json)
        ensures
            CartItemFeatures::writes_as(r, *self),
            CartItemFeatures::read_from(r, *self),
    {
        let mut ms: Vec<(String, Json)> = Vec::new();
        proof {
            reveal_strlit("pointsDisabled");
            assert("pointsDisabled"@.len() == 14);
        }
        push_optional(&mut ms, "pointsDisabled", match &self.points_disabled {
            Some(x) => Some(Json::Bool(*x)),
            None => None,
        });
        Json::Object(ms)
    }

    /// `v` is what the JSON object `doc` says, field by field.
    pub open spec fn read_from(doc: Json, v: CartItemFeatures) -> bool {
        &&& doc is Object
        &&& opt_field_holds(member(doc, "pointsDisabled"@), |j: Json, x: bool| bool_value(j) == Ok::<bool, DecodeError>(x), v.points_disabled)
    }

    /// Whether every field of `doc` can be read: required fields are present,
    /// and every field that is there holds a value of its kind.
    pub open spec fn readable(doc: Json) -> bool {
        &&& doc is Object
        &&& match member(doc, "pointsDisabled"@) {
            Some(j) => j == Json::Null || bool_value(j) is Ok,
            None => true,
        }
    }

    /// Reads the value from a JSON object with camelCase keys. A missing or
    /// `null` optional field is unset; members it does not know are ignored.
    pub fn from_json(doc: &Json) -> (r: Result<CartItemFeatures, DecodeError>)
        ensures
            !(*doc is Object) ==> r == Err::<CartItemFeatures, DecodeError>(DecodeError::MalformedResponse),
            r matches Ok(v) ==> CartItemFeatures::read_from(*doc, v),
            r is Ok <==> CartItemFeatures::readable(*doc),
    {
        if !is_object(doc) {
            return Err(DecodeError::MalformedResponse);
        }
        let points_disabled = match get_member(doc, "pointsDisabled") {
            None => None,
            Some(Json::Null) => None,
            Some(j) => match read_bool(j) {
                Ok(v) => Some(v),
                Err(e) => return Err(e),
            },
        };
        Ok(CartItemFeatures {
            points_disabled,
        })
    }
}

/// What the fiscal receipt says of an item.
#[derive(Clone, Debug, PartialEq)]
pub struct ItemReceipt {
    pub tax: Tax,
    pub agent: Option<Agent>,
    pub excise: Option<Decimal>,
    pub mark_quantity: Option<MarkQuantity>,
    pub measure: Option<Measure>,
    pub payment_method_type: Option<PaymentMethodType>,
    pub payment_subject_type: Option<PaymentSubjectType>,
    pub product_code: Option<String>,
    pub supplier: Option<Supplier>,
    pub title: Option<String>,
}

impl ItemReceipt {
    /// A value with the given fields and every other field at its default:
    /// the optional fields unset.
    pub fn new(tax: Tax) -> (r: ItemReceipt)
        ensures
            r.tax == tax,
            r.agent is None,
            r.excise is None,
            r.mark_quantity is None,
            r.measure is None,
            r.payment_method_type is None,
            r.payment_subject_type is None,
            r.product_code is None,
            r.supplier is None,
            r.title is None,
    {
        ItemReceipt {
            tax,
            agent: None,
            excise: None,
            mark_quantity: None,
            measure: None,
            payment_method_type: None,
            payment_subject_type: None,
            product_code: None,
            supplier: None,
            title: None,
        }
    }

    /// `doc` is what [`Self::to_json`] writes for `v`: each field under its
    /// camelCase key, amounts as strings, nested values as they write
    /// themselves, no member at all for an unset optional field or an empty
    /// list that is left out, and no member under any other key.
    pub open spec fn writes_as(doc: Json, v: ItemReceipt) -> bool {
        &&& doc is Object
        &&& field_holds(member(doc, "tax"@), |j: Json, x: Tax| Tax::writes_as(j, x), v.tax)
        &&& match v.agent {
            None => member(doc, "agent"@) is None,
            Some(w) => field_holds(member(doc, "agent"@), |j: Json, x: Agent| Agent::writes_as(j, x), w),
        }
        &&& match v.excise {
            None => member(doc, "excise"@) is None,
            Some(w) => field_holds(member(doc, "excise"@), |j: Json, x: Decimal| j matches Json::Str(t) && t@ == decimal_text(x), w),
        }
        &&& match v.mark_quantity {
            None => member(doc, "markQuantity"@) is None,
            Some(w) => field_holds(member(doc, "markQuantity"@), |j: Json, x: MarkQuantity| MarkQuantity::writes_as(j, x), w),
        }
        &&& match v.measure {
            None => member(doc, "measure"@) is None,
            Some(w) => field_holds(member(doc, "measure"@), |j: Json, x: Measure| Measure::writes_as(j, x), w),
        }
        &&& match v.payment_method_type {
            None => member(doc, "paymentMethodType"@) is None,
            Some(w) => field_holds(member(doc, "paymentMethodType"@), |j: Json, x: PaymentMethodType| PaymentMethodType::writes_as(j, x), w),
        }
        &&& match v.payment_subject_type {
            None => member(doc, "paymentSubjectType"@) is None,
            Some(w) => field_holds(member(doc, "paymentSubjectType"@), |j: Json, x: PaymentSubjectType| PaymentSubjectType::writes_as(j, x), w),
        }
        &&& match v.product_code {
            None => member(doc, "productCode"@) is None,
            Some(w) => field_holds(member(doc, "productCode"@), |j: Json, x: String| string_value(j) == Ok::<String, DecodeError>(x), w),
        }
        &&& match v.supplier {
            None => member(doc, "supplier"@) is None,
            Some(w) => field_holds(member(doc, "supplier"@), |j: Json, x: Supplier| Supplier::writes_as(j, x), w),
        }
        &&& match v.title {
            None => member(doc, "title"@) is None,
            Some(w) => field_holds(member(doc, "title"@), |j: Json, x: String| string_value(j) == Ok::<String, DecodeError>(x), w),
        }
        &&& forall|k: Seq<char>| #[trigger] member(doc, k) is Some ==> k == "tax"@ || k == "agent"@ || k == "excise"@ || k == "markQuantity"@ || k == "measure"@ || k == "paymentMethodType"@ || k == "paymentSubjectType"@ || k == "productCode"@ || k == "supplier"@ || k == "title"@
    }

    /// The value as a JSON object with camelCase keys. An unset optional field
    /// is left out, not written as `null`; reading the object back gives the
    /// same value.
    #[verifier::rlimit(40)]
    pub fn to_json(&self) -> (r: Json)
        ensures
            ItemReceipt::writes_as(r, *self),
            ItemReceipt::read_from(r, *self),
    {
        let mut ms: Vec<(String, Json)> = Vec::new();
        proof {
            reveal_strlit("tax");
            reveal_strlit("agent");
            reveal_strlit("excise");
            reveal_strlit("markQuantity");
            reveal_strlit("measure");
            reveal_strlit("paymentMethodType");
            reveal_strlit("paymentSubjectType");
            reveal_strlit("productCode");
            reveal_strlit("supplier");
            reveal_strlit("title");
            assert("tax"@.len() == 3);
            assert("agent"@.len() == 5);
            assert("excise"@.len() == 6);
            assert("markQuantity"@.len() == 12);
            assert("measure"@.len() == 7);
            assert("paymentMethodType"@.len() == 17);
            assert("paymentSubjectType"@.len() == 18);
            assert("productCode"@.len() == 11);
            assert("supplier"@.len() == 8);
            assert("title"@.len() == 5);
            assert("agent"@[0] == 'a');
            assert("title"@[0] == 't');
        }
        push_field(&mut ms, "tax", self.tax.to_json());
        push_optional(&mut ms, "agent", match &self.agent {
            Some(x) => Some(x.to_json()),
            None => None,
        });
        push_optional(&mut ms, "excise", match &self.excise {
            Some(x) => Some(decimal_string_json(*x)),
            None => None,
        });
        push_optional(&mut ms, "markQuantity", match &self.mark_quantity {
            Some(x) => Some(x.to_json()),
            None => None,
        });
        push_optional(&mut ms, "measure", match &self.measure {
            Some(x) => Some(x.to_json()),
            None => None,
        });
        push_optional(&mut ms, "paymentMethodType", match &self.payment_method_type {
            Some(x) => Some(x.to_json()),
            None => None,
        });
        push_optional(&mut ms, "paymentSubjectType", match &self.payment_subject_type {
            Some(x) => Some(x.to_json()),
            None => None,
        });
        push_optional(&mut ms, "productCode", match &self.product_code {
            Some(x) => Some(string_json(x)),
            None => None,
        });
        push_optional(&mut ms, "supplier", match &self.supplier {
            Some(x) => Some(x.to_json()),
            None => None,
        });
        push_optional(&mut ms, "title", match &self.title {
            Some(x) => Some(string_json(x)),
            None => None,
        });
        Json::Object(ms)
    }

    /// `v` is what the JSON object `doc` says, field by field.
    pub open spec fn read_from(doc: Json, v: ItemReceipt) -> bool {
        &&& doc is Object
        &&& field_holds(member(doc, "tax"@), |j: Json, x: Tax| Tax::read_from(j, x), v.tax)
        &&& opt_field_holds(member(doc, "agent"@), |j: Json, x: Agent| Agent::read_from(j, x), v.agent)
        &&& opt_field_holds(member(doc, "excise"@), |j: Json, x: Decimal| decimal_string_value(j) == Ok::<Decimal, DecodeError>(x), v.excise)
        &&& opt_field_holds(member(doc, "markQuantity"@), |j: Json, x: MarkQuantity| MarkQuantity::read_from(j, x), v.mark_quantity)
        &&& opt_field_holds(member(doc, "measure"@), |j: Json, x: Measure| Measure::read_from(j, x), v.measure)
        &&& opt_field_holds(member(doc, "paymentMethodType"@), |j: Json, x: PaymentMethodType| PaymentMethodType::read_from(j, x), v.payment_method_type)
        &&& opt_field_holds(member(doc, "paymentSubjectType"@), |j: Json, x: PaymentSubjectType| PaymentSubjectType::read_from(j, x), v.payment_subject_type)
        &&& opt_field_holds(member(doc, "productCode"@), |j: Json, x: String| string_value(j) == Ok::<String, DecodeError>(x), v.product_code)
        &&& opt_field_holds(member(doc, "supplier"@), |j: Json, x: Supplier| Supplier::read_from(j, x), v.supplier)
        &&& opt_field_holds(member(doc, "title"@), |j: Json, x: String| string_value(j) == Ok::<String, DecodeError>(x), v.title)
    }

    /// Whether every field of `doc` can be read: required fields are present,
    /// and every field that is there holds a value of its kind.
    pub open spec fn readable(doc: Json) -> bool {
        &&& doc is Object
        &&& match member(doc, "tax"@) {
            Some(j) => Tax::readable(j),
            None => false,
        }
        &&& match member(doc, "agent"@) {
            Some(j) => j == Json::Null || Agent::readable(j),
            None => true,
        }
        &&& match member(doc, "excise"@) {
            Some(j) => j == Json::Null || decimal_string_value(j) is Ok,
            None => true,
        }
        &&& match member(doc, "markQuantity"@) {
            Some(j) => j == Json::Null || MarkQuantity::readable(j),
            None => true,
        }
        &&& match member(doc, "measure"@) {
            Some(j) => j == Json::Null || Measure::readable(j),
            None => true,
        }
        &&& match member(doc, "paymentMethodType"@) {
            Some(j) => j == Json::Null || PaymentMethodType::readable(j),
            None => true,
        }
        &&& match member(doc, "paymentSubjectType"@) {
            Some(j) => j == Json::Null || PaymentSubjectType::readable(j),
            None => true,
        }
        &&& match member(doc, "productCode"@) {
            Some(j) => j == Json::Null || string_value(j) is Ok,
            None => true,
        }
        &&& match member(doc, "supplier"@) {
            Some(j) => j == Json::Null || Supplier::readable(j),
            None => true,
        }
        &&& match member(doc, "title"@) {
            Some(j) => j == Json::Null || string_value(j) is Ok,
            None => true,
        }
    }

    /// Reads the value from a JSON object with camelCase keys. A missing or
    /// `null` optional field is unset; members it does not know are ignored.
    #[verifier::rlimit(40)]
    pub fn from_json(doc: &Json) -> (r: Result<ItemReceipt, DecodeError>)
        ensures
            !(*doc is Object) ==> r == Err::<ItemReceipt, DecodeError>(DecodeError::MalformedResponse),
            r matches Ok(v) ==> ItemReceipt::read_from(*doc, v),
            r is Ok <==> ItemReceipt::readable(*doc),
    {
        if !is_object(doc) {
            return Err(DecodeError::MalformedResponse);
        }
        let tax = match get_member(doc, "tax") {
            Some(j) => match Tax::from_json(j) {
                Ok(v) => v,
                Err(e) => return Err(e),
            },
            None => return Err(DecodeError::MalformedResponse),
        };
        let agent = match get_member(doc, "agent") {
            None => None,
            Some(Json::Null) => None,
            Some(j) => match Agent::from_json(j) {
                Ok(v) => Some(v),
                Err(e) => return Err(e),
            },
        };
        let excise = match get_member(doc, "excise") {
            None => None,
            Some(Json::Null) => None,
            Some(j) => match read_decimal_string(j) {
                Ok(v) => Some(v),
                Err(e) => return Err(e),
            },
        };
        let mark_quantity = match get_member(doc, "markQuantity") {
            None => None,
            Some(Json::Null) => None,
            Some(j) => match MarkQuantity::from_json(j) {
                Ok(v) => Some(v),
                Err(e) => return Err(e),
            },
        };
        let measure = match get_member(doc, "measure") {
            None => None,
            Some(Json::Null) => None,
            Some(j) => match Measure::from_json(j) {
                Ok(v) => Some(v),
                Err(e) => return Err(e),
            },
        };
        let payment_method_type = match get_member(doc, "paymentMethodType") {
            None => None,
            Some(Json::Null) => None,
            Some(j) => match PaymentMethodType::from_json(j) {
                Ok(v) => Some(v),
                Err(e) => return Err(e),
            },
        };
        let payment_subject_type = match get_member(doc, "paymentSubjectType") {
            None => None,
            Some(Json::Null) => None,
            Some(j) => match PaymentSubjectType::from_json(j) {
                Ok(v) => Some(v),
                Err(e) => return Err(e),
            },
        };
        let product_code = match get_member(doc, "productCode") {
            None => None,
            Some(Json::Null) => None,
            Some(j) => match read_string(j) {
                Ok(v) => Some(v),
                Err(e) => return Err(e),
            },
        };
        let supplier = match get_member(doc, "supplier") {
            None => None,
            Some(Json::Null) => None,
            Some(j) => match Supplier::from_json(j) {
                Ok(v) => Some(v),
                Err(e) => return Err(e),
            },
        };
        let title = match get_member(doc, "title") {
            None => None,
            Some(Json::Null) => None,
            Some(j) => match read_string(j) {
                Ok(v) => Some(v),
                Err(e) => return Err(e),
            },
        };
        Ok(ItemReceipt {
            tax,
            agent,
            excise,
            mark_quantity,
            measure,
            payment_method_type,
            payment_subject_type,
            product_code,
            supplier,
            title,
        })
    }
}

/// The agent that sells an item on someone else's behalf.
#[derive(Clone, Debug, PartialEq)]
pub struct Agent {
    pub agent_type: AgentType,
    pub operation: Option<String>,
    pub payments_operator: Option<PaymentsOperator>,
    pub phones: Vec<String>,
    pub transfer_operator: Option<TransferOperator>,
}

impl Agent {
    /// A value with the given fields and every other field at its default:
    /// the optional fields unset.
    pub fn new(agent_type: AgentType, phones: Vec<String>) -> (r: Agent)
        ensures
            r.agent_type == agent_type,
            r.phones == phones,
            r.operation is None,
            r.payments_operator is None,
            r.transfer_operator is None,
    {
        Agent {
            agent_type,
            operation: None,
            payments_operator: None,
            phones,
            transfer_operator: None,
        }
    }

    /// `doc` is what [`Self::to_json`] writes for `v`: each field under its
    /// camelCase key, amounts as strings, nested values as they write
    /// themselves, no member at all for an unset optional field or an empty
    /// list that is left out, and no member under any other key.
    pub open spec fn writes_as(doc: Json, v: Agent) -> bool {
        &&& doc is Object
        &&& field_holds(member(doc, "agentType"@), |j: Json, x: AgentType| AgentType::writes_as(j, x), v.agent_type)
        &&& match v.operation {
            None => member(doc, "operation"@) is None,
            Some(w) => field_holds(member(doc, "operation"@), |j: Json, x: String| string_value(j) == Ok::<String, DecodeError>(x), w),
        }
        &&& match v.payments_operator {
            None => member(doc, "paymentsOperator"@) is None,
            Some(w) => field_holds(member(doc, "paymentsOperator"@), |j: Json, x: PaymentsOperator| PaymentsOperator::writes_as(j, x), w),
        }
        &&& if v.phones@.len() == 0 {
            member(doc, "phones"@) is None
        } else {
            list_holds(member(doc, "phones"@), |j: Json, x: String| string_value(j) == Ok::<String, DecodeError>(x), v.phones@)
        }
        &&& match v.transfer_operator {
            None => member(doc, "transferOperator"@) is None,
            Some(w) => field_holds(member(doc, "transferOperator"@), |j: Json, x: TransferOperator| TransferOperator::writes_as(j, x), w),
        }
        &&& forall|k: Seq<char>| #[trigger] member(doc, k) is Some ==> k == "agentType"@ || k == "operation"@ || k == "paymentsOperator"@ || k == "phones"@ || k == "transferOperator"@
    }

    /// The value as a JSON object with camelCase keys. An unset optional field
    /// is left out, not written as `null`; reading the object back gives the
    /// same value.
    pub fn to_json(&self) -> (r: Json)
        ensures
            Agent::writes_as(r, *self),
            Agent::read_from(r, *self),
    {
        let mut ms: Vec<(String, Json)> = Vec::new();
        proof {
            reveal_strlit("agentType");
            reveal_strlit("operation");
            reveal_strlit("paymentsOperator");
            reveal_strlit("phones");
            reveal_strlit("transferOperator");
            assert("agentType"@.len() == 9);
            assert("operation"@.len() == 9);
            assert("paymentsOperator"@.len() == 16);
            assert("phones"@.len() == 6);
            assert("transferOperator"@.len() == 16);
            assert("agentType"@[0] == 'a');
            assert("operation"@[0] == 'o');
            assert("paymentsOperator"@[0] == 'p');
            assert("transferOperator"@[0] == 't');
        }
        push_field(&mut ms, "agentType", self.agent_type.to_json());
        push_optional(&mut ms, "operation", match &self.operation {
            Some(x) => Some(string_json(x)),
            None => None,
        });
        push_optional(&mut ms, "paymentsOperator", match &self.payments_operator {
            Some(x) => Some(x.to_json()),
            None => None,
        });
        if self.phones.len() > 0 {
            push_field(&mut ms, "phones", strings_json(&self.phones));
        }
        push_optional(&mut ms, "transferOperator", match &self.transfer_operator {
            Some(x) => Some(x.to_json()),
            None => None,
        });
        Json::Object(ms)
    }

    /// `v` is what the JSON object `doc` says, field by field.
    pub open spec fn read_from(doc: Json, v: Agent) -> bool {
        &&& doc is Object
        &&& field_holds(member(doc, "agentType"@), |j: Json, x: AgentType| AgentType::read_from(j, x), v.agent_type)
        &&& opt_field_holds(member(doc, "operation"@), |j: Json, x: String| string_value(j) == Ok::<String, DecodeError>(x), v.operation)
        &&& opt_field_holds(member(doc, "paymentsOperator"@), |j: Json, x: PaymentsOperator| PaymentsOperator::read_from(j, x), v.payments_operator)
        &&& list_or_empty_holds(member(doc, "phones"@), |j: Json, x: String| string_value(j) == Ok::<String, DecodeError>(x), v.phones@)
        &&& opt_field_holds(member(doc, "transferOperator"@), |j: Json, x: TransferOperator| TransferOperator::read_from(j, x), v.transfer_operator)
    }

    /// Whether every field of `doc` can be read: required fields are present,
    /// and every field that is there holds a value of its kind.
    pub open spec fn readable(doc: Json) -> bool {
        &&& doc is Object
        &&& match member(doc, "agentType"@) {
            Some(j) => AgentType::readable(j),
            None => false,
        }
        &&& match member(doc, "operation"@) {
            Some(j) => j == Json::Null || string_value(j) is Ok,
            None => true,
        }
        &&& match member(doc, "paymentsOperator"@) {
            Some(j) => j == Json::Null || PaymentsOperator::readable(j),
            None => true,
        }
        &&& match member(doc, "phones"@) {
            Some(j) => strings_readable(j),
            None => true,
        }
        &&& match member(doc, "transferOperator"@) {
            Some(j) => j == Json::Null || TransferOperator::readable(j),
            None => true,
        }
    }

    /// Reads the value from a JSON object with camelCase keys. A missing or
    /// `null` optional field is unset; members it does not know are ignored.
    pub fn from_json(doc: &Json) -> (r: Result<Agent, DecodeError>)
        ensures
            !(*doc is Object) ==> r == Err::<Agent, DecodeError>(DecodeError::MalformedResponse),
            r matches Ok(v) ==> Agent::read_from(*doc, v),
            r is Ok <==> Agent::readable(*doc),
    {
        if !is_object(doc) {
            return Err(DecodeError::MalformedResponse);
        }
        let agent_type = match get_member(doc, "agentType") {
            Some(j) => match AgentType::from_json(j) {
                Ok(v) => v,
                Err(e) => return Err(e),
            },
            None => return Err(DecodeError::MalformedResponse),
        };
        let operation = match get_member(doc, "operation") {
            None => None,
            Some(Json::Null) => None,
            Some(j) => match read_string(j) {
                Ok(v) => Some(v),
                Err(e) => return Err(e),
            },
        };
        let payments_operator = match get_member(doc, "paymentsOperator") {
            None => None,
            Some(Json::Null) => None,
            Some(j) => match PaymentsOperator::from_json(j) {
                Ok(v) => Some(v),
                Err(e) => return Err(e),
            },
        };
        let phones = match get_member(doc, "phones") {
            Some(j) => match read_strings(j) {
                Ok(v) => v,
                Err(e) => return Err(e),
            },
            None => Vec::new(),
        };
        let transfer_operator = match get_member(doc, "transferOperator") {
            None => None,
            Some(Json::Null) => None,
            Some(j) => match TransferOperator::from_json(j) {
                Ok(v) => Some(v),
                Err(e) => return Err(e),
            },
        };
        Ok(Agent {
            agent_type,
            operation,
            payments_operator,
            phones,
            transfer_operator,
        })
    }
}

/// The fraction of a marked item that is sold.
#[derive(Clone, Debug, PartialEq)]
pub struct MarkQuantity {
    pub denominator: i32,
    pub numerator: i32,
}

impl MarkQuantity {
    /// A value with the given fields and every other field at its default:
    /// the optional fields unset.
    pub fn new(denominator: i32, numerator: i32) -> (r: MarkQuantity)
        ensures
            r.denominator == denominator,
            r.numerator == numerator,
    {
        MarkQuantity {
            denominator,
            numerator,
        }
    }

    /// `doc` is what [`Self::to_json`] writes for `v`: each field under its
    /// camelCase key, amounts as strings, nested values as they write
    /// themselves, no member at all for an unset optional field or an empty
    /// list that is left out, and no member under any other key.
    pub open spec fn writes_as(doc: Json, v: MarkQuantity) -> bool {
        &&& doc is Object
        &&& field_holds(member(doc, "denominator"@), |j: Json, x: i32| j matches Json::Number(t) && t@ == decimal_text(Decimal { mantissa: x as i64, scale: 0 }), v.denominator)
        &&& field_holds(member(doc, "numerator"@), |j: Json, x: i32| j matches Json::Number(t) && t@ == decimal_text(Decimal { mantissa: x as i64, scale: 0 }), v.numerator)
        &&& forall|k: Seq<char>| #[trigger] member(doc, k) is Some ==> k == "denominator"@ || k == "numerator"@
    }

    /// The value as a JSON object with camelCase keys. An unset optional field
    /// is left out, not written as `null`; reading the object back gives the
    /// same value.
    pub fn to_json(&self) -> (r: Json)
        ensures
            MarkQuantity::writes_as(r, *self),
            MarkQuantity::read_from(r, *self),
    {
        let mut ms: Vec<(String, Json)> = Vec::new();
        proof {
            reveal_strlit("denominator");
            reveal_strlit("numerator");
            assert("denominator"@.len() == 11);
            assert("numerator"@.len() == 9);
        }
        push_field(&mut ms, "denominator", integer_json(*&self.denominator as i64));
        push_field(&mut ms, "numerator", integer_json(*&self.numerator as i64));
        Json::Object(ms)
    }

    /// `v` is what the JSON object `doc` says, field by field.
    pub open spec fn read_from(doc: Json, v: MarkQuantity) -> bool {
        &&& doc is Object
        &&& field_holds(member(doc, "denominator"@), |j: Json, x: i32| i32_value(j) == Ok::<i32, DecodeError>(x), v.denominator)
        &&& field_holds(member(doc, "numerator"@), |j: Json, x: i32| i32_value(j) == Ok::<i32, DecodeError>(x), v.numerator)
    }

    /// Whether every field of `doc` can be read: required fields are present,
    /// and every field that is there holds a value of its kind.
    pub open spec fn readable(doc: Json) -> bool {
        &&& doc is Object
        &&& match member(doc, "denominator"@) {
            Some(j) => i32_value(j) is Ok,
            None => false,
        }
        &&& match member(doc, "numerator"@) {
            Some(j) => i32_value(j) is Ok,
            None => false,
        }
    }

    /// Reads the value from a JSON object with camelCase keys. A missing or
    /// `null` optional field is unset; members it does not know are ignored.
    pub fn from_json(doc: &Json) -> (r: Result<MarkQuantity, DecodeError>)
        ensures
            !(*doc is Object) ==> r == Err::<MarkQuantity, DecodeError>(DecodeError::MalformedResponse),
            r matches Ok(v) ==> MarkQuantity::read_from(*doc, v),
            r is Ok <==> MarkQuantity::readable(*doc),
    {
        if !is_object(doc) {
            return Err(DecodeError::MalformedResponse);
        }
        let denominator = match get_member(doc, "denominator") {
            Some(j) => match read_i32(j) {
                Ok(v) => v,
                Err(e) => return Err(e),
            },
            None => return Err(DecodeError::MalformedResponse),
        };
        let numerator = match get_member(doc, "numerator") {
            Some(j) => match read_i32(j) {
                Ok(v) => v,
                Err(e) => return Err(e),
            },
            None => return Err(DecodeError::MalformedResponse),
        };
        Ok(MarkQuantity {
            denominator,
            numerator,
        })
    }
}

/// The supplier of an item.
#[derive(Clone, Debug, PartialEq)]
pub struct Supplier {
    pub inn: String,
    pub name: String,
    pub phones: Vec<String>,
}

impl Supplier {
    /// A value with the given fields and every other field at its default:
    /// the optional fields unset.
    pub fn new(inn: String, name: String, phones: Vec<String>) -> (r: Supplier)
        ensures
            r.inn == inn,
            r.name == name,
            r.phones == phones,
    {
        Supplier {
            inn,
            name,
            phones,
        }
    }

    /// `doc` is what [`Self::to_json`] writes for `v`: each field under its
    /// camelCase key, amounts as strings, nested values as they write
    /// themselves, no member at all for an unset optional field or an empty
    /// list that is left out, and no member under any other key.
    pub open spec fn writes_as(doc: Json, v: Supplier) -> bool {
        &&& doc is Object
        &&& field_holds(member(doc, "inn"@), |j: Json, x: String| string_value(j) == Ok::<String, DecodeError>(x), v.inn)
        &&& field_holds(member(doc, "name"@), |j: Json, x: String| string_value(j) == Ok::<String, DecodeError>(x), v.name)
        &&& if v.phones@.len() == 0 {
            member(doc, "phones"@) is None
        } else {
            list_holds(member(doc, "phones"@), |j: Json, x: String| string_value(j) == Ok::<String, DecodeError>(x), v.phones@)
        }
        &&& forall|k: Seq<char>| #[trigger] member(doc, k) is Some ==> k == "inn"@ || k == "name"@ || k == "phones"@
    }

    /// The value as a JSON object with camelCase keys. An unset optional field
    /// is left out, not written as `null`; reading the object back gives the
    /// same value.
    pub fn to_json(&self) -> (r: Json)
        ensures
            Supplier::writes_as(r, *self),
            Supplier::read_from(r, *self),
    {
        let mut ms: Vec<(String, Json)> = Vec::new();
        proof {
            reveal_strlit("inn");
            reveal_strlit("name");
            reveal_strlit("phones");
            assert("inn"@.len() == 3);
            assert("name"@.len() == 4);
            assert("phones"@.len() == 6);
        }
        push_field(&mut ms, "inn", string_json(&self.inn));
        push_field(&mut ms, "name", string_json(&self.name));
        if self.phones.len() > 0 {
            push_field(&mut ms, "phones", strings_json(&self.phones));
        }
        Json::Object(ms)
    }

    /// `v` is what the JSON object `doc` says, field by field.
    pub open spec fn read_from(doc: Json, v: Supplier) -> bool {
        &&& doc is Object
        &&& field_holds(member(doc, "inn"@), |j: Json, x: String| string_value(j) == Ok::<String, DecodeError>(x), v.inn)
        &&& field_holds(member(doc, "name"@), |j: Json, x: String| string_value(j) == Ok::<String, DecodeError>(x), v.name)
        &&& list_or_empty_holds(member(doc, "phones"@), |j: Json, x: String| string_value(j) == Ok::<String, DecodeError>(x), v.phones@)
    }

    /// Whether every field of `doc` can be read: required fields are present,
    /// and every field that is there holds a value of its kind.
    pub open spec fn readable(doc: Json) -> bool {
        &&& doc is Object
        &&& match member(doc, "inn"@) {
            Some(j) => string_value(j) is Ok,
            None => false,
        }
        &&& match member(doc, "name"@) {
            Some(j) => string_value(j) is Ok,
            None => false,
        }
        &&& match member(doc, "phones"@) {
            Some(j) => strings_readable(j),
            None => true,
        }
    }

    /// Reads the value from a JSON object with camelCase keys. A missing or
    /// `null` optional field is unset; members it does not know are ignored.
    pub fn from_json(doc: &Json) -> (r: Result<Supplier, DecodeError>)
        ensures
            !(*doc is Object) ==> r == Err::<Supplier, DecodeError>(DecodeError::MalformedResponse),
            r matches Ok(v) ==> Supplier::read_from(*doc, v),
            r is Ok <==> Supplier::readable(*doc),
    {
        if !is_object(doc) {
            return Err(DecodeError::MalformedResponse);
        }
        let inn = match get_member(doc, "inn") {
            Some(j) => match read_string(j) {
                Ok(v) => v,
                Err(e) => return Err(e),
            },
            None => return Err(DecodeError::MalformedResponse),
        };
        let name = match get_member(doc, "name") {
            Some(j) => match read_string(j) {
                Ok(v) => v,
                Err(e) => return Err(e),
            },
            None => return Err(DecodeError::MalformedResponse),
        };
        let phones = match get_member(doc, "phones") {
            Some(j) => match read_strings(j) {
                Ok(v) => v,
                Err(e) => return Err(e),
            },
            None => Vec::new(),
        };
        Ok(Supplier {
            inn,
            name,
            phones,
        })
    }
}

/// The payment operator that an agent works with.
#[derive(Clone, Debug, PartialEq)]
pub struct PaymentsOperator {
    pub phones: Vec<String>,
}

impl PaymentsOperator {
    /// A value with the given fields and every other field at its default:
    /// the optional fields unset.
    pub fn new(phones: Vec<String>) -> (r: PaymentsOperator)
        ensures
            r.phones == phones,
    {
        PaymentsOperator {
            phones,
        }
    }

    /// `doc` is what [`Self::to_json`] writes for `v`: each field under its
    /// camelCase key, amounts as strings, nested values as they write
    /// themselves, no member at all for an unset optional field or an empty
    /// list that is left out, and no member under any other key.
    pub open spec fn writes_as(doc: Json, v: PaymentsOperator) -> bool {
        &&& doc is Object
        &&& if v.phones@.len() == 0 {
            member(doc, "phones"@) is None
        } else {
            list_holds(member(doc, "phones"@), |j: Json, x: String| string_value(j) == Ok::<String, DecodeError>(x), v.phones@)
        }
        &&& forall|k: Seq<char>| #[trigger] member(doc, k) is Some ==> k == "phones"@
    }

    /// The value as a JSON object with camelCase keys. An unset optional field
    /// is left out, not written as `null`; reading the object back gives the
    /// same value.
    pub fn to_json(&self) -> (r: Json)
        ensures
            PaymentsOperator::writes_as(r, *self),
            PaymentsOperator::read_from(r, *self),
    {
        let mut ms: Vec<(String, Json)> = Vec::new();
        proof {
            reveal_strlit("phones");
            assert("phones"@.len() == 6);
        }
        if self.phones.len() > 0 {
            push_field(&mut ms, "phones", strings_json(&self.phones));
        }
        Json::Object(ms)
    }

    /// `v` is what the JSON object `doc` says, field by field.
    pub open spec fn read_from(doc: Json, v: PaymentsOperator) -> bool {
        &&& doc is Object
        &&& list_or_empty_holds(member(doc, "phones"@), |j: Json, x: String| string_value(j) == Ok::<String, DecodeError>(x), v.phones@)
    }

    /// Whether every field of `doc` can be read: required fields are present,
    /// and every field that is there holds a value of its kind.
    pub open spec fn readable(doc: Json) -> bool {
        &&& doc is Object
        &&& match member(doc, "phones"@) {
            Some(j) => strings_readable(j),
            None => true,
        }
    }

    /// Reads the value from a JSON object with camelCase keys. A missing or
    /// `null` optional field is unset; members it does not know are ignored.
    pub fn from_json(doc: &Json) -> (r: Result<PaymentsOperator, DecodeError>)
        ensures
            !(*doc is Object) ==> r == Err::<PaymentsOperator, DecodeError>(DecodeError::MalformedResponse),
            r matches Ok(v) ==> PaymentsOperator::read_from(*doc, v),
            r is Ok <==> PaymentsOperator::readable(*doc),
    {
        if !is_object(doc) {
            return Err(DecodeError::MalformedResponse);
        }
        let phones = match get_member(doc, "phones") {
            Some(j) => match read_strings(j) {
                Ok(v) => v,
                Err(e) => return Err(e),
            },
            None => Vec::new(),
        };
        Ok(PaymentsOperator {
            phones,
        })
    }
}

/// The money transfer operator that an agent works with.
#[derive(Clone, Debug, PartialEq)]
pub struct TransferOperator {
    pub address: Option<String>,
    pub inn: String,
    pub name: String,
    pub phones: Vec<String>,
}

impl TransferOperator {
    /// A value with the given fields and every other field at its default:
    /// the optional fields unset.
    pub fn new(inn: String, name: String, phones: Vec<String>) -> (r: TransferOperator)
        ensures
            r.inn == inn,
            r.name == name,
            r.phones == phones,
            r.address is None,
    {
        TransferOperator {
            address: None,
            inn,
            name,
            phones,
        }
    }

    /// `doc` is what [`Self::to_json`] writes for `v`: each field under its
    /// camelCase key, amounts as strings, nested values as they write
    /// themselves, no member at all for an unset optional field or an empty
    /// list that is left out, and no member under any other key.
    pub open spec fn writes_as(doc: Json, v: TransferOperator) -> bool {
        &&& doc is Object
        &&& match v.address {
            None => member(doc, "address"@) is None,
            Some(w) => field_holds(member(doc, "address"@), |j: Json, x: String| string_value(j) == Ok::<String, DecodeError>(x), w),
        }
        &&& field_holds(member(doc, "inn"@), |j: Json, x: String| string_value(j) == Ok::<String, DecodeError>(x), v.inn)
        &&& field_holds(member(doc, "name"@), |j: Json, x: String| string_value(j) == Ok::<String, DecodeError>(x), v.name)
        &&& if v.phones@.len() == 0 {
            member(doc, "phones"@) is None
        } else {
            list_holds(member(doc, "phones"@), |j: Json, x: String| string_value(j) == Ok::<String, DecodeError>(x), v.phones@)
        }
        &&& forall|k: Seq<char>| #[trigger] member(doc, k) is Some ==> k == "address"@ || k == "inn"@ || k == "name"@ || k == "phones"@
    }

    /// The value as a JSON object with camelCase keys. An unset optional field
    /// is left out, not written as `null`; reading the object back gives the
    /// same value.
    pub fn to_json(&self) -> (r: Json)
        ensures
            TransferOperator::writes_as(r, *self),
            TransferOperator::read_from(r, *self),
    {
        let mut ms: Vec<(String, Json)> = Vec::new();
        proof {
            reveal_strlit("address");
            reveal_strlit("inn");
            reveal_strlit("name");
            reveal_strlit("phones");
            assert("address"@.len() == 7);
            assert("inn"@.len() == 3);
            assert("name"@.len() == 4);
            assert("phones"@.len() == 6);
        }
        push_optional(&mut ms, "address", match &self.address {
            Some(x) => Some(string_json(x)),
            None => None,
        });
        push_field(&mut ms, "inn", string_json(&self.inn));
        push_field(&mut ms, "name", string_json(&self.name));
        if self.phones.len() > 0 {
            push_field(&mut ms, "phones", strings_json(&self.phones));
        }
        Json::Object(ms)
    }

    /// `v` is what the JSON object `doc` says, field by field.
    pub open spec fn read_from(doc: Json, v: TransferOperator) -> bool {
        &&& doc is Object
        &&& opt_field_holds(member(doc, "address"@), |j: Json, x: String| string_value(j) == Ok::<String, DecodeError>(x), v.address)
        &&& field_holds(member(doc, "inn"@), |j: Json, x: String| string_value(j) == Ok::<String, DecodeError>(x), v.inn)
        &&& field_holds(member(doc, "name"@), |j: Json, x: String| string_value(j) == Ok::<String, DecodeError>(x), v.name)
        &&& list_or_empty_holds(member(doc, "phones"@), |j: Json, x: String| string_value(j) == Ok::<String, DecodeError>(x), v.phones@)
    }

    /// Whether every field of `doc` can be read: required fields are present,
    /// and every field that is there holds a value of its kind.
    pub open spec fn readable(doc: Json) -> bool {
        &&& doc is Object
        &&& match member(doc, "address"@) {
            Some(j) => j == Json::Null || string_value(j) is Ok,
            None => true,
        }
        &&& match member(doc, "inn"@) {
            Some(j) => string_value(j) is Ok,
            None => false,
        }
        &&& match member(doc, "name"@) {
            Some(j) => string_value(j) is Ok,
            None => false,
        }
        &&& match member(doc, "phones"@) {
            Some(j) => strings_readable(j),
            None => true,
        }
    }

    /// Reads the value from a JSON object with camelCase keys. A missing or
    /// `null` optional field is unset; members it does not know are ignored.
    pub fn from_json(doc: &Json) -> (r: Result<TransferOperator, DecodeError>)
        ensures
            !(*doc is Object) ==> r == Err::<TransferOperator, DecodeError>(DecodeError::MalformedResponse),
            r matches Ok(v) ==> TransferOperator::read_from(*doc, v),
            r is Ok <==> TransferOperator::readable(*doc),
    {
        if !is_object(doc) {
            return Err(DecodeError::MalformedResponse);
        }
        let address = match get_member(doc, "address") {
            None => None,
            Some(Json::Null) => None,
            Some(j) => match read_string(j) {
                Ok(v) => Some(v),
                Err(e) => return Err(e),
            },
        };
        let inn = match get_member(doc, "inn") {
            Some(j) => match read_string(j) {
                Ok(v) => v,
                Err(e) => return Err(e),
            },
            None => return Err(DecodeError::MalformedResponse),
        };
        let name = match get_member(doc, "name") {
            Some(j) => match read_string(j) {
                Ok(v) => v,
                Err(e) => return Err(e),
            },
            None => return Err(DecodeError::MalformedResponse),
        };
        let phones = match get_member(doc, "phones") {
            Some(j) => match read_strings(j) {
                Ok(v) => v,
                Err(e) => return Err(e),
            },
            None => Vec::new(),
        };
        Ok(TransferOperator {
            address,
            inn,
            name,
            phones,
        })
    }
}

/// Extra data for an order.
#[derive(Clone, Debug, PartialEq)]
pub struct OrderExtensions {
    pub billing_report: Option<BillingReport>,
    pub qr_data: Option<QRData>,
    pub sms_offer: Option<SMSOffer>,
}

impl OrderExtensions {
    /// A value with the given fields and every other field at its default:
    /// the optional fields unset.
    pub fn new() -> (r: OrderExtensions)
        ensures
            r.billing_report is None,
            r.qr_data is None,
            r.sms_offer is None,
    {
        OrderExtensions {
            billing_report: None,
            qr_data: None,
            sms_offer: None,
        }
    }

    /// `doc` is what [`Self::to_json`] writes for `v`: each field under its
    /// camelCase key, amounts as strings, nested values as they write
    /// themselves, no member at all for an unset optional field or an empty
    /// list that is left out, and no member under any other key.
    pub open spec fn writes_as(doc: Json, v: OrderExtensions) -> bool {
        &&& doc is Object
        &&& match v.billing_report {
            None => member(doc, "billingReport"@) is None,
            Some(w) => field_holds(member(doc, "billingReport"@), |j: Json, x: BillingReport| BillingReport::writes_as(j, x), w),
        }
        &&& match v.qr_data {
            None => member(doc, "qrData"@) is None,
            Some(w) => field_holds(member(doc, "qrData"@), |j: Json, x: QRData| QRData::writes_as(j, x), w),
        }
        &&& match v.sms_offer {
            None => member(doc, "smsOffer"@) is None,
            Some(w) => field_holds(member(doc, "smsOffer"@), |j: Json, x: SMSOffer| SMSOffer::writes_as(j, x), w),
        }
        &&& forall|k: Seq<char>| #[trigger] member(doc, k) is Some ==> k == "billingReport"@ || k == "qrData"@ || k == "smsOffer"@
    }

    /// The value as a JSON object with camelCase keys. An unset optional field
    /// is left out, not written as `null`; reading the object back gives the
    /// same value.
    pub fn to_json(&self) -> (r: Json)
        ensures
            OrderExtensions::writes_as(r, *self),
            OrderExtensions::read_from(r, *self),
    {
        let mut ms: Vec<(String, Json)> = Vec::new();
        proof {
            reveal_strlit("billingReport");
            reveal_strlit("qrData");
            reveal_strlit("smsOffer");
            assert("billingReport"@.len() == 13);
            assert("qrData"@.len() == 6);
            assert("smsOffer"@.len() == 8);
        }
        push_optional(&mut ms, "billingReport", match &self.billing_report {
            Some(x) => Some(x.to_json()),
            None => None,
        });
        push_optional(&mut ms, "qrData", match &self.qr_data {
            Some(x) => Some(x.to_json()),
            None => None,
        });
        push_optional(&mut ms, "smsOffer", match &self.sms_offer {
            Some(x) => Some(x.to_json()),
            None => None,
        });
        Json::Object(ms)
    }

    /// `v` is what the JSON object `doc` says, field by field.
    pub open spec fn read_from(doc: Json, v: OrderExtensions) -> bool {
        &&& doc is Object
        &&& opt_field_holds(member(doc, "billingReport"@), |j: Json, x: BillingReport| BillingReport::read_from(j, x), v.billing_report)
        &&& opt_field_holds(member(doc, "qrData"@), |j: Json, x: QRData| QRData::read_from(j, x), v.qr_data)
        &&& opt_field_holds(member(doc, "smsOffer"@), |j: Json, x: SMSOffer| SMSOffer::read_from(j, x), v.sms_offer)
    }

    /// Whether every field of `doc` can be read: required fields are present,
    /// and every field that is there holds a value of its kind.
    pub open spec fn readable(doc: Json) -> bool {
        &&& doc is Object
        &&& match member(doc, "billingReport"@) {
            Some(j) => j == Json::Null || BillingReport::readable(j),
            None => true,
        }
        &&& match member(doc, "qrData"@) {
            Some(j) => j == Json::Null || QRData::readable(j),
            None => true,
        }
        &&& match member(doc, "smsOffer"@) {
            Some(j) => j == Json::Null || SMSOffer::readable(j),
            None => true,
        }
    }

    /// Reads the value from a JSON object with camelCase keys. A missing or
    /// `null` optional field is unset; members it does not know are ignored.
    pub fn from_json(doc: &Json) -> (r: Result<OrderExtensions, DecodeError>)
        ensures
            !(*doc is Object) ==> r == Err::<OrderExtensions, DecodeError>(DecodeError::MalformedResponse),
            r matches Ok(v) ==> OrderExtensions::read_from(*doc, v),
            r is Ok <==> OrderExtensions::readable(*doc),
    {
        if !is_object(doc) {
            return Err(DecodeError::MalformedResponse);
        }
        let billing_report = match get_member(doc, "billingReport") {
            None => None,
            Some(Json::Null) => None,
            Some(j) => match BillingReport::from_json(j) {
                Ok(v) => Some(v),
                Err(e) => return Err(e),
            },
        };
        let qr_data = match get_member(doc, "qrData") {
            None => None,
            Some(Json::Null) => None,
            Some(j) => match QRData::from_json(j) {
                Ok(v) => Some(v),
                Err(e) => return Err(e),
            },
        };
        let sms_offer = match get_member(doc, "smsOffer") {
            None => None,
            Some(Json::Null) => None,
            Some(j) => match SMSOffer::from_json(j) {
                Ok(v) => Some(v),
                Err(e) => return Err(e),
            },
        };
        Ok(OrderExtensions {
            billing_report,
            qr_data,
            sms_offer,
        })
    }
}

/// Where the buyer is sent after the payment form.
#[derive(Clone, Debug, PartialEq)]
pub struct MerchantRedirectUrls {
    pub on_error: String,
    pub on_success: String,
    pub on_abort: Option<String>,
}

impl MerchantRedirectUrls {
    /// A value with the given fields and every other field at its default:
    /// the optional fields unset.
    pub fn new(on_error: String, on_success: String) -> (r: MerchantRedirectUrls)
        ensures
            r.on_error == on_error,
            r.on_success == on_success,
            r.on_abort is None,
    {
        MerchantRedirectUrls {
            on_error,
            on_success,
            on_abort: None,
        }
    }

    /// `doc` is what [`Self::to_json`] writes for `v`: each field under its
    /// camelCase key, amounts as strings, nested values as they write
    /// themselves, no member at all for an unset optional field or an empty
    /// list that is left out, and no member under any other key.
    pub open spec fn writes_as(doc: Json, v: MerchantRedirectUrls) -> bool {
        &&& doc is Object
        &&& field_holds(member(doc, "onError"@), |j: Json, x: String| string_value(j) == Ok::<String, DecodeError>(x), v.on_error)
        &&& field_holds(member(doc, "onSuccess"@), |j: Json, x: String| string_value(j) == Ok::<String, DecodeError>(x), v.on_success)
        &&& match v.on_abort {
            None => member(doc, "onAbort"@) is None,
            Some(w) => field_holds(member(doc, "onAbort"@), |j: Json, x: String| string_value(j) == Ok::<String, DecodeError>(x), w),
        }
        &&& forall|k: Seq<char>| #[trigger] member(doc, k) is Some ==> k == "onError"@ || k == "onSuccess"@ || k == "onAbort"@
    }

    /// The value as a JSON object with camelCase keys. An unset optional field
    /// is left out, not written as `null`; reading the object back gives the
    /// same value.
    pub fn to_json(&self) -> (r: Json)
        ensures
            MerchantRedirectUrls::writes_as(r, *self),
            MerchantRedirectUrls::read_from(r, *self),
    {
        let mut ms: Vec<(String, Json)> = Vec::new();
        proof {
            reveal_strlit("onError");
            reveal_strlit("onSuccess");
            reveal_strlit("onAbort");
            assert("onError"@.len() == 7);
            assert("onSuccess"@.len() == 9);
            assert("onAbort"@.len() == 7);
            assert("onAbort"@[2] == 'A');
            assert("onError"@[2] == 'E');
        }
        push_field(&mut ms, "onError", string_json(&self.on_error));
        push_field(&mut ms, "onSuccess", string_json(&self.on_success));
        push_optional(&mut ms, "onAbort", match &self.on_abort {
            Some(x) => Some(string_json(x)),
            None => None,
        });
        Json::Object(ms)
    }

    /// `v` is what the JSON object `doc` says, field by field.
    pub open spec fn read_from(doc: Json, v: MerchantRedirectUrls) -> bool {
        &&& doc is Object
        &&& field_holds(member(doc, "onError"@), |j: Json, x: String| string_value(j) == Ok::<String, DecodeError>(x), v.on_error)
        &&& field_holds(member(doc, "onSuccess"@), |j: Json, x: String| string_value(j) == Ok::<String, DecodeError>(x), v.on_success)
        &&& opt_field_holds(member(doc, "onAbort"@), |j: Json, x: String| string_value(j) == Ok::<String, DecodeError>(x), v.on_abort)
    }

    /// Whether every field of `doc` can be read: required fields are present,
    /// and every field that is there holds a value of its kind.
    pub open spec fn readable(doc: Json) -> bool {
        &&& doc is Object
        &&& match member(doc, "onError"@) {
            Some(j) => string_value(j) is Ok,
            None => false,
        }
        &&& match member(doc, "onSuccess"@) {
            Some(j) => string_value(j) is Ok,
            None => false,
        }
        &&& match member(doc, "onAbort"@) {
            Some(j) => j == Json::Null || string_value(j) is Ok,
            None => true,
        }
    }

    /// Reads the value from a JSON object with camelCase keys. A missing or
    /// `null` optional field is unset; members it does not know are ignored.
    pub fn from_json(doc: &Json) -> (r: Result<MerchantRedirectUrls, DecodeError>)
        ensures
            !(*doc is Object) ==> r == Err::<MerchantRedirectUrls, DecodeError>(DecodeError::MalformedResponse),
            r matches Ok(v) ==> MerchantRedirectUrls::read_from(*doc, v),
            r is Ok <==> MerchantRedirectUrls::readable(*doc),
    {
        if !is_object(doc) {
            return Err(DecodeError::MalformedResponse);
        }
        let on_error = match get_member(doc, "onError") {
            Some(j) => match read_string(j) {
                Ok(v) => v,
                Err(e) => return Err(e),
            },
            None => return Err(DecodeError::MalformedResponse),
        };
        let on_success = match get_member(doc, "onSuccess") {
            Some(j) => match read_string(j) {
                Ok(v) => v,
                Err(e) => return Err(e),
            },
            None => return Err(DecodeError::MalformedResponse),
        };
        let on_abort = match get_member(doc, "onAbort") {
            None => None,
            Some(Json::Null) => None,
            Some(j) => match read_string(j) {
                Ok(v) => Some(v),
                Err(e) => return Err(e),
            },
        };
        Ok(MerchantRedirectUrls {
            on_error,
            on_success,
            on_abort,
        })
    }
}

/// What the merchant knows of an order, for risk scoring.
#[derive(Clone, Debug, PartialEq)]
pub struct MerchantRiskInfo {
    pub customer_aggregates: Option<CustomerAggregates>,
    pub device_id: Option<String>,
    pub is_express_shipping: Option<bool>,
    pub period_check_aggregates: Option<PeriodCheckAggregates>,
    pub shipping_address: Option<String>,
    pub shipping_phone: Option<String>,
    pub shipping_type: Option<ShippingType>,
}

impl MerchantRiskInfo {
    /// A value with the given fields and every other field at its default:
    /// the optional fields unset.
    pub fn new() -> (r: MerchantRiskInfo)
        ensures
            r.customer_aggregates is None,
            r.device_id is None,
            r.is_express_shipping is None,
            r.period_check_aggregates is None,
            r.shipping_address is None,
            r.shipping_phone is None,
            r.shipping_type is None,
    {
        MerchantRiskInfo {
            customer_aggregates: None,
            device_id: None,
            is_express_shipping: None,
            period_check_aggregates: None,
            shipping_address: None,
            shipping_phone: None,
            shipping_type: None,
        }
    }

    /// `doc` is what [`Self::to_json`] writes for `v`: each field under its
    /// camelCase key, amounts as strings, nested values as they write
    /// themselves, no member at all for an unset optional field or an empty
    /// list that is left out, and no member under any other key.
    pub open spec fn writes_as(doc: Json, v: MerchantRiskInfo) -> bool {
        &&& doc is Object
        &&& match v.customer_aggregates {
            None => member(doc, "customerAggregates"@) is None,
            Some(w) => field_holds(member(doc, "customerAggregates"@), |j: Json, x: CustomerAggregates| CustomerAggregates::writes_as(j, x), w),
        }
        &&& match v.device_id {
            None => member(doc, "deviceId"@) is None,
            Some(w) => field_holds(member(doc, "deviceId"@), |j: Json, x: String| string_value(j) == Ok::<String, DecodeError>(x), w),
        }
        &&& match v.is_express_shipping {
            None => member(doc, "isExpressShipping"@) is None,
            Some(w) => field_holds(member(doc, "isExpressShipping"@), |j: Json, x: bool| bool_value(j) == Ok::<bool, DecodeError>(x), w),
        }
        &&& match v.period_check_aggregates {
            None => member(doc, "periodCheckAggregates"@) is None,
            Some(w) => field_holds(member(doc, "periodCheckAggregates"@), |j: Json, x: PeriodCheckAggregates| PeriodCheckAggregates::writes_as(j, x), w),
        }
        &&& match v.shipping_address {
            None => member(doc, "shippingAddress"@) is None,
            Some(w) => field_holds(member(doc, "shippingAddress"@), |j: Json, x: String| string_value(j) == Ok::<String, DecodeError>(x), w),
        }
        &&& match v.shipping_phone {
            None => member(doc, "shippingPhone"@) is None,
            Some(w) => field_holds(member(doc, "shippingPhone"@), |j: Json, x: String| string_value(j) == Ok::<String, DecodeError>(x), w),
        }
        &&& match v.shipping_type {
            None => member(doc, "shippingType"@) is None,
            Some(w) => field_holds(member(doc, "shippingType"@), |j: Json, x: ShippingType| ShippingType::writes_as(j, x), w),
        }
        &&& forall|k: Seq<char>| #[trigger] member(doc, k) is Some ==> k == "customerAggregates"@ || k == "deviceId"@ || k == "isExpressShipping"@ || k == "periodCheckAggregates"@ || k == "shippingAddress"@ || k == "shippingPhone"@ || k == "shippingType"@
    }

    /// The value as a JSON object with camelCase keys. An unset optional field
    /// is left out, not written as `null`; reading the object back gives the
    /// same value.
    #[verifier::rlimit(40)]
    pub fn to_json(&self) -> (r: Json)
        ensures
            MerchantRiskInfo::writes_as(r, *self),
            MerchantRiskInfo::read_from(r, *self),
    {
        let mut ms: Vec<(String, Json)> = Vec::new();
        proof {
            reveal_strlit("customerAggregates");
            reveal_strlit("deviceId");
            reveal_strlit("isExpressShipping");
            reveal_strlit("periodCheckAggregates");
            reveal_strlit("shippingAddress");
            reveal_strlit("shippingPhone");
            reveal_strlit("shippingType");
            assert("customerAggregates"@.len() == 18);
            assert("deviceId"@.len() == 8);
            assert("isExpressShipping"@.len() == 17);
            assert("periodCheckAggregates"@.len() == 21);
            assert("shippingAddress"@.len() == 15);
            assert("shippingPhone"@.len() == 13);
            assert("shippingType"@.len() == 12);
        }
        push_optional(&mut ms, "customerAggregates", match &self.customer_aggregates {
            Some(x) => Some(x.to_json()),
            None => None,
        });
        push_optional(&mut ms, "deviceId", match &self.device_id {
            Some(x) => Some(string_json(x)),
            None => None,
        });
        push_optional(&mut ms, "isExpressShipping", match &self.is_express_shipping {
            Some(x) => Some(Json::Bool(*x)),
            None => None,
        });
        push_optional(&mut ms, "periodCheckAggregates", match &self.period_check_aggregates {
            Some(x) => Some(x.to_json()),
            None => None,
        });
        push_optional(&mut ms, "shippingAddress", match &self.shipping_address {
            Some(x) => Some(string_json(x)),
            None => None,
        });
        push_optional(&mut ms, "shippingPhone", match &self.shipping_phone {
            Some(x) => Some(string_json(x)),
            None => None,
        });
        push_optional(&mut ms, "shippingType", match &self.shipping_type {
            Some(x) => Some(x.to_json()),
            None => None,
        });
        Json::Object(ms)
    }

    /// `v` is what the JSON object `doc` says, field by field.
    pub open spec fn read_from(doc: Json, v: MerchantRiskInfo) -> bool {
        &&& doc is Object
        &&& opt_field_holds(member(doc, "customerAggregates"@), |j: Json, x: CustomerAggregates| CustomerAggregates::read_from(j, x), v.customer_aggregates)
        &&& opt_field_holds(member(doc, "deviceId"@), |j: Json, x: String| string_value(j) == Ok::<String, DecodeError>(x), v.device_id)
        &&& opt_field_holds(member(doc, "isExpressShipping"@), |j: Json, x: bool| bool_value(j) == Ok::<bool, DecodeError>(x), v.is_express_shipping)
        &&& opt_field_holds(member(doc, "periodCheckAggregates"@), |j: Json, x: PeriodCheckAggregates| PeriodCheckAggregates::read_from(j, x), v.period_check_aggregates)
        &&& opt_field_holds(member(doc, "shippingAddress"@), |j: Json, x: String| string_value(j) == Ok::<String, DecodeError>(x), v.shipping_address)
        &&& opt_field_holds(member(doc, "shippingPhone"@), |j: Json, x: String| string_value(j) == Ok::<String, DecodeError>(x), v.shipping_phone)
        &&& opt_field_holds(member(doc, "shippingType"@), |j: Json, x: ShippingType| ShippingType::read_from(j, x), v.shipping_type)
    }

    /// Whether every field of `doc` can be read: required fields are present,
    /// and every field that is there holds a value of its kind.
    pub open spec fn readable(doc: Json) -> bool {
        &&& doc is Object
        &&& match member(doc, "customerAggregates"@) {
            Some(j) => j == Json::Null || CustomerAggregates::readable(j),
            None => true,
        }
        &&& match member(doc, "deviceId"@) {
            Some(j) => j == Json::Null || string_value(j) is Ok,
            None => true,
        }
        &&& match member(doc, "isExpressShipping"@) {
            Some(j) => j == Json::Null || bool_value(j) is Ok,
            None => true,
        }
        &&& match member(doc, "periodCheckAggregates"@) {
            Some(j) => j == Json::Null || PeriodCheckAggregates::readable(j),
            None => true,
        }
        &&& match member(doc, "shippingAddress"@) {
            Some(j) => j == Json::Null || string_value(j) is Ok,
            None => true,
        }
        &&& match member(doc, "shippingPhone"@) {
            Some(j) => j == Json::Null || string_value(j) is Ok,
            None => true,
        }
        &&& match member(doc, "shippingType"@) {
            Some(j) => j == Json::Null || ShippingType::readable(j),
            None => true,
        }
    }

    /// Reads the value from a JSON object with camelCase keys. A missing or
    /// `null` optional field is unset; members it does not know are ignored.
    #[verifier::rlimit(40)]
    pub fn from_json(doc: &Json) -> (r: Result<MerchantRiskInfo, DecodeError>)
        ensures
            !(*doc is Object) ==> r == Err::<MerchantRiskInfo, DecodeError>(DecodeError::MalformedResponse),
            r matches Ok(v) ==> MerchantRiskInfo::read_from(*doc, v),
            r is Ok <==> MerchantRiskInfo::readable(*doc),
    {
        if !is_object(doc) {
            return Err(DecodeError::MalformedResponse);
        }
        let customer_aggregates = match get_member(doc, "customerAggregates") {
            None => None,
            Some(Json::Null) => None,
            Some(j) => match CustomerAggregates::from_json(j) {
                Ok(v) => Some(v),
                Err(e) => return Err(e),
            },
        };
        let device_id = match get_member(doc, "deviceId") {
            None => None,
            Some(Json::Null) => None,
            Some(j) => match read_string(j) {
                Ok(v) => Some(v),
                Err(e) => return Err(e),
            },
        };
        let is_express_shipping = match get_member(doc, "isExpressShipping") {
            None => None,
            Some(Json::Null) => None,
            Some(j) => match read_bool(j) {
                Ok(v) => Some(v),
                Err(e) => return Err(e),
            },
        };
        let period_check_aggregates = match get_member(doc, "periodCheckAggregates") {
            None => None,
            Some(Json::Null) => None,
            Some(j) => match PeriodCheckAggregates::from_json(j) {
                Ok(v) => Some(v),
                Err(e) => return Err(e),
            },
        };
        let shipping_address = match get_member(doc, "shippingAddress") {
            None => None,
            Some(Json::Null) => None,
            Some(j) => match read_string(j) {
                Ok(v) => Some(v),
                Err(e) => return Err(e),
            },
        };
        let shipping_phone = match get_member(doc, "shippingPhone") {
            None => None,
            Some(Json::Null) => None,
            Some(j) => match read_string(j) {
                Ok(v) => Some(v),
                Err(e) => return Err(e),
            },
        };
        let shipping_type = match get_member(doc, "shippingType") {
            None => None,
            Some(Json::Null) => None,
            Some(j) => match ShippingType::from_json(j) {
                Ok(v) => Some(v),
                Err(e) => return Err(e),
            },
        };
        Ok(MerchantRiskInfo {
            customer_aggregates,
            device_id,
            is_express_shipping,
            period_check_aggregates,
            shipping_address,
            shipping_phone,
            shipping_type,
        })
    }
}

/// Data of a universal QR code.
#[derive(Clone, Debug, PartialEq)]
pub struct UniqrMetadata {
    pub uni_qr_id: String,
}

impl UniqrMetadata {
    /// A value with the given fields and every other field at its default:
    /// the optional fields unset.
    pub fn new(uni_qr_id: String) -> (r: UniqrMetadata)
        ensures
            r.uni_qr_id == uni_qr_id,
    {
        UniqrMetadata {
            uni_qr_id,
        }
    }

    /// `doc` is what [`Self::to_json`] writes for `v`: each field under its
    /// camelCase key, amounts as strings, nested values as they write
    /// themselves, no member at all for an unset optional field or an empty
    /// list that is left out, and no member under any other key.
    pub open spec fn writes_as(doc: Json, v: UniqrMetadata) -> bool {
        &&& doc is Object
        &&& field_holds(member(doc, "uniQrId"@), |j: Json, x: String| string_value(j) == Ok::<String, DecodeError>(x), v.uni_qr_id)
        &&& forall|k: Seq<char>| #[trigger] member(doc, k) is Some ==> k == "uniQrId"@
    }

    /// The value as a JSON object with camelCase keys. An unset optional field
    /// is left out, not written as `null`; reading the object back gives the
    /// same value.
    pub fn to_json(&self) -> (r: Json)
        ensures
            UniqrMetadata::writes_as(r, *self),
            UniqrMetadata::read_from(r, *self),
    {
        let mut ms: Vec<(String, Json)> = Vec::new();
        proof {
            reveal_strlit("uniQrId");
            assert("uniQrId"@.len() == 7);
        }
        push_field(&mut ms, "uniQrId", string_json(&self.uni_qr_id));
        Json::Object(ms)
    }

    /// `v` is what the JSON object `doc` says, field by field.
    pub open spec fn read_from(doc: Json, v: UniqrMetadata) -> bool {
        &&& doc is Object
        &&& field_holds(member(doc, "uniQrId"@), |j: Json, x: String| string_value(j) == Ok::<String, DecodeError>(x), v.uni_qr_id)
    }

    /// Whether every field of `doc` can be read: required fields are present,
    /// and every field that is there holds a value of its kind.
    pub open spec fn readable(doc: Json) -> bool {
        &&& doc is Object
        &&& match member(doc, "uniQrId"@) {
            Some(j) => string_value(j) is Ok,
            None => false,
        }
    }

    /// Reads the value from a JSON object with camelCase keys. A missing or
    /// `null` optional field is unset; members it does not know are ignored.
    pub fn from_json(doc: &Json) -> (r: Result<UniqrMetadata, DecodeError>)
        ensures
            !(*doc is Object) ==> r == Err::<UniqrMetadata, DecodeError>(DecodeError::MalformedResponse),
            r matches Ok(v) ==> UniqrMetadata::read_from(*doc, v),
            r is Ok <==> UniqrMetadata::readable(*doc),
    {
        if !is_object(doc) {
            return Err(DecodeError::MalformedResponse);
        }
        let uni_qr_id = match get_member(doc, "uniQrId") {
            Some(j) => match read_string(j) {
                Ok(v) => v,
                Err(e) => return Err(e),
            },
            None => return Err(DecodeError::MalformedResponse),
        };
        Ok(UniqrMetadata {
            uni_qr_id,
        })
    }
}

/// The VAT rate of an item, written on the wire as its number.
#[derive(Clone, Copy, Debug, PartialEq, Eq, Hash, Structural)]
pub enum Tax {
    Vat20,
    Vat10,
    Vat20_120,
    Vat10_110,
    Vat0,
    NoVat,
    Vat7,
    Vat5,
    Vat7_107,
    Vat5_105,
}

impl Tax {
    /// The number that stands for the value on the wire.
    pub open spec fn spec_code(self) -> u8 {
        match self {
            Tax::Vat20 => 1,
            Tax::Vat10 => 2,
            Tax::Vat20_120 => 3,
            Tax::Vat10_110 => 4,
            Tax::Vat0 => 5,
            Tax::NoVat => 6,
            Tax::Vat7 => 7,
            Tax::Vat5 => 8,
            Tax::Vat7_107 => 9,
            Tax::Vat5_105 => 10,
        }
    }

    pub open spec fn spec_from_code(c: u8) -> Option<Tax> {
        if c == 1 {
            Some(Tax::Vat20)
        } else if c == 2 {
            Some(Tax::Vat10)
        } else if c == 3 {
            Some(Tax::Vat20_120)
        } else if c == 4 {
            Some(Tax::Vat10_110)
        } else if c == 5 {
            Some(Tax::Vat0)
        } else if c == 6 {
            Some(Tax::NoVat)
        } else if c == 7 {
            Some(Tax::Vat7)
        } else if c == 8 {
            Some(Tax::Vat5)
        } else if c == 9 {
            Some(Tax::Vat7_107)
        } else if c == 10 {
            Some(Tax::Vat5_105)
        } else {
            None
        }
    }

    pub open spec fn spec_from_json(j: Json) -> Result<Tax, DecodeError> {
        match u8_value(j) {
            Ok(c) => match Tax::spec_from_code(c) {
                Some(v) => Ok(v),
                None => Err(DecodeError::MalformedResponse),
            },
            Err(e) => Err(e),
        }
    }

    pub fn code(&self) -> (r: u8)
        ensures
            r == self.spec_code(),
    {
        match self {
            Tax::Vat20 => 1,
            Tax::Vat10 => 2,
            Tax::Vat20_120 => 3,
            Tax::Vat10_110 => 4,
            Tax::Vat0 => 5,
            Tax::NoVat => 6,
            Tax::Vat7 => 7,
            Tax::Vat5 => 8,
            Tax::Vat7_107 => 9,
            Tax::Vat5_105 => 10,
        }
    }

    pub fn from_code(c: u8) -> (r: Option<Tax>)
        ensures
            r == Tax::spec_from_code(c),
    {
        if c == 1 {
            Some(Tax::Vat20)
        } else if c == 2 {
            Some(Tax::Vat10)
        } else if c == 3 {
            Some(Tax::Vat20_120)
        } else if c == 4 {
            Some(Tax::Vat10_110)
        } else if c == 5 {
            Some(Tax::Vat0)
        } else if c == 6 {
            Some(Tax::NoVat)
        } else if c == 7 {
            Some(Tax::Vat7)
        } else if c == 8 {
            Some(Tax::Vat5)
        } else if c == 9 {
            Some(Tax::Vat7_107)
        } else if c == 10 {
            Some(Tax::Vat5_105)
        } else {
            None
        }
    }

    /// The value as a JSON number; reading it back gives the same value.
    pub fn to_json(&self) -> (r: Json)
        ensures
            Tax::spec_from_json(r) == Ok::<Tax, DecodeError>(*self),
            Tax::read_from(r, *self),
    {
        integer_json(self.code() as i64)
    }

    pub fn from_json(j: &Json) -> (r: Result<Tax, DecodeError>)
        ensures
            r == Tax::spec_from_json(*j),
    {
        match read_u8(j) {
            Ok(c) => match Tax::from_code(c) {
                Some(v) => Ok(v),
                None => Err(DecodeError::MalformedResponse),
            },
            Err(e) => Err(e),
        }
    }

    /// Whether the JSON value `j` names a value.
    pub open spec fn readable(j: Json) -> bool {
        Tax::spec_from_json(j) is Ok
    }

    /// `v` is what the JSON value `j` says.
    pub open spec fn read_from(j: Json, v: Tax) -> bool {
        Tax::spec_from_json(j) == Ok::<Tax, DecodeError>(v)
    }

    /// `j` is what [`Self::to_json`] writes for `v`.
    pub open spec fn writes_as(j: Json, v: Tax) -> bool {
        Tax::read_from(j, v)
    }
}

/// How an item is paid for, written on the wire as its number.
#[derive(Clone, Copy, Debug, PartialEq, Eq, Hash, Structural)]
pub enum PaymentMethodType {
    FullPrepayment,
    PartialPrepayment,
    Advance,
    FullPayment,
    PartialPayment,
    CreditTransfer,
    CreditPayment,
}

impl PaymentMethodType {
    /// The number that stands for the value on the wire.
    pub open spec fn spec_code(self) -> u8 {
        match self {
            PaymentMethodType::FullPrepayment => 1,
            PaymentMethodType::PartialPrepayment => 2,
            PaymentMethodType::Advance => 3,
            PaymentMethodType::FullPayment => 4,
            PaymentMethodType::PartialPayment => 5,
            PaymentMethodType::CreditTransfer => 6,
            PaymentMethodType::CreditPayment => 7,
        }
    }

    pub open spec fn spec_from_code(c: u8) -> Option<PaymentMethodType> {
        if c == 1 {
            Some(PaymentMethodType::FullPrepayment)
        } else if c == 2 {
            Some(PaymentMethodType::PartialPrepayment)
        } else if c == 3 {
            Some(PaymentMethodType::Advance)
        } else if c == 4 {
            Some(PaymentMethodType::FullPayment)
        } else if c == 5 {
            Some(PaymentMethodType::PartialPayment)
        } else if c == 6 {
            Some(PaymentMethodType::CreditTransfer)
        } else if c == 7 {
            Some(PaymentMethodType::CreditPayment)
        } else {
            None
        }
    }

    pub open spec fn spec_from_json(j: Json) -> Result<PaymentMethodType, DecodeError> {
        match u8_value(j) {
            Ok(c) => match PaymentMethodType::spec_from_code(c) {
                Some(v) => Ok(v),
                None => Err(DecodeError::MalformedResponse),
            },
            Err(e) => Err(e),
        }
    }

    pub fn code(&self) -> (r: u8)
        ensures
            r == self.spec_code(),
    {
        match self {
            PaymentMethodType::FullPrepayment => 1,
            PaymentMethodType::PartialPrepayment => 2,
            PaymentMethodType::Advance => 3,
            PaymentMethodType::FullPayment => 4,
            PaymentMethodType::PartialPayment => 5,
            PaymentMethodType::CreditTransfer => 6,
            PaymentMethodType::CreditPayment => 7,
        }
    }

    pub fn from_code(c: u8) -> (r: Option<PaymentMethodType>)
        ensures
            r == PaymentMethodType::spec_from_code(c),
    {
        if c == 1 {
            Some(PaymentMethodType::FullPrepayment)
        } else if c == 2 {
            Some(PaymentMethodType::PartialPrepayment)
        } else if c == 3 {
            Some(PaymentMethodType::Advance)
        } else if c == 4 {
            Some(PaymentMethodType::FullPayment)
        } else if c == 5 {
            Some(PaymentMethodType::PartialPayment)
        } else if c == 6 {
            Some(PaymentMethodType::CreditTransfer)
        } else if c == 7 {
            Some(PaymentMethodType::CreditPayment)
        } else {
            None
        }
    }

    /// The value as a JSON number; reading it back gives the same value.
    pub fn to_json(&self) -> (r: Json)
        ensures
            PaymentMethodType::spec_from_json(r) == Ok::<PaymentMethodType, DecodeError>(*self),
            PaymentMethodType::read_from(r, *self),
    {
        integer_json(self.code() as i64)
    }

    pub fn from_json(j: &Json) -> (r: Result<PaymentMethodType, DecodeError>)
        ensures
            r == PaymentMethodType::spec_from_json(*j),
    {
        match read_u8(j) {
            Ok(c) => match PaymentMethodType::from_code(c) {
                Some(v) => Ok(v),
                None => Err(DecodeError::MalformedResponse),
            },
            Err(e) => Err(e),
        }
    }

    /// Whether the JSON value `j` names a value.
    pub open spec fn readable(j: Json) -> bool {
        PaymentMethodType::spec_from_json(j) is Ok
    }

    /// `v` is what the JSON value `j` says.
    pub open spec fn read_from(j: Json, v: PaymentMethodType) -> bool {
        PaymentMethodType::spec_from_json(j) == Ok::<PaymentMethodType, DecodeError>(v)
    }

    /// `j` is what [`Self::to_json`] writes for `v`.
    pub open spec fn writes_as(j: Json, v: PaymentMethodType) -> bool {
        PaymentMethodType::read_from(j, v)
    }
}

/// What is being paid for, written on the wire as its number.
#[derive(Clone, Copy, Debug, PartialEq, Eq, Hash, Structural)]
pub enum PaymentSubjectType {
    Goods,
    ExciseGoods,
    Work,
    Service,
    GamblingBet,
    GamblingWin,
    LotteryTicket,
    LotteryWin,
    IntellectualProperty,
    Payment,
    AgencyFee,
    Composite,
    Other,
    PropertyRight,
    NonOperatingIncome,
    InsuranceContributionsTaxReduction,
    TradeFee,
    ResortFee,
    Deposit,
    ExpenseTaxReduction,
    PensionInsuranceIP,
    PensionInsurance,
    MedicalInsuranceIP,
    MedicalInsurance,
    SocialInsurance,
    CasinoPayment,
}

impl PaymentSubjectType {
    /// The number that stands for the value on the wire.
    pub open spec fn spec_code(self) -> u8 {
        match self {
            PaymentSubjectType::Goods => 1,
            PaymentSubjectType::ExciseGoods => 2,
            PaymentSubjectType::Work => 3,
            PaymentSubjectType::Service => 4,
            PaymentSubjectType::GamblingBet => 5,
            PaymentSubjectType::GamblingWin => 6,
            PaymentSubjectType::LotteryTicket => 7,
            PaymentSubjectType::LotteryWin => 8,
            PaymentSubjectType::IntellectualProperty => 9,
            PaymentSubjectType::Payment => 10,
            PaymentSubjectType::AgencyFee => 11,
            PaymentSubjectType::Composite => 12,
            PaymentSubjectType::Other => 13,
            PaymentSubjectType::PropertyRight => 14,
            PaymentSubjectType::NonOperatingIncome => 15,
            PaymentSubjectType::InsuranceContributionsTaxReduction => 16,
            PaymentSubjectType::TradeFee => 17,
            PaymentSubjectType::ResortFee => 18,
            PaymentSubjectType::Deposit => 19,
            PaymentSubjectType::ExpenseTaxReduction => 20,
            PaymentSubjectType::PensionInsuranceIP => 21,
            PaymentSubjectType::PensionInsurance => 22,
            PaymentSubjectType::MedicalInsuranceIP => 23,
            PaymentSubjectType::MedicalInsurance => 24,
            PaymentSubjectType::SocialInsurance => 25,
            PaymentSubjectType::CasinoPayment => 26,
        }
    }

    pub open spec fn spec_from_code(c: u8) -> Option<PaymentSubjectType> {
        if c == 1 {
            Some(PaymentSubjectType::Goods)
        } else if c == 2 {
            Some(PaymentSubjectType::ExciseGoods)
        } else if c == 3 {
            Some(PaymentSubjectType::Work)
        } else if c == 4 {
            Some(PaymentSubjectType::Service)
        } else if c == 5 {
            Some(PaymentSubjectType::GamblingBet)
        } else if c == 6 {
            Some(PaymentSubjectType::GamblingWin)
        } else if c == 7 {
            Some(PaymentSubjectType::LotteryTicket)
        } else if c == 8 {
            Some(PaymentSubjectType::LotteryWin)
        } else if c == 9 {
            Some(PaymentSubjectType::IntellectualProperty)
        } else if c == 10 {
            Some(PaymentSubjectType::Payment)
        } else if c == 11 {
            Some(PaymentSubjectType::AgencyFee)
        } else if c == 12 {
            Some(PaymentSubjectType::Composite)
        } else if c == 13 {
            Some(PaymentSubjectType::Other)
        } else if c == 14 {
            Some(PaymentSubjectType::PropertyRight)
        } else if c == 15 {
            Some(PaymentSubjectType::NonOperatingIncome)
        } else if c == 16 {
            Some(PaymentSubjectType::InsuranceContributionsTaxReduction)
        } else if c == 17 {
            Some(PaymentSubjectType::TradeFee)
        } else if c == 18 {
            Some(PaymentSubjectType::ResortFee)
        } else if c == 19 {
            Some(PaymentSubjectType::Deposit)
        } else if c == 20 {
            Some(PaymentSubjectType::ExpenseTaxReduction)
        } else if c == 21 {
            Some(PaymentSubjectType::PensionInsuranceIP)
        } else if c == 22 {
            Some(PaymentSubjectType::PensionInsurance)
        } else if c == 23 {
            Some(PaymentSubjectType::MedicalInsuranceIP)
        } else if c == 24 {
            Some(PaymentSubjectType::MedicalInsurance)
        } else if c == 25 {
            Some(PaymentSubjectType::SocialInsurance)
        } else if c == 26 {
            Some(PaymentSubjectType::CasinoPayment)
        } else {
            None
        }
    }

    pub open spec fn spec_from_json(j: Json) -> Result<PaymentSubjectType, DecodeError> {
        match u8_value(j) {
            Ok(c) => match PaymentSubjectType::spec_from_code(c) {
                Some(v) => Ok(v),
                None => Err(DecodeError::MalformedResponse),
            },
            Err(e) => Err(e),
        }
    }

    pub fn code(&self) -> (r: u8)
        ensures
            r == self.spec_code(),
    {
        match self {
            PaymentSubjectType::Goods => 1,
            PaymentSubjectType::ExciseGoods => 2,
            PaymentSubjectType::Work => 3,
            PaymentSubjectType::Service => 4,
            PaymentSubjectType::GamblingBet => 5,
            PaymentSubjectType::GamblingWin => 6,
            PaymentSubjectType::LotteryTicket => 7,
            PaymentSubjectType::LotteryWin => 8,
            PaymentSubjectType::IntellectualProperty => 9,
            PaymentSubjectType::Payment => 10,
            PaymentSubjectType::AgencyFee => 11,
            PaymentSubjectType::Composite => 12,
            PaymentSubjectType::Other => 13,
            PaymentSubjectType::PropertyRight => 14,
            PaymentSubjectType::NonOperatingIncome => 15,
            PaymentSubjectType::InsuranceContributionsTaxReduction => 16,
            PaymentSubjectType::TradeFee => 17,
            PaymentSubjectType::ResortFee => 18,
            PaymentSubjectType::Deposit => 19,
            PaymentSubjectType::ExpenseTaxReduction => 20,
            PaymentSubjectType::PensionInsuranceIP => 21,
            PaymentSubjectType::PensionInsurance => 22,
            PaymentSubjectType::MedicalInsuranceIP => 23,
            PaymentSubjectType::MedicalInsurance => 24,
            PaymentSubjectType::SocialInsurance => 25,
            PaymentSubjectType::CasinoPayment => 26,
        }
    }

    pub fn from_code(c: u8) -> (r: Option<PaymentSubjectType>)
        ensures
            r == PaymentSubjectType::spec_from_code(c),
    {
        if c == 1 {
            Some(PaymentSubjectType::Goods)
        } else if c == 2 {
            Some(PaymentSubjectType::ExciseGoods)
        } else if c == 3 {
            Some(PaymentSubjectType::Work)
        } else if c == 4 {
            Some(PaymentSubjectType::Service)
        } else if c == 5 {
            Some(PaymentSubjectType::GamblingBet)
        } else if c == 6 {
            Some(PaymentSubjectType::GamblingWin)
        } else if c == 7 {
            Some(PaymentSubjectType::LotteryTicket)
        } else if c == 8 {
            Some(PaymentSubjectType::LotteryWin)
        } else if c == 9 {
            Some(PaymentSubjectType::IntellectualProperty)
        } else if c == 10 {
            Some(PaymentSubjectType::Payment)
        } else if c == 11 {
            Some(PaymentSubjectType::AgencyFee)
        } else if c == 12 {
            Some(PaymentSubjectType::Composite)
        } else if c == 13 {
            Some(PaymentSubjectType::Other)
        } else if c == 14 {
            Some(PaymentSubjectType::PropertyRight)
        } else if c == 15 {
            Some(PaymentSubjectType::NonOperatingIncome)
        } else if c == 16 {
            Some(PaymentSubjectType::InsuranceContributionsTaxReduction)
        } else if c == 17 {
            Some(PaymentSubjectType::TradeFee)
        } else if c == 18 {
            Some(PaymentSubjectType::ResortFee)
        } else if c == 19 {
            Some(PaymentSubjectType::Deposit)
        } else if c == 20 {
            Some(PaymentSubjectType::ExpenseTaxReduction)
        } else if c == 21 {
            Some(PaymentSubjectType::PensionInsuranceIP)
        } else if c == 22 {
            Some(PaymentSubjectType::PensionInsurance)
        } else if c == 23 {
            Some(PaymentSubjectType::MedicalInsuranceIP)
        } else if c == 24 {
            Some(PaymentSubjectType::MedicalInsurance)
        } else if c == 25 {
            Some(PaymentSubjectType::SocialInsurance)
        } else if c == 26 {
            Some(PaymentSubjectType::CasinoPayment)
        } else {
            None
        }
    }

    /// The value as a JSON number; reading it back gives the same value.
    pub fn to_json(&self) -> (r: Json)
        ensures
            PaymentSubjectType::spec_from_json(r) == Ok::<PaymentSubjectType, DecodeError>(*self),
            PaymentSubjectType::read_from(r, *self),
    {
        integer_json(self.code() as i64)
    }

    pub fn from_json(j: &Json) -> (r: Result<PaymentSubjectType, DecodeError>)
        ensures
            r == PaymentSubjectType::spec_from_json(*j),
    {
        match read_u8(j) {
            Ok(c) => match PaymentSubjectType::from_code(c) {
                Some(v) => Ok(v),
                None => Err(DecodeError::MalformedResponse),
            },
            Err(e) => Err(e),
        }
    }

    /// Whether the JSON value `j` names a value.
    pub open spec fn readable(j: Json) -> bool {
        PaymentSubjectType::spec_from_json(j) is Ok
    }

    /// `v` is what the JSON value `j` says.
    pub open spec fn read_from(j: Json, v: PaymentSubjectType) -> bool {
        PaymentSubjectType::spec_from_json(j) == Ok::<PaymentSubjectType, DecodeError>(v)
    }

    /// `j` is what [`Self::to_json`] writes for `v`.
    pub open spec fn writes_as(j: Json, v: PaymentSubjectType) -> bool {
        PaymentSubjectType::read_from(j, v)
    }
}

/// The unit an item is measured in, written on the wire as its number.
#[derive(Clone, Copy, Debug, PartialEq, Eq, Hash, Structural)]
pub enum Measure {
    Units,
    Gram,
    Kilogram,
    Tonne,
    Centimeter,
    Decimeter,
    Meter,
    SquareCentimeter,
    SquareDecimeter,
    SquareMeter,
    Milliliter,
    Liter,
    CubicMeter,
    KilowattHour,
    Gigacalorie,
    Day,
    Hour,
    Minute,
    Second,
    Kilobyte,
    Megabyte,
    Gigabyte,
    Terabyte,
    Other,
}

impl Measure {
    /// The number that stands for the value on the wire.
    pub open spec fn spec_code(self) -> u8 {
        match self {
            Measure::Units => 0,
            Measure::Gram => 10,
            Measure::Kilogram => 11,
            Measure::Tonne => 12,
            Measure::Centimeter => 20,
            Measure::Decimeter => 21,
            Measure::Meter => 22,
            Measure::SquareCentimeter => 30,
            Measure::SquareDecimeter => 31,
            Measure::SquareMeter => 32,
            Measure::Milliliter => 40,
            Measure::Liter => 41,
            Measure::CubicMeter => 42,
            Measure::KilowattHour => 50,
            Measure::Gigacalorie => 51,
            Measure::Day => 70,
            Measure::Hour => 71,
            Measure::Minute => 72,
            Measure::Second => 73,
            Measure::Kilobyte => 80,
            Measure::Megabyte => 81,
            Measure::Gigabyte => 82,
            Measure::Terabyte => 83,
            Measure::Other => 255,
        }
    }

    pub open spec fn spec_from_code(c: u8) -> Option<Measure> {
        if c == 0 {
            Some(Measure::Units)
        } else if c == 10 {
            Some(Measure::Gram)
        } else if c == 11 {
            Some(Measure::Kilogram)
        } else if c == 12 {
            Some(Measure::Tonne)
        } else if c == 20 {
            Some(Measure::Centimeter)
        } else if c == 21 {
            Some(Measure::Decimeter)
        } else if c == 22 {
            Some(Measure::Meter)
        } else if c == 30 {
            Some(Measure::SquareCentimeter)
        } else if c == 31 {
            Some(Measure::SquareDecimeter)
        } else if c == 32 {
            Some(Measure::SquareMeter)
        } else if c == 40 {
            Some(Measure::Milliliter)
        } else if c == 41 {
            Some(Measure::Liter)
        } else if c == 42 {
            Some(Measure::CubicMeter)
        } else if c == 50 {
            Some(Measure::KilowattHour)
        } else if c == 51 {
            Some(Measure::Gigacalorie)
        } else if c == 70 {
            Some(Measure::Day)
        } else if c == 71 {
            Some(Measure::Hour)
        } else if c == 72 {
            Some(Measure::Minute)
        } else if c == 73 {
            Some(Measure::Second)
        } else if c == 80 {
            Some(Measure::Kilobyte)
        } else if c == 81 {
            Some(Measure::Megabyte)
        } else if c == 82 {
            Some(Measure::Gigabyte)
        } else if c == 83 {
            Some(Measure::Terabyte)
        } else if c == 255 {
            Some(Measure::Other)
        } else {
            None
        }
    }

    pub open spec fn spec_from_json(j: Json) -> Result<Measure, DecodeError> {
        match u8_value(j) {
            Ok(c) => match Measure::spec_from_code(c) {
                Some(v) => Ok(v),
                None => Err(DecodeError::MalformedResponse),
            },
            Err(e) => Err(e),
        }
    }

    pub fn code(&self) -> (r: u8)
        ensures
            r == self.spec_code(),
    {
        match self {
            Measure::Units => 0,
            Measure::Gram => 10,
            Measure::Kilogram => 11,
            Measure::Tonne => 12,
            Measure::Centimeter => 20,
            Measure::Decimeter => 21,
            Measure::Meter => 22,
            Measure::SquareCentimeter => 30,
            Measure::SquareDecimeter => 31,
            Measure::SquareMeter => 32,
            Measure::Milliliter => 40,
            Measure::Liter => 41,
            Measure::CubicMeter => 42,
            Measure::KilowattHour => 50,
            Measure::Gigacalorie => 51,
            Measure::Day => 70,
            Measure::Hour => 71,
            Measure::Minute => 72,
            Measure::Second => 73,
            Measure::Kilobyte => 80,
            Measure::Megabyte => 81,
            Measure::Gigabyte => 82,
            Measure::Terabyte => 83,
            Measure::Other => 255,
        }
    }

    pub fn from_code(c: u8) -> (r: Option<Measure>)
        ensures
            r == Measure::spec_from_code(c),
    {
        if c == 0 {
            Some(Measure::Units)
        } else if c == 10 {
            Some(Measure::Gram)
        } else if c == 11 {
            Some(Measure::Kilogram)
        } else if c == 12 {
            Some(Measure::Tonne)
        } else if c == 20 {
            Some(Measure::Centimeter)
        } else if c == 21 {
            Some(Measure::Decimeter)
        } else if c == 22 {
            Some(Measure::Meter)
        } else if c == 30 {
            Some(Measure::SquareCentimeter)
        } else if c == 31 {
            Some(Measure::SquareDecimeter)
        } else if c == 32 {
            Some(Measure::SquareMeter)
        } else if c == 40 {
            Some(Measure::Milliliter)
        } else if c == 41 {
            Some(Measure::Liter)
        } else if c == 42 {
            Some(Measure::CubicMeter)
        } else if c == 50 {
            Some(Measure::KilowattHour)
        } else if c == 51 {
            Some(Measure::Gigacalorie)
        } else if c == 70 {
            Some(Measure::Day)
        } else if c == 71 {
            Some(Measure::Hour)
        } else if c == 72 {
            Some(Measure::Minute)
        } else if c == 73 {
            Some(Measure::Second)
        } else if c == 80 {
            Some(Measure::Kilobyte)
        } else if c == 81 {
            Some(Measure::Megabyte)
        } else if c == 82 {
            Some(Measure::Gigabyte)
        } else if c == 83 {
            Some(Measure::Terabyte)
        } else if c == 255 {
            Some(Measure::Other)
        } else {
            None
        }
    }

    /// The value as a JSON number; reading it back gives the same value.
    pub fn to_json(&self) -> (r: Json)
        ensures
            Measure::spec_from_json(r) == Ok::<Measure, DecodeError>(*self),
            Measure::read_from(r, *self),
    {
        integer_json(self.code() as i64)
    }

    pub fn from_json(j: &Json) -> (r: Result<Measure, DecodeError>)
        ensures
            r == Measure::spec_from_json(*j),
    {
        match read_u8(j) {
            Ok(c) => match Measure::from_code(c) {
                Some(v) => Ok(v),
                None => Err(DecodeError::MalformedResponse),
            },
            Err(e) => Err(e),
        }
    }

    /// Whether the JSON value `j` names a value.
    pub open spec fn readable(j: Json) -> bool {
        Measure::spec_from_json(j) is Ok
    }

    /// `v` is what the JSON value `j` says.
    pub open spec fn read_from(j: Json, v: Measure) -> bool {
        Measure::spec_from_json(j) == Ok::<Measure, DecodeError>(v)
    }

    /// `j` is what [`Self::to_json`] writes for `v`.
    pub open spec fn writes_as(j: Json, v: Measure) -> bool {
        Measure::read_from(j, v)
    }
}

/// The kind of agent, written on the wire as its number.
#[derive(Clone, Copy, Debug, PartialEq, Eq, Hash, Structural)]
pub enum AgentType {
    BankPaymentAgent,
    BankPaymentSubagent,
    PaymentAgent,
    PaymentSubagent,
    Attorney,
    Commissioner,
    OtherAgent,
}

impl AgentType {
    /// The number that stands for the value on the wire.
    pub open spec fn spec_code(self) -> u8 {
        match self {
            AgentType::BankPaymentAgent => 1,
            AgentType::BankPaymentSubagent => 2,
            AgentType::PaymentAgent => 3,
            AgentType::PaymentSubagent => 4,
            AgentType::Attorney => 5,
            AgentType::Commissioner => 6,
            AgentType::OtherAgent => 7,
        }
    }

    pub open spec fn spec_from_code(c: u8) -> Option<AgentType> {
        if c == 1 {
            Some(AgentType::BankPaymentAgent)
        } else if c == 2 {
            Some(AgentType::BankPaymentSubagent)
        } else if c == 3 {
            Some(AgentType::PaymentAgent)
        } else if c == 4 {
            Some(AgentType::PaymentSubagent)
        } else if c == 5 {
            Some(AgentType::Attorney)
        } else if c == 6 {
            Some(AgentType::Commissioner)
        } else if c == 7 {
            Some(AgentType::OtherAgent)
        } else {
            None
        }
    }

    pub open spec fn spec_from_json(j: Json) -> Result<AgentType, DecodeError> {
        match u8_value(j) {
            Ok(c) => match AgentType::spec_from_code(c) {
                Some(v) => Ok(v),
                None => Err(DecodeError::MalformedResponse),
            },
            Err(e) => Err(e),
        }
    }

    pub fn code(&self) -> (r: u8)
        ensures
            r == self.spec_code(),
    {
        match self {
            AgentType::BankPaymentAgent => 1,
            AgentType::BankPaymentSubagent => 2,
            AgentType::PaymentAgent => 3,
            AgentType::PaymentSubagent => 4,
            AgentType::Attorney => 5,
            AgentType::Commissioner => 6,
            AgentType::OtherAgent => 7,
        }
    }

    pub fn from_code(c: u8) -> (r: Option<AgentType>)
        ensures
            r == AgentType::spec_from_code(c),
    {
        if c == 1 {
            Some(AgentType::BankPaymentAgent)
        } else if c == 2 {
            Some(AgentType::BankPaymentSubagent)
        } else if c == 3 {
            Some(AgentType::PaymentAgent)
        } else if c == 4 {
            Some(AgentType::PaymentSubagent)
        } else if c == 5 {
            Some(AgentType::Attorney)
        } else if c == 6 {
            Some(AgentType::Commissioner)
        } else if c == 7 {
            Some(AgentType::OtherAgent)
        } else {
            None
        }
    }

    /// The value as a JSON number; reading it back gives the same value.
    pub fn to_json(&self) -> (r: Json)
        ensures
            AgentType::spec_from_json(r) == Ok::<AgentType, DecodeError>(*self),
            AgentType::read_from(r, *self),
    {
        integer_json(self.code() as i64)
    }

    pub fn from_json(j: &Json) -> (r: Result<AgentType, DecodeError>)
        ensures
            r == AgentType::spec_from_json(*j),
    {
        match read_u8(j) {
            Ok(c) => match AgentType::from_code(c) {
                Some(v) => Ok(v),
                None => Err(DecodeError::MalformedResponse),
            },
            Err(e) => Err(e),
        }
    }

    /// Whether the JSON value `j` names a value.
    pub open spec fn readable(j: Json) -> bool {
        AgentType::spec_from_json(j) is Ok
    }

    /// `v` is what the JSON value `j` says.
    pub open spec fn read_from(j: Json, v: AgentType) -> bool {
        AgentType::spec_from_json(j) == Ok::<AgentType, DecodeError>(v)
    }

    /// `j` is what [`Self::to_json`] writes for `v`.
    pub open spec fn writes_as(j: Json, v: AgentType) -> bool {
        AgentType::read_from(j, v)
    }
}

/// How an order is delivered.
#[derive(Clone, Copy, Debug, PartialEq, Eq, Hash, Structural)]
pub enum ShippingType {
    Courier,
    Pickup,
}

impl ShippingType {
    /// The name of the value on the wire.
    pub open spec fn spec_wire_name(self) -> Seq<char> {
        match self {
            ShippingType::Courier => "COURIER"@,
            ShippingType::Pickup => "PICKUP"@,
        }
    }

    pub open spec fn spec_from_wire_name(s: Seq<char>) -> Option<ShippingType> {
        if s == "COURIER"@ {
            Some(ShippingType::Courier)
        } else if s == "PICKUP"@ {
            Some(ShippingType::Pickup)
        } else {
            None
        }
    }

    pub open spec fn spec_from_json(j: Json) -> Result<ShippingType, DecodeError> {
        match j {
            Json::Str(s) => match ShippingType::spec_from_wire_name(s@) {
                Some(v) => Ok(v),
                None => Err(DecodeError::MalformedResponse),
            },
            _ => Err(DecodeError::MalformedResponse),
        }
    }

    pub fn wire_name(&self) -> (r: &'static str)
        ensures
            r@ == self.spec_wire_name(),
    {
        match self {
            ShippingType::Courier => "COURIER",
            ShippingType::Pickup => "PICKUP",
        }
    }

    pub fn from_wire_name(s: &str) -> (r: Option<ShippingType>)
        ensures
            r == ShippingType::spec_from_wire_name(s@),
    {
        if same_text(s, "COURIER") {
            Some(ShippingType::Courier)
        } else if same_text(s, "PICKUP") {
            Some(ShippingType::Pickup)
        } else {
            None
        }
    }

    /// The value as a JSON string holding its wire name.
    pub fn to_json(&self) -> (r: Json)
        ensures
            r matches Json::Str(s) && s@ == self.spec_wire_name(),
            ShippingType::read_from(r, *self),
    {
        proof {
            reveal_strlit("COURIER");
            reveal_strlit("PICKUP");
            assert("COURIER"@.len() == 7);
            assert("PICKUP"@.len() == 6);
        }
        Json::Str(String::from_str(self.wire_name()))
    }

    pub fn from_json(j: &Json) -> (r: Result<ShippingType, DecodeError>)
        ensures
            r == ShippingType::spec_from_json(*j),
    {
        match j {
            Json::Str(s) => match ShippingType::from_wire_name(s.as_str()) {
                Some(v) => Ok(v),
                None => Err(DecodeError::MalformedResponse),
            },
            _ => Err(DecodeError::MalformedResponse),
        }
    }

    /// Whether the JSON value `j` names a value.
    pub open spec fn readable(j: Json) -> bool {
        ShippingType::spec_from_json(j) is Ok
    }

    /// `v` is what the JSON value `j` says.
    pub open spec fn read_from(j: Json, v: ShippingType) -> bool {
        ShippingType::spec_from_json(j) == Ok::<ShippingType, DecodeError>(v)
    }

    /// `j` is what [`Self::to_json`] writes for `v`.
    pub open spec fn writes_as(j: Json, v: ShippingType) -> bool {
        ShippingType::read_from(j, v)
    }
}

/// The payment method shown first on the payment form.
#[derive(Clone, Copy, Debug, PartialEq, Eq, Hash, Structural)]
pub enum PreferredPaymentMethod {
    FullPayment,
    Split,
}

impl PreferredPaymentMethod {
    /// The name of the value on the wire.
    pub open spec fn spec_wire_name(self) -> Seq<char> {
        match self {
            PreferredPaymentMethod::FullPayment => "FULLPAYMENT"@,
            PreferredPaymentMethod::Split => "SPLIT"@,
        }
    }

    pub open spec fn spec_from_wire_name(s: Seq<char>) -> Option<PreferredPaymentMethod> {
        if s == "FULLPAYMENT"@ {
            Some(PreferredPaymentMethod::FullPayment)
        } else if s == "SPLIT"@ {
            Some(PreferredPaymentMethod::Split)
        } else {
            None
        }
    }

    pub open spec fn spec_from_json(j: Json) -> Result<PreferredPaymentMethod, DecodeError> {
        match j {
            Json::Str(s) => match PreferredPaymentMethod::spec_from_wire_name(s@) {
                Some(v) => Ok(v),
                None => Err(DecodeError::MalformedResponse),
            },
            _ => Err(DecodeError::MalformedResponse),
        }
    }

    pub fn wire_name(&self) -> (r: &'static str)
        ensures
            r@ == self.spec_wire_name(),
    {
        match self {
            PreferredPaymentMethod::FullPayment => "FULLPAYMENT",
            PreferredPaymentMethod::Split => "SPLIT",
        }
    }

    pub fn from_wire_name(s: &str) -> (r: Option<PreferredPaymentMethod>)
        ensures
            r == PreferredPaymentMethod::spec_from_wire_name(s@),
    {
        if same_text(s, "FULLPAYMENT") {
            Some(PreferredPaymentMethod::FullPayment)
        } else if same_text(s, "SPLIT") {
            Some(PreferredPaymentMethod::Split)
        } else {
            None
        }
    }

    /// The value as a JSON string holding its wire name.
    pub fn to_json(&self) -> (r: Json)
        ensures
            r matches Json::Str(s) && s@ == self.spec_wire_name(),
            PreferredPaymentMethod::read_from(r, *self),
    {
        proof {
            reveal_strlit("FULLPAYMENT");
            reveal_strlit("SPLIT");
            assert("FULLPAYMENT"@.len() == 11);
            assert("SPLIT"@.len() == 5);
        }
        Json::Str(String::from_str(self.wire_name()))
    }

    pub fn from_json(j: &Json) -> (r: Result<PreferredPaymentMethod, DecodeError>)
        ensures
            r == PreferredPaymentMethod::spec_from_json(*j),
    {
        match j {
            Json::Str(s) => match PreferredPaymentMethod::from_wire_name(s.as_str()) {
                Some(v) => Ok(v),
                None => Err(DecodeError::MalformedResponse),
            },
            _ => Err(DecodeError::MalformedResponse),
        }
    }

    /// Whether the JSON value `j` names a value.
    pub open spec fn readable(j: Json) -> bool {
        PreferredPaymentMethod::spec_from_json(j) is Ok
    }

    /// `v` is what the JSON value `j` says.
    pub open spec fn read_from(j: Json, v: PreferredPaymentMethod) -> bool {
        PreferredPaymentMethod::spec_from_json(j) == Ok::<PreferredPaymentMethod, DecodeError>(v)
    }

    /// `j` is what [`Self::to_json`] writes for `v`.
    pub open spec fn writes_as(j: Json, v: PreferredPaymentMethod) -> bool {
        PreferredPaymentMethod::read_from(j, v)
    }
}

/// Where an order was placed.
#[derive(Clone, Copy, Debug, PartialEq, Eq, Hash, Structural)]
pub enum OrderSource {
    Website,
    App,
    Crm,
    CashRegister,
    CmsPlugin,
}

impl OrderSource {
    /// The name of the value on the wire.
    pub open spec fn spec_wire_name(self) -> Seq<char> {
        match self {
            OrderSource::Website => "WEBSITE"@,
            OrderSource::App => "APP"@,
            OrderSource::Crm => "CRM"@,
            OrderSource::CashRegister => "CASH_REGISTER"@,
            OrderSource::CmsPlugin => "CMS_PLUGIN"@,
        }
    }

    pub open spec fn spec_from_wire_name(s: Seq<char>) -> Option<OrderSource> {
        if s == "WEBSITE"@ {
            Some(OrderSource::Website)
        } else if s == "APP"@ {
            Some(OrderSource::App)
        } else if s == "CRM"@ {
            Some(OrderSource::Crm)
        } else if s == "CASH_REGISTER"@ {
            Some(OrderSource::CashRegister)
        } else if s == "CMS_PLUGIN"@ {
            Some(OrderSource::CmsPlugin)
        } else {
            None
        }
    }

    pub open spec fn spec_from_json(j: Json) -> Result<OrderSource, DecodeError> {
        match j {
            Json::Str(s) => match OrderSource::spec_from_wire_name(s@) {
                Some(v) => Ok(v),
                None => Err(DecodeError::MalformedResponse),
            },
            _ => Err(DecodeError::MalformedResponse),
        }
    }

    pub fn wire_name(&self) -> (r: &'static str)
        ensures
            r@ == self.spec_wire_name(),
    {
        match self {
            OrderSource::Website => "WEBSITE",
            OrderSource::App => "APP",
            OrderSource::Crm => "CRM",
            OrderSource::CashRegister => "CASH_REGISTER",
            OrderSource::CmsPlugin => "CMS_PLUGIN",
        }
    }

    pub fn from_wire_name(s: &str) -> (r: Option<OrderSource>)
        ensures
            r == OrderSource::spec_from_wire_name(s@),
    {
        if same_text(s, "WEBSITE") {
            Some(OrderSource::Website)
        } else if same_text(s, "APP") {
            Some(OrderSource::App)
        } else if same_text(s, "CRM") {
            Some(OrderSource::Crm)
        } else if same_text(s, "CASH_REGISTER") {
            Some(OrderSource::CashRegister)
        } else if same_text(s, "CMS_PLUGIN") {
            Some(OrderSource::CmsPlugin)
        } else {
            None
        }
    }

    /// The value as a JSON string holding its wire name.
    pub fn to_json(&self) -> (r: Json)
        ensures
            r matches Json::Str(s) && s@ == self.spec_wire_name(),
            OrderSource::read_from(r, *self),
    {
        proof {
            reveal_strlit("WEBSITE");
            reveal_strlit("APP");
            reveal_strlit("CRM");
            reveal_strlit("CASH_REGISTER");
            reveal_strlit("CMS_PLUGIN");
            assert("WEBSITE"@.len() == 7);
            assert("APP"@.len() == 3);
            assert("CRM"@.len() == 3);
            assert("CASH_REGISTER"@.len() == 13);
            assert("CMS_PLUGIN"@.len() == 10);
            assert("APP"@[0] == 'A');
            assert("CRM"@[0] == 'C');
        }
        Json::Str(String::from_str(self.wire_name()))
    }

    pub fn from_json(j: &Json) -> (r: Result<OrderSource, DecodeError>)
        ensures
            r == OrderSource::spec_from_json(*j),
    {
        match j {
            Json::Str(s) => match OrderSource::from_wire_name(s.as_str()) {
                Some(v) => Ok(v),
                None => Err(DecodeError::MalformedResponse),
            },
            _ => Err(DecodeError::MalformedResponse),
        }
    }

    /// Whether the JSON value `j` names a value.
    pub open spec fn readable(j: Json) -> bool {
        OrderSource::spec_from_json(j) is Ok
    }

    /// `v` is what the JSON value `j` says.
    pub open spec fn read_from(j: Json, v: OrderSource) -> bool {
        OrderSource::spec_from_json(j) == Ok::<OrderSource, DecodeError>(v)
    }

    /// `j` is what [`Self::to_json`] writes for `v`.
    pub open spec fn writes_as(j: Json, v: OrderSource) -> bool {
        OrderSource::read_from(j, v)
    }
}

/// A payment method offered on the payment form.
#[derive(Clone, Copy, Debug, PartialEq, Eq, Hash, Structural)]
pub enum AvailablePaymentMethod {
    Card,
    Split,
}

impl AvailablePaymentMethod {
    /// The name of the value on the wire.
    pub open spec fn spec_wire_name(self) -> Seq<char> {
        match self {
            AvailablePaymentMethod::Card => "CARD"@,
            AvailablePaymentMethod::Split => "SPLIT"@,
        }
    }

    pub open spec fn spec_from_wire_name(s: Seq<char>) -> Option<AvailablePaymentMethod> {
        if s == "CARD"@ {
            Some(AvailablePaymentMethod::Card)
        } else if s == "SPLIT"@ {
            Some(AvailablePaymentMethod::Split)
        } else {
            None
        }
    }

    pub open spec fn spec_from_json(j: Json) -> Result<AvailablePaymentMethod, DecodeError> {
        match j {
            Json::Str(s) => match AvailablePaymentMethod::spec_from_wire_name(s@) {
                Some(v) => Ok(v),
                None => Err(DecodeError::MalformedResponse),
            },
            _ => Err(DecodeError::MalformedResponse),
        }
    }

    pub fn wire_name(&self) -> (r: &'static str)
        ensures
            r@ == self.spec_wire_name(),
    {
        match self {
            AvailablePaymentMethod::Card => "CARD",
            AvailablePaymentMethod::Split => "SPLIT",
        }
    }

    pub fn from_wire_name(s: &str) -> (r: Option<AvailablePaymentMethod>)
        ensures
            r == AvailablePaymentMethod::spec_from_wire_name(s@),
    {
        if same_text(s, "CARD") {
            Some(AvailablePaymentMethod::Card)
        } else if same_text(s, "SPLIT") {
            Some(AvailablePaymentMethod::Split)
        } else {
            None
        }
    }

    /// The value as a JSON string holding its wire name.
    pub fn to_json(&self) -> (r: Json)
        ensures
            r matches Json::Str(s) && s@ == self.spec_wire_name(),
            AvailablePaymentMethod::read_from(r, *self),
    {
        proof {
            reveal_strlit("CARD");
            reveal_strlit("SPLIT");
            assert("CARD"@.len() == 4);
            assert("SPLIT"@.len() == 5);
        }
        Json::Str(String::from_str(self.wire_name()))
    }

    pub fn from_json(j: &Json) -> (r: Result<AvailablePaymentMethod, DecodeError>)
        ensures
            r == AvailablePaymentMethod::spec_from_json(*j),
    {
        match j {
            Json::Str(s) => match AvailablePaymentMethod::from_wire_name(s.as_str()) {
                Some(v) => Ok(v),
                None => Err(DecodeError::MalformedResponse),
            },
            _ => Err(DecodeError::MalformedResponse),
        }
    }

    /// Whether the JSON value `j` names a value.
    pub open spec fn readable(j: Json) -> bool {
        AvailablePaymentMethod::spec_from_json(j) is Ok
    }

    /// `v` is what the JSON value `j` says.
    pub open spec fn read_from(j: Json, v: AvailablePaymentMethod) -> bool {
        AvailablePaymentMethod::spec_from_json(j) == Ok::<AvailablePaymentMethod, DecodeError>(v)
    }

    /// `j` is what [`Self::to_json`] writes for `v`.
    pub open spec fn writes_as(j: Json, v: AvailablePaymentMethod) -> bool {
        AvailablePaymentMethod::read_from(j, v)
    }

    /// `vs` is what the JSON array `j` says, element by element.
    pub open spec fn list_read_from(j: Json, vs: Seq<AvailablePaymentMethod>) -> bool {
        list_holds(Some(j), |e: Json, x: AvailablePaymentMethod| AvailablePaymentMethod::read_from(e, x), vs)
    }

    /// Whether the JSON value `j` is an array whose every element can be read.
    pub open spec fn list_readable(j: Json) -> bool {
        j matches Json::Array(a) && forall|i: int| 0 <= i < a@.len() ==> #[trigger] AvailablePaymentMethod::readable(a@[i])
    }

    /// A JSON array of the values, in order.
    pub fn list_to_json(items: &Vec<AvailablePaymentMethod>) -> (r: Json)
        ensures
            r matches Json::Array(a) && a@.len() == items@.len(),
            AvailablePaymentMethod::list_read_from(r, items@),
            AvailablePaymentMethod::list_writes_as(r, items@),
    {
        let mut out: Vec<Json> = Vec::new();
        let mut i: usize = 0;
        while i < items.len()
            invariant
                i <= items.len(),
                out@.len() == i,
                forall|k: int| 0 <= k < i ==> #[trigger] AvailablePaymentMethod::read_from(out@[k], items@[k]),
                forall|k: int| 0 <= k < i ==> #[trigger] AvailablePaymentMethod::writes_as(out@[k], items@[k]),
            decreases items.len() - i,
        {
            out.push(items[i].to_json());
            i = i + 1;
        }
        Json::Array(out)
    }

    /// `vs` is what [`Self::list_to_json`] writes, element by element.
    pub open spec fn list_writes_as(j: Json, vs: Seq<AvailablePaymentMethod>) -> bool {
        list_holds(Some(j), |e: Json, x: AvailablePaymentMethod| AvailablePaymentMethod::writes_as(e, x), vs)
    }

    /// Reads a JSON array of values, failing on the first that cannot be read.
    pub fn list_from_json(j: &Json) -> (r: Result<Vec<AvailablePaymentMethod>, DecodeError>)
        ensures
            !(*j is Array) ==> r == Err::<Vec<AvailablePaymentMethod>, DecodeError>(DecodeError::MalformedResponse),
            r matches Ok(v) ==> AvailablePaymentMethod::list_read_from(*j, v@),
            r is Ok <==> AvailablePaymentMethod::list_readable(*j),
    {
        match j {
            Json::Array(a) => {
                let mut out: Vec<AvailablePaymentMethod> = Vec::new();
                let mut i: usize = 0;
                while i < a.len()
                    invariant
                        i <= a.len(),
                        out@.len() == i,
                        *j == Json::Array(*a),
                        forall|k: int| 0 <= k < i ==> #[trigger] AvailablePaymentMethod::read_from(a@[k], out@[k]),
                        forall|k: int| 0 <= k < i ==> #[trigger] AvailablePaymentMethod::readable(a@[k]),
                    decreases a.len() - i,
                {
                    match AvailablePaymentMethod::from_json(&a[i]) {
                        Ok(v) => out.push(v),
                        Err(e) => {
                            proof {
                                assert(!AvailablePaymentMethod::readable(a@[i as int]));
                                assert(!AvailablePaymentMethod::list_readable(*j)) by {
                                    if AvailablePaymentMethod::list_readable(*j) {
                                        assert((*j)->Array_0 == *a);
                                        assert(AvailablePaymentMethod::readable((*j)->Array_0@[i as int]));
                                    }
                                }
                            }
                            return Err(e);
                        },
                    }
                    i = i + 1;
                }
                Ok(out)
            },
            _ => Err(DecodeError::MalformedResponse),
        }
    }
}

/// The currency of an order, as its ISO 4217 code.
#[derive(Clone, Copy, Debug, PartialEq, Eq, Hash, Structural)]
pub enum CurrencyCode {
    Rub,
}

impl CurrencyCode {
    /// The name of the value on the wire.
    pub open spec fn spec_wire_name(self) -> Seq<char> {
        match self {
            CurrencyCode::Rub => "RUB"@,
        }
    }

    pub open spec fn spec_from_wire_name(s: Seq<char>) -> Option<CurrencyCode> {
        if s == "RUB"@ {
            Some(CurrencyCode::Rub)
        } else {
            None
        }
    }

    pub open spec fn spec_from_json(j: Json) -> Result<CurrencyCode, DecodeError> {
        match j {
            Json::Str(s) => match CurrencyCode::spec_from_wire_name(s@) {
                Some(v) => Ok(v),
                None => Err(DecodeError::MalformedResponse),
            },
            _ => Err(DecodeError::MalformedResponse),
        }
    }

    pub fn wire_name(&self) -> (r: &'static str)
        ensures
            r@ == self.spec_wire_name(),
    {
        match self {
            CurrencyCode::Rub => "RUB",
        }
    }

    pub fn from_wire_name(s: &str) -> (r: Option<CurrencyCode>)
        ensures
            r == CurrencyCode::spec_from_wire_name(s@),
    {
        if same_text(s, "RUB") {
            Some(CurrencyCode::Rub)
        } else {
            None
        }
    }

    /// The value as a JSON string holding its wire name.
    pub fn to_json(&self) -> (r: Json)
        ensures
            r matches Json::Str(s) && s@ == self.spec_wire_name(),
            CurrencyCode::read_from(r, *self),
    {
        proof {
            reveal_strlit("RUB");
            assert("RUB"@.len() == 3);
        }
        Json::Str(String::from_str(self.wire_name()))
    }

    pub fn from_json(j: &Json) -> (r: Result<CurrencyCode, DecodeError>)
        ensures
            r == CurrencyCode::spec_from_json(*j),
    {
        match j {
            Json::Str(s) => match CurrencyCode::from_wire_name(s.as_str()) {
                Some(v) => Ok(v),
                None => Err(DecodeError::MalformedResponse),
            },
            _ => Err(DecodeError::MalformedResponse),
        }
    }

    /// Whether the JSON value `j` names a value.
    pub open spec fn readable(j: Json) -> bool {
        CurrencyCode::spec_from_json(j) is Ok
    }

    /// `v` is what the JSON value `j` says.
    pub open spec fn read_from(j: Json, v: CurrencyCode) -> bool {
        CurrencyCode::spec_from_json(j) == Ok::<CurrencyCode, DecodeError>(v)
    }

    /// `j` is what [`Self::to_json`] writes for `v`.
    pub open spec fn writes_as(j: Json, v: CurrencyCode) -> bool {
        CurrencyCode::read_from(j, v)
    }
}

impl Default for CurrencyCode {
    fn default() -> (r: CurrencyCode)
        ensures
            r == CurrencyCode::Rub,
    {
        CurrencyCode::Rub
    }
}

/// What the gateway returns for a created order.
#[derive(Clone, Debug, PartialEq)]
pub struct CreateOrderResponse {
    pub payment_url: String,
}

impl CreateOrderResponse {
    /// `v` is what the JSON object `doc` says, field by field.
    pub open spec fn read_from(doc: Json, v: CreateOrderResponse) -> bool {
        &&& doc is Object
        &&& field_holds(member(doc, "paymentUrl"@), |j: Json, x: String| string_value(j) == Ok::<String, DecodeError>(x), v.payment_url)
    }

    /// Whether every field of `doc` can be read: required fields are present,
    /// and every field that is there holds a value of its kind.
    pub open spec fn readable(doc: Json) -> bool {
        &&& doc is Object
        &&& match member(doc, "paymentUrl"@) {
            Some(j) => string_value(j) is Ok,
            None => false,
        }
    }

    /// Reads the value from a JSON object with camelCase keys. A missing or
    /// `null` optional field is unset; members it does not know are ignored.
    pub fn from_json(doc: &Json) -> (r: Result<CreateOrderResponse, DecodeError>)
        ensures
            !(*doc is Object) ==> r == Err::<CreateOrderResponse, DecodeError>(DecodeError::MalformedResponse),
            r matches Ok(v) ==> CreateOrderResponse::read_from(*doc, v),
            r is Ok <==> CreateOrderResponse::readable(*doc),
    {
        if !is_object(doc) {
            return Err(DecodeError::MalformedResponse);
        }
        let payment_url = match get_member(doc, "paymentUrl") {
            Some(j) => match read_string(j) {
                Ok(v) => v,
                Err(e) => return Err(e),
            },
            None => return Err(DecodeError::MalformedResponse),
        };
        Ok(CreateOrderResponse {
            payment_url,
        })
    }
}

} // verus!
