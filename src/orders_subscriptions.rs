//! Creating a subscription.
use vstd::prelude::*;

use crate::decimal::{decimal_text, Decimal, DecodeError};
use crate::json::{Json, member, lookup, lemma_lookup_concat, field_holds, opt_field_holds, string_value, bool_value, decimal_string_value, i32_value, u32_value, read_string, read_bool, read_decimal_string, read_i32, read_u32, string_json, decimal_string_json, integer_json, push_field, push_optional, is_object, get_member, same_text};
use crate::orders::{CurrencyCode, MerchantRedirectUrls, OrderSource, RenderedCart};

verus! {

/// The body of a request that creates a subscription.
#[derive(Clone, Debug, PartialEq)]
pub struct OrderSubscriptionRequest {
    pub currency_code: CurrencyCode,
    pub order_id: String,
    pub cart: Option<RenderedCart>,
    pub future_write_off_amount: Option<Decimal>,
    pub interval_count: Option<i32>,
    pub interval_unit: Option<IntervalUnit>,
    pub is_binding: bool,
    pub metadata: Option<String>,
    pub order_source: Option<OrderSource>,
    pub purpose: Option<String>,
    pub redirect_urls: Option<MerchantRedirectUrls>,
    pub title: Option<String>,
    pub trial_count: Option<i32>,
    pub trial_end_at: Option<String>,
    pub trial_unit: Option<IntervalUnit>,
    pub ttl: Option<u32>,
}

impl OrderSubscriptionRequest {
    /// A value with the given fields and every other field at its default:
    /// `currency_code` is `CurrencyCode::Rub`, `is_binding` is `false`, `ttl` is `Some(1800u32)`, and the optional fields unset.
    pub fn new(order_id: String) -> (r: OrderSubscriptionRequest)
        ensures
            r.order_id == order_id,
            r.currency_code == CurrencyCode::Rub,
            r.cart is None,
            r.future_write_off_amount is None,
            r.interval_count is None,
            r.interval_unit is None,
            r.is_binding == false,
            r.metadata is None,
            r.order_source is None,
            r.purpose is None,
            r.redirect_urls is None,
            r.title is None,
            r.trial_count is None,
            r.trial_end_at is None,
            r.trial_unit is None,
            r.ttl == Some(1800u32),
    {
        OrderSubscriptionRequest {
            currency_code: CurrencyCode::Rub,
            order_id,
            cart: None,
            future_write_off_amount: None,
            interval_count: None,
            interval_unit: None,
            is_binding: false,
            metadata: None,
            order_source: None,
            purpose: None,
            redirect_urls: None,
            title: None,
            trial_count: None,
            trial_end_at: None,
            trial_unit: None,
            ttl: Some(1800u32),
        }
    }

    /// `doc` is what [`Self::to_json`] writes for `v`: each field under its
    /// camelCase key, amounts as strings, nested values as they write
    /// themselves, no member at all for an unset optional field or an empty
    /// list that is left out, and no member under any other key.
    pub open spec fn writes_as(doc: Json, v: OrderSubscriptionRequest) -> bool {
        &&& doc is Object
        &&& field_holds(member(doc, "currencyCode"@), |j: Json, x: CurrencyCode| CurrencyCode::writes_as(j, x), v.currency_code)
        &&& field_holds(member(doc, "orderId"@), |j: Json, x: String| string_value(j) == Ok::<String, DecodeError>(x), v.order_id)
        &&& match v.cart {
            None => member(doc, "cart"@) is None,
            Some(w) => field_holds(member(doc, "cart"@), |j: Json, x: RenderedCart| RenderedCart::writes_as(j, x), w),
        }
        &&& match v.future_write_off_amount {
            None => member(doc, "futureWriteOffAmount"@) is None,
            Some(w) => field_holds(member(doc, "futureWriteOffAmount"@), |j: Json, x: Decimal| j matches Json::Str(t) && t@ == decimal_text(x), w),
        }
        &&& match v.interval_count {
            None => member(doc, "intervalCount"@) is None,
            Some(w) => field_holds(member(doc, "intervalCount"@), |j: Json, x: i32| j matches Json::Number(t) && t@ == decimal_text(Decimal { mantissa: x as i64, scale: 0 }), w),
        }
        &&& match v.interval_unit {
            None => member(doc, "intervalUnit"@) is None,
            Some(w) => field_holds(member(doc, "intervalUnit"@), |j: Json, x: IntervalUnit| IntervalUnit::writes_as(j, x), w),
        }
        &&& field_holds(member(doc, "isBinding"@), |j: Json, x: bool| bool_value(j) == Ok::<bool, DecodeError>(x), v.is_binding)
        &&& match v.metadata {
            None => member(doc, "metadata"@) is None,
            Some(w) => field_holds(member(doc, "metadata"@), |j: Json, x: String| string_value(j) == Ok::<String, DecodeError>(x), w),
        }
        &&& match v.order_source {
            None => member(doc, "orderSource"@) is None,
            Some(w) => field_holds(member(doc, "orderSource"@), |j: Json, x: OrderSource| OrderSource::writes_as(j, x), w),
        }
        &&& match v.purpose {
            None => member(doc, "purpose"@) is None,
            Some(w) => field_holds(member(doc, "purpose"@), |j: Json, x: String| string_value(j) == Ok::<String, DecodeError>(x), w),
        }
        &&& match v.redirect_urls {
            None => member(doc, "redirectUrls"@) is None,
            Some(w) => field_holds(member(doc, "redirectUrls"@), |j: Json, x: MerchantRedirectUrls| MerchantRedirectUrls::writes_as(j, x), w),
        }
        &&& match v.title {
            None => member(doc, "title"@) is None,
            Some(w) => field_holds(member(doc, "title"@), |j: Json, x: String| string_value(j) == Ok::<String, DecodeError>(x), w),
        }
        &&& match v.trial_count {
            None => member(doc, "trialCount"@) is None,
            Some(w) => field_holds(member(doc, "trialCount"@), |j: Json, x: i32| j matches Json::Number(t) && t@ == decimal_text(Decimal { mantissa: x as i64, scale: 0 }), w),
        }
        &&& match v.trial_end_at {
            None => member(doc, "trialEndAt"@) is None,
            Some(w) => field_holds(member(doc, "trialEndAt"@), |j: Json, x: String| string_value(j) == Ok::<String, DecodeError>(x), w),
        }
        &&& match v.trial_unit {
            None => member(doc, "trialUnit"@) is None,
            Some(w) => field_holds(member(doc, "trialUnit"@), |j: Json, x: IntervalUnit| IntervalUnit::writes_as(j, x), w),
        }
        &&& match v.ttl {
            None => member(doc, "ttl"@) is None,
            Some(w) => field_holds(member(doc, "ttl"@), |j: Json, x: u32| j matches Json::Number(t) && t@ == decimal_text(Decimal { mantissa: x as i64, scale: 0 }), w),
        }
        &&& forall|k: Seq<char>| #[trigger] member(doc, k) is Some ==> k == "currencyCode"@ || k == "orderId"@ || k == "cart"@ || k == "futureWriteOffAmount"@ || k == "intervalCount"@ || k == "intervalUnit"@ || k == "isBinding"@ || k == "metadata"@ || k == "orderSource"@ || k == "purpose"@ || k == "redirectUrls"@ || k == "title"@ || k == "trialCount"@ || k == "trialEndAt"@ || k == "trialUnit"@ || k == "ttl"@
    }

    /// The members for `currency_code`, `order_id`, `cart`, `future_write_off_amount`, `interval_count`, `interval_unit`.
    fn members_1(&self) -> (ms: Vec<(String, Json)>)
        ensures
            field_holds(lookup(ms@, "currencyCode"@), |j: Json, x: CurrencyCode| CurrencyCode::writes_as(j, x), self.currency_code),
            field_holds(lookup(ms@, "currencyCode"@), |j: Json, x: CurrencyCode| CurrencyCode::read_from(j, x), self.currency_code),
            field_holds(lookup(ms@, "orderId"@), |j: Json, x: String| string_value(j) == Ok::<String, DecodeError>(x), self.order_id),
            field_holds(lookup(ms@, "orderId"@), |j: Json, x: String| string_value(j) == Ok::<String, DecodeError>(x), self.order_id),
            match self.cart {
                    None => lookup(ms@, "cart"@) is None,
                    Some(w) => field_holds(lookup(ms@, "cart"@), |j: Json, x: RenderedCart| RenderedCart::writes_as(j, x), w),
                },
            opt_field_holds(lookup(ms@, "cart"@), |j: Json, x: RenderedCart| RenderedCart::read_from(j, x), self.cart),
            match self.future_write_off_amount {
                    None => lookup(ms@, "futureWriteOffAmount"@) is None,
                    Some(w) => field_holds(lookup(ms@, "futureWriteOffAmount"@), |j: Json, x: Decimal| j matches Json::Str(t) && t@ == decimal_text(x), w),
                },
            opt_field_holds(lookup(ms@, "futureWriteOffAmount"@), |j: Json, x: Decimal| decimal_string_value(j) == Ok::<Decimal, DecodeError>(x), self.future_write_off_amount),
            match self.interval_count {
                    None => lookup(ms@, "intervalCount"@) is None,
                    Some(w) => field_holds(lookup(ms@, "intervalCount"@), |j: Json, x: i32| j matches Json::Number(t) && t@ == decimal_text(Decimal { mantissa: x as i64, scale: 0 }), w),
                },
            opt_field_holds(lookup(ms@, "intervalCount"@), |j: Json, x: i32| i32_value(j) == Ok::<i32, DecodeError>(x), self.interval_count),
            match self.interval_unit {
                    None => lookup(ms@, "intervalUnit"@) is None,
                    Some(w) => field_holds(lookup(ms@, "intervalUnit"@), |j: Json, x: IntervalUnit| IntervalUnit::writes_as(j, x), w),
                },
            opt_field_holds(lookup(ms@, "intervalUnit"@), |j: Json, x: IntervalUnit| IntervalUnit::read_from(j, x), self.interval_unit),
            forall|k: Seq<char>| #[trigger] lookup(ms@, k) is Some ==> k == "currencyCode"@ || k == "orderId"@ || k == "cart"@ || k == "futureWriteOffAmount"@ || k == "intervalCount"@ || k == "intervalUnit"@,
    {
        let mut ms: Vec<(String, Json)> = Vec::new();
        proof {
            reveal_strlit("currencyCode");
            reveal_strlit("orderId");
            reveal_strlit("cart");
            reveal_strlit("futureWriteOffAmount");
            reveal_strlit("intervalCount");
            reveal_strlit("intervalUnit");
            assert("currencyCode"@.len() == 12);
            assert("orderId"@.len() == 7);
            assert("cart"@.len() == 4);
            assert("futureWriteOffAmount"@.len() == 20);
            assert("intervalCount"@.len() == 13);
            assert("intervalUnit"@.len() == 12);
            assert("currencyCode"@[0] == 'c');
            assert("intervalUnit"@[0] == 'i');
        }
        push_field(&mut ms, "currencyCode", self.currency_code.to_json());
        push_field(&mut ms, "orderId", string_json(&self.order_id));
        push_optional(&mut ms, "cart", match &self.cart {
            Some(x) => Some(x.to_json()),
            None => None,
        });
        push_optional(&mut ms, "futureWriteOffAmount", match &self.future_write_off_amount {
            Some(x) => Some(decimal_string_json(*x)),
            None => None,
        });
        push_optional(&mut ms, "intervalCount", match &self.interval_count {
            Some(x) => Some(integer_json(*x as i64)),
            None => None,
        });
        push_optional(&mut ms, "intervalUnit", match &self.interval_unit {
            Some(x) => Some(x.to_json()),
            None => None,
        });
        ms
    }

    /// The members for `is_binding`, `metadata`, `order_source`, `purpose`, `redirect_urls`, `title`.
    fn members_2(&self) -> (ms: Vec<(String, Json)>)
        ensures
            field_holds(lookup(ms@, "isBinding"@), |j: Json, x: bool| bool_value(j) == Ok::<bool, DecodeError>(x), self.is_binding),
            field_holds(lookup(ms@, "isBinding"@), |j: Json, x: bool| bool_value(j) == Ok::<bool, DecodeError>(x), self.is_binding),
            match self.metadata {
                    None => lookup(ms@, "metadata"@) is None,
                    Some(w) => field_holds(lookup(ms@, "metadata"@), |j: Json, x: String| string_value(j) == Ok::<String, DecodeError>(x), w),
                },
            opt_field_holds(lookup(ms@, "metadata"@), |j: Json, x: String| string_value(j) == Ok::<String, DecodeError>(x), self.metadata),
            match self.order_source {
                    None => lookup(ms@, "orderSource"@) is None,
                    Some(w) => field_holds(lookup(ms@, "orderSource"@), |j: Json, x: OrderSource| OrderSource::writes_as(j, x), w),
                },
            opt_field_holds(lookup(ms@, "orderSource"@), |j: Json, x: OrderSource| OrderSource::read_from(j, x), self.order_source),
            match self.purpose {
                    None => lookup(ms@, "purpose"@) is None,
                    Some(w) => field_holds(lookup(ms@, "purpose"@), |j: Json, x: String| string_value(j) == Ok::<String, DecodeError>(x), w),
                },
            opt_field_holds(lookup(ms@, "purpose"@), |j: Json, x: String| string_value(j) == Ok::<String, DecodeError>(x), self.purpose),
            match self.redirect_urls {
                    None => lookup(ms@, "redirectUrls"@) is None,
                    Some(w) => field_holds(lookup(ms@, "redirectUrls"@), |j: Json, x: MerchantRedirectUrls| MerchantRedirectUrls::writes_as(j, x), w),
                },
            opt_field_holds(lookup(ms@, "redirectUrls"@), |j: Json, x: MerchantRedirectUrls| MerchantRedirectUrls::read_from(j, x), self.redirect_urls),
            match self.title {
                    None => lookup(ms@, "title"@) is None,
                    Some(w) => field_holds(lookup(ms@, "title"@), |j: Json, x: String| string_value(j) == Ok::<String, DecodeError>(x), w),
                },
            opt_field_holds(lookup(ms@, "title"@), |j: Json, x: String| string_value(j) == Ok::<String, DecodeError>(x), self.title),
            forall|k: Seq<char>| #[trigger] lookup(ms@, k) is Some ==> k == "isBinding"@ || k == "metadata"@ || k == "orderSource"@ || k == "purpose"@ || k == "redirectUrls"@ || k == "title"@,
    {
        let mut ms: Vec<(String, Json)> = Vec::new();
        proof {
            reveal_strlit("isBinding");
            reveal_strlit("metadata");
            reveal_strlit("orderSource");
            reveal_strlit("purpose");
            reveal_strlit("redirectUrls");
            reveal_strlit("title");
            assert("isBinding"@.len() == 9);
            assert("metadata"@.len() == 8);
            assert("orderSource"@.len() == 11);
            assert("purpose"@.len() == 7);
            assert("redirectUrls"@.len() == 12);
            assert("title"@.len() == 5);
        }
        push_field(&mut ms, "isBinding", Json::Bool(*&self.is_binding));
        push_optional(&mut ms, "metadata", match &self.metadata {
            Some(x) => Some(string_json(x)),
            None => None,
        });
        push_optional(&mut ms, "orderSource", match &self.order_source {
            Some(x) => Some(x.to_json()),
            None => None,
        });
        push_optional(&mut ms, "purpose", match &self.purpose {
            Some(x) => Some(string_json(x)),
            None => None,
        });
        push_optional(&mut ms, "redirectUrls", match &self.redirect_urls {
            Some(x) => Some(x.to_json()),
            None => None,
        });
        push_optional(&mut ms, "title", match &self.title {
            Some(x) => Some(string_json(x)),
            None => None,
        });
        ms
    }

    /// The members for `trial_count`, `trial_end_at`, `trial_unit`, `ttl`.
    fn members_3(&self) -> (ms: Vec<(String, Json)>)
        ensures
            match self.trial_count {
                    None => lookup(ms@, "trialCount"@) is None,
                    Some(w) => field_holds(lookup(ms@, "trialCount"@), |j: Json, x: i32| j matches Json::Number(t) && t@ == decimal_text(Decimal { mantissa: x as i64, scale: 0 }), w),
                },
            opt_field_holds(lookup(ms@, "trialCount"@), |j: Json, x: i32| i32_value(j) == Ok::<i32, DecodeError>(x), self.trial_count),
            match self.trial_end_at {
                    None => lookup(ms@, "trialEndAt"@) is None,
                    Some(w) => field_holds(lookup(ms@, "trialEndAt"@), |j: Json, x: String| string_value(j) == Ok::<String, DecodeError>(x), w),
                },
            opt_field_holds(lookup(ms@, "trialEndAt"@), |j: Json, x: String| string_value(j) == Ok::<String, DecodeError>(x), self.trial_end_at),
            match self.trial_unit {
                    None => lookup(ms@, "trialUnit"@) is None,
                    Some(w) => field_holds(lookup(ms@, "trialUnit"@), |j: Json, x: IntervalUnit| IntervalUnit::writes_as(j, x), w),
                },
            opt_field_holds(lookup(ms@, "trialUnit"@), |j: Json, x: IntervalUnit| IntervalUnit::read_from(j, x), self.trial_unit),
            match self.ttl {
                    None => lookup(ms@, "ttl"@) is None,
                    Some(w) => field_holds(lookup(ms@, "ttl"@), |j: Json, x: u32| j matches Json::Number(t) && t@ == decimal_text(Decimal { mantissa: x as i64, scale: 0 }), w),
                },
            opt_field_holds(lookup(ms@, "ttl"@), |j: Json, x: u32| u32_value(j) == Ok::<u32, DecodeError>(x), self.ttl),
            forall|k: Seq<char>| #[trigger] lookup(ms@, k) is Some ==> k == "trialCount"@ || k == "trialEndAt"@ || k == "trialUnit"@ || k == "ttl"@,
    {
        let mut ms: Vec<(String, Json)> = Vec::new();
        proof {
            reveal_strlit("trialCount");
            reveal_strlit("trialEndAt");
            reveal_strlit("trialUnit");
            reveal_strlit("ttl");
            assert("trialCount"@.len() == 10);
            assert("trialEndAt"@.len() == 10);
            assert("trialUnit"@.len() == 9);
            assert("ttl"@.len() == 3);
            assert("trialCount"@[5] == 'C');
            assert("trialEndAt"@[5] == 'E');
        }
        push_optional(&mut ms, "trialCount", match &self.trial_count {
            Some(x) => Some(integer_json(*x as i64)),
            None => None,
        });
        push_optional(&mut ms, "trialEndAt", match &self.trial_end_at {
            Some(x) => Some(string_json(x)),
            None => None,
        });
        push_optional(&mut ms, "trialUnit", match &self.trial_unit {
            Some(x) => Some(x.to_json()),
            None => None,
        });
        push_optional(&mut ms, "ttl", match &self.ttl {
            Some(x) => Some(integer_json(*x as i64)),
            None => None,
        });
        ms
    }

    /// The value as a JSON object with camelCase keys. An unset optional field
    /// is left out, not written as `null`; reading the object back gives the
    /// same value.
    #[verifier::spinoff_prover]
    #[verifier::rlimit(100)]
    pub fn to_json(&self) -> (r: Json)
        ensures
            OrderSubscriptionRequest::writes_as(r, *self),
            OrderSubscriptionRequest::read_from(r, *self),
    {
        let mut ms = self.members_1();
        proof {
            reveal_strlit("currencyCode");
            reveal_strlit("orderId");
            reveal_strlit("cart");
            reveal_strlit("futureWriteOffAmount");
            reveal_strlit("intervalCount");
            reveal_strlit("intervalUnit");
            reveal_strlit("isBinding");
            reveal_strlit("metadata");
            reveal_strlit("orderSource");
            reveal_strlit("purpose");
            reveal_strlit("redirectUrls");
            reveal_strlit("title");
            reveal_strlit("trialCount");
            reveal_strlit("trialEndAt");
            reveal_strlit("trialUnit");
            reveal_strlit("ttl");
            assert("currencyCode"@.len() == 12);
            assert("orderId"@.len() == 7);
            assert("cart"@.len() == 4);
            assert("futureWriteOffAmount"@.len() == 20);
            assert("intervalCount"@.len() == 13);
            assert("intervalUnit"@.len() == 12);
            assert("isBinding"@.len() == 9);
            assert("metadata"@.len() == 8);
            assert("orderSource"@.len() == 11);
            assert("purpose"@.len() == 7);
            assert("redirectUrls"@.len() == 12);
            assert("title"@.len() == 5);
            assert("trialCount"@.len() == 10);
            assert("trialEndAt"@.len() == 10);
            assert("trialUnit"@.len() == 9);
            assert("ttl"@.len() == 3);
            assert("currencyCode"@[0] == 'c');
            assert("intervalUnit"@[0] == 'i');
            assert("isBinding"@[0] == 'i');
            assert("orderId"@[0] == 'o');
            assert("purpose"@[0] == 'p');
            assert("redirectUrls"@[0] == 'r');
            assert("trialCount"@[5] == 'C');
            assert("trialEndAt"@[5] == 'E');
            assert("trialUnit"@[0] == 't');
        }
        let ghost a = ms@;
        let mut rest = self.members_2();
        let ghost b = rest@;
        ms.append(&mut rest);
        assert forall|k: Seq<char>| #[trigger] lookup(ms@, k) == (if lookup(a, k) is Some {
            lookup(a, k)
        } else {
            lookup(b, k)
        }) by {
            lemma_lookup_concat(a, b, k);
        }
        let ghost a = ms@;
        let mut rest = self.members_3();
        let ghost b = rest@;
        ms.append(&mut rest);
        assert forall|k: Seq<char>| #[trigger] lookup(ms@, k) == (if lookup(a, k) is Some {
            lookup(a, k)
        } else {
            lookup(b, k)
        }) by {
            lemma_lookup_concat(a, b, k);
        }
        Json::Object(ms)
    }

    /// `v` is what the JSON object `doc` says, field by field.
    pub open spec fn read_from(doc: Json, v: OrderSubscriptionRequest) -> bool {
        &&& doc is Object
        &&& field_holds(member(doc, "currencyCode"@), |j: Json, x: CurrencyCode| CurrencyCode::read_from(j, x), v.currency_code)
        &&& field_holds(member(doc, "orderId"@), |j: Json, x: String| string_value(j) == Ok::<String, DecodeError>(x), v.order_id)
        &&& opt_field_holds(member(doc, "cart"@), |j: Json, x: RenderedCart| RenderedCart::read_from(j, x), v.cart)
        &&& opt_field_holds(member(doc, "futureWriteOffAmount"@), |j: Json, x: Decimal| decimal_string_value(j) == Ok::<Decimal, DecodeError>(x), v.future_write_off_amount)
        &&& opt_field_holds(member(doc, "intervalCount"@), |j: Json, x: i32| i32_value(j) == Ok::<i32, DecodeError>(x), v.interval_count)
        &&& opt_field_holds(member(doc, "intervalUnit"@), |j: Json, x: IntervalUnit| IntervalUnit::read_from(j, x), v.interval_unit)
        &&& field_holds(member(doc, "isBinding"@), |j: Json, x: bool| bool_value(j) == Ok::<bool, DecodeError>(x), v.is_binding)
        &&& opt_field_holds(member(doc, "metadata"@), |j: Json, x: String| string_value(j) == Ok::<String, DecodeError>(x), v.metadata)
        &&& opt_field_holds(member(doc, "orderSource"@), |j: Json, x: OrderSource| OrderSource::read_from(j, x), v.order_source)
        &&& opt_field_holds(member(doc, "purpose"@), |j: Json, x: String| string_value(j) == Ok::<String, DecodeError>(x), v.purpose)
        &&& opt_field_holds(member(doc, "redirectUrls"@), |j: Json, x: MerchantRedirectUrls| MerchantRedirectUrls::read_from(j, x), v.redirect_urls)
        &&& opt_field_holds(member(doc, "title"@), |j: Json, x: String| string_value(j) == Ok::<String, DecodeError>(x), v.title)
        &&& opt_field_holds(member(doc, "trialCount"@), |j: Json, x: i32| i32_value(j) == Ok::<i32, DecodeError>(x), v.trial_count)
        &&& opt_field_holds(member(doc, "trialEndAt"@), |j: Json, x: String| string_value(j) == Ok::<String, DecodeError>(x), v.trial_end_at)
        &&& opt_field_holds(member(doc, "trialUnit"@), |j: Json, x: IntervalUnit| IntervalUnit::read_from(j, x), v.trial_unit)
        &&& opt_field_holds(member(doc, "ttl"@), |j: Json, x: u32| u32_value(j) == Ok::<u32, DecodeError>(x), v.ttl)
    }

    /// Whether every field of `doc` can be read: required fields are present,
    /// and every field that is there holds a value of its kind.
    pub open spec fn readable(doc: Json) -> bool {
        &&& doc is Object
        &&& match member(doc, "currencyCode"@) {
            Some(j) => CurrencyCode::readable(j),
            None => false,
        }
        &&& match member(doc, "orderId"@) {
            Some(j) => string_value(j) is Ok,
            None => false,
        }
        &&& match member(doc, "cart"@) {
            Some(j) => j == Json::Null || RenderedCart::readable(j),
            None => true,
        }
        &&& match member(doc, "futureWriteOffAmount"@) {
            Some(j) => j == Json::Null || decimal_string_value(j) is Ok,
            None => true,
        }
        &&& match member(doc, "intervalCount"@) {
            Some(j) => j == Json::Null || i32_value(j) is Ok,
            None => true,
        }
        &&& match member(doc, "intervalUnit"@) {
            Some(j) => j == Json::Null || IntervalUnit::readable(j),
            None => true,
        }
        &&& match member(doc, "isBinding"@) {
            Some(j) => bool_value(j) is Ok,
            None => false,
        }
        &&& match member(doc, "metadata"@) {
            Some(j) => j == Json::Null || string_value(j) is Ok,
            None => true,
        }
        &&& match member(doc, "orderSource"@) {
            Some(j) => j == Json::Null || OrderSource::readable(j),
            None => true,
        }
        &&& match member(doc, "purpose"@) {
            Some(j) => j == Json::Null || string_value(j) is Ok,
            None => true,
        }
        &&& match member(doc, "redirectUrls"@) {
            Some(j) => j == Json::Null || MerchantRedirectUrls::readable(j),
            None => true,
        }
        &&& match member(doc, "title"@) {
            Some(j) => j == Json::Null || string_value(j) is Ok,
            None => true,
        }
        &&& match member(doc, "trialCount"@) {
            Some(j) => j == Json::Null || i32_value(j) is Ok,
            None => true,
        }
        &&& match member(doc, "trialEndAt"@) {
            Some(j) => j == Json::Null || string_value(j) is Ok,
            None => true,
        }
        &&& match member(doc, "trialUnit"@) {
            Some(j) => j == Json::Null || IntervalUnit::readable(j),
            None => true,
        }
        &&& match member(doc, "ttl"@) {
            Some(j) => j == Json::Null || u32_value(j) is Ok,
            None => true,
        }
    }

    /// Reads the value from a JSON object with camelCase keys. A missing or
    /// `null` optional field is unset; members it does not know are ignored.
    #[verifier::spinoff_prover]
    #[verifier::rlimit(100)]
    pub fn from_json(doc: &Json) -> (r: Result<OrderSubscriptionRequest, DecodeError>)
        ensures
            !(*doc is Object) ==> r == Err::<OrderSubscriptionRequest, DecodeError>(DecodeError::MalformedResponse),
            r matches Ok(v) ==> OrderSubscriptionRequest::read_from(*doc, v),
            r is Ok <==> OrderSubscriptionRequest::readable(*doc),
    {
        if !is_object(doc) {
            return Err(DecodeError::MalformedResponse);
        }
        let currency_code = match get_member(doc, "currencyCode") {
            Some(j) => match CurrencyCode::from_json(j) {
                Ok(v) => v,
                Err(e) => return Err(e),
            },
            None => return Err(DecodeError::MalformedResponse),
        };
        let order_id = match get_member(doc, "orderId") {
            Some(j) => match read_string(j) {
                Ok(v) => v,
                Err(e) => return Err(e),
            },
            None => return Err(DecodeError::MalformedResponse),
        };
        let cart = match get_member(doc, "cart") {
            None => None,
            Some(Json::Null) => None,
            Some(j) => match RenderedCart::from_json(j) {
                Ok(v) => Some(v),
                Err(e) => return Err(e),
            },
        };
        let future_write_off_amount = match get_member(doc, "futureWriteOffAmount") {
            None => None,
            Some(Json::Null) => None,
            Some(j) => match read_decimal_string(j) {
                Ok(v) => Some(v),
                Err(e) => return Err(e),
            },
        };
        let interval_count = match get_member(doc, "intervalCount") {
            None => None,
            Some(Json::Null) => None,
            Some(j) => match read_i32(j) {
                Ok(v) => Some(v),
                Err(e) => return Err(e),
            },
        };
        let interval_unit = match get_member(doc, "intervalUnit") {
            None => None,
            Some(Json::Null) => None,
            Some(j) => match IntervalUnit::from_json(j) {
                Ok(v) => Some(v),
                Err(e) => return Err(e),
            },
        };
        let is_binding = match get_member(doc, "isBinding") {
            Some(j) => match read_bool(j) {
                Ok(v) => v,
                Err(e) => return Err(e),
            },
            None => return Err(DecodeError::MalformedResponse),
        };
        let metadata = match get_member(doc, "metadata") {
            None => None,
            Some(Json::Null) => None,
            Some(j) => match read_string(j) {
                Ok(v) => Some(v),
                Err(e) => return Err(e),
            },
        };
        let order_source = match get_member(doc, "orderSource") {
            None => None,
            Some(Json::Null) => None,
            Some(j) => match OrderSource::from_json(j) {
                Ok(v) => Some(v),
                Err(e) => return Err(e),
            },
        };
        let purpose = match get_member(doc, "purpose") {
            None => None,
            Some(Json::Null) => None,
            Some(j) => match read_string(j) {
                Ok(v) => Some(v),
                Err(e) => return Err(e),
            },
        };
        let redirect_urls = match get_member(doc, "redirectUrls") {
            None => None,
            Some(Json::Null) => None,
            Some(j) => match MerchantRedirectUrls::from_json(j) {
                Ok(v) => Some(v),
                Err(e) => return Err(e),
            },
        };
        let title = match get_member(doc, "title") {
            None => None,
            Some(Json::Null) => None,
            Some(j) => match read_string(j) {
                Ok(v) => Some(v),
                Err(e) => return Err(e),
            },
        };
        let trial_count = match get_member(doc, "trialCount") {
            None => None,
            Some(Json::Null) => None,
            Some(j) => match read_i32(j) {
                Ok(v) => Some(v),
                Err(e) => return Err(e),
            },
        };
        let trial_end_at = match get_member(doc, "trialEndAt") {
            None => None,
            Some(Json::Null) => None,
            Some(j) => match read_string(j) {
                Ok(v) => Some(v),
                Err(e) => return Err(e),
            },
        };
        let trial_unit = match get_member(doc, "trialUnit") {
            None => None,
            Some(Json::Null) => None,
            Some(j) => match IntervalUnit::from_json(j) {
                Ok(v) => Some(v),
                Err(e) => return Err(e),
            },
        };
        let ttl = match get_member(doc, "ttl") {
            None => None,
            Some(Json::Null) => None,
            Some(j) => match read_u32(j) {
                Ok(v) => Some(v),
                Err(e) => return Err(e),
            },
        };
        Ok(OrderSubscriptionRequest {
            currency_code,
            order_id,
            cart,
            future_write_off_amount,
            interval_count,
            interval_unit,
            is_binding,
            metadata,
            order_source,
            purpose,
            redirect_urls,
            title,
            trial_count,
            trial_end_at,
            trial_unit,
            ttl,
        })
    }
}

/// The unit of a subscription period.
#[derive(Clone, Copy, Debug, PartialEq, Eq, Hash, Structural)]
pub enum IntervalUnit {
    Second,
    Day,
    Week,
    Month,
    Year,
}

impl IntervalUnit {
    /// The name of the value on the wire.
    pub open spec fn spec_wire_name(self) -> Seq<char> {
        match self {
            IntervalUnit::Second => "SECOND"@,
            IntervalUnit::Day => "DAY"@,
            IntervalUnit::Week => "WEEK"@,
            IntervalUnit::Month => "MONTH"@,
            IntervalUnit::Year => "YEAR"@,
        }
    }

    pub open spec fn spec_from_wire_name(s: Seq<char>) -> Option<IntervalUnit> {
        if s == "SECOND"@ {
            Some(IntervalUnit::Second)
        } else if s == "DAY"@ {
            Some(IntervalUnit::Day)
        } else if s == "WEEK"@ {
            Some(IntervalUnit::Week)
        } else if s == "MONTH"@ {
            Some(IntervalUnit::Month)
        } else if s == "YEAR"@ {
            Some(IntervalUnit::Year)
        } else {
            None
        }
    }

    pub open spec fn spec_from_json(j: Json) -> Result<IntervalUnit, DecodeError> {
        match j {
            Json::Str(s) => match IntervalUnit::spec_from_wire_name(s@) {
                Some(v) => Ok(v),
                None => Err(DecodeError::MalformedResponse),
            },
            _ => Err(DecodeError::MalformedResponse),
        }
    }

    pub fn wire_name(&self) -> (r: &'static str)
        ensures
            r@ == self.spec_wire_name(),
    {
        match self {
            IntervalUnit::Second => "SECOND",
            IntervalUnit::Day => "DAY",
            IntervalUnit::Week => "WEEK",
            IntervalUnit::Month => "MONTH",
            IntervalUnit::Year => "YEAR",
        }
    }

    pub fn from_wire_name(s: &str) -> (r: Option<IntervalUnit>)
        ensures
            r == IntervalUnit::spec_from_wire_name(s@),
    {
        if same_text(s, "SECOND") {
            Some(IntervalUnit::Second)
        } else if same_text(s, "DAY") {
            Some(IntervalUnit::Day)
        } else if same_text(s, "WEEK") {
            Some(IntervalUnit::Week)
        } else if same_text(s, "MONTH") {
            Some(IntervalUnit::Month)
        } else if same_text(s, "YEAR") {
            Some(IntervalUnit::Year)
        } else {
            None
        }
    }

    /// The value as a JSON string holding its wire name.
    pub fn to_json(&self) -> (r: Json)
        ensures
            r matches Json::Str(s) && s@ == self.spec_wire_name(),
            IntervalUnit::read_from(r, *self),
    {
        proof {
            reveal_strlit("SECOND");
            reveal_strlit("DAY");
            reveal_strlit("WEEK");
            reveal_strlit("MONTH");
            reveal_strlit("YEAR");
            assert("SECOND"@.len() == 6);
            assert("DAY"@.len() == 3);
            assert("WEEK"@.len() == 4);
            assert("MONTH"@.len() == 5);
            assert("YEAR"@.len() == 4);
            assert("WEEK"@[0] == 'W');
            assert("YEAR"@[0] == 'Y');
        }
        Json::Str(String::from_str(self.wire_name()))
    }

    pub fn from_json(j: &Json) -> (r: Result<IntervalUnit, DecodeError>)
        ensures
            r == IntervalUnit::spec_from_json(*j),
    {
        match j {
            Json::Str(s) => match IntervalUnit::from_wire_name(s.as_str()) {
                Some(v) => Ok(v),
                None => Err(DecodeError::MalformedResponse),
            },
            _ => Err(DecodeError::MalformedResponse),
        }
    }

    /// Whether the JSON value `j` names a value.
    pub open spec fn readable(j: Json) -> bool {
        IntervalUnit::spec_from_json(j) is Ok
    }

    /// `v` is what the JSON value `j` says.
    pub open spec fn read_from(j: Json, v: IntervalUnit) -> bool {
        IntervalUnit::spec_from_json(j) == Ok::<IntervalUnit, DecodeError>(v)
    }

    /// `j` is what [`Self::to_json`] writes for `v`.
    pub open spec fn writes_as(j: Json, v: IntervalUnit) -> bool {
        IntervalUnit::read_from(j, v)
    }
}

} // verus!
