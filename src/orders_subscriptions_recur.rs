//! Charging a subscription again.
use vstd::prelude::*;

use crate::decimal::{decimal_text, Decimal, DecodeError};
use crate::json::{Json, member, field_holds, opt_field_holds, string_value, decimal_string_value, read_string, read_decimal_string, string_json, decimal_string_json, push_field, push_optional, is_object, get_member};
use crate::orders::{CurrencyCode, RenderedCart};

verus! {

/// The body of a request that charges a subscription again.
#[derive(Clone, Debug, PartialEq)]
pub struct CreateRecurrentChargeRequest {
    pub amount: Decimal,
    pub cart: RenderedCart,
    pub currency_code: CurrencyCode,
    pub order_id: String,
    pub parent_order_id: String,
    pub metadata: Option<String>,
    pub purpose: Option<String>,
}

impl CreateRecurrentChargeRequest {
    /// A value with the given fields and every other field at its default:
    /// `currency_code` is `CurrencyCode::Rub`, and the optional fields unset.
    pub fn new(amount: Decimal, cart: RenderedCart, order_id: String, parent_order_id: String) -> (r: CreateRecurrentChargeRequest)
        ensures
            r.amount == amount,
            r.cart == cart,
            r.order_id == order_id,
            r.parent_order_id == parent_order_id,
            r.currency_code == CurrencyCode::Rub,
            r.metadata is None,
            r.purpose is None,
    {
        CreateRecurrentChargeRequest {
            amount,
            cart,
            currency_code: CurrencyCode::Rub,
            order_id,
            parent_order_id,
            metadata: None,
            purpose: None,
        }
    }

    /// `doc` is what [`Self::to_json`] writes for `v`: each field under its
    /// camelCase key, amounts as strings, nested values as they write
    /// themselves, no member at all for an unset optional field or an empty
    /// list that is left out, and no member under any other key.
    pub open spec fn writes_as(doc: Json, v: CreateRecurrentChargeRequest) -> bool {
        &&& doc is Object
        &&& field_holds(member(doc, "amount"@), |j: Json, x: Decimal| j matches Json::Str(t) && t@ == decimal_text(x), v.amount)
        &&& field_holds(member(doc, "cart"@), |j: Json, x: RenderedCart| RenderedCart::writes_as(j, x), v.cart)
        &&& field_holds(member(doc, "currencyCode"@), |j: Json, x: CurrencyCode| CurrencyCode::writes_as(j, x), v.currency_code)
        &&& field_holds(member(doc, "orderId"@), |j: Json, x: String| string_value(j) == Ok::<String, DecodeError>(x), v.order_id)
        &&& field_holds(member(doc, "parentOrderId"@), |j: Json, x: String| string_value(j) == Ok::<String, DecodeError>(x), v.parent_order_id)
        &&& match v.metadata {
            None => member(doc, "metadata"@) is None,
            Some(w) => field_holds(member(doc, "metadata"@), |j: Json, x: String| string_value(j) == Ok::<String, DecodeError>(x), w),
        }
        &&& match v.purpose {
            None => member(doc, "purpose"@) is None,
            Some(w) => field_holds(member(doc, "purpose"@), |j: Json, x: String| string_value(j) == Ok::<String, DecodeError>(x), w),
        }
        &&& forall|k: Seq<char>| #[trigger] member(doc, k) is Some ==> k == "amount"@ || k == "cart"@ || k == "currencyCode"@ || k == "orderId"@ || k == "parentOrderId"@ || k == "metadata"@ || k == "purpose"@
    }

    /// The value as a JSON object with camelCase keys. An unset optional field
    /// is left out, not written as `null`; reading the object back gives the
    /// same value.
    #[verifier::rlimit(40)]
    pub fn to_json(&self) -> (r: Json)
        ensures
            CreateRecurrentChargeRequest::writes_as(r, *self),
            CreateRecurrentChargeRequest::read_from(r, *self),
    {
        let mut ms: Vec<(String, Json)> = Vec::new();
        proof {
            reveal_strlit("amount");
            reveal_strlit("cart");
            reveal_strlit("currencyCode");
            reveal_strlit("orderId");
            reveal_strlit("parentOrderId");
            reveal_strlit("metadata");
            reveal_strlit("purpose");
            assert("amount"@.len() == 6);
            assert("cart"@.len() == 4);
            assert("currencyCode"@.len() == 12);
            assert("orderId"@.len() == 7);
            assert("parentOrderId"@.len() == 13);
            assert("metadata"@.len() == 8);
            assert("purpose"@.len() == 7);
            assert("orderId"@[0] == 'o');
            assert("purpose"@[0] == 'p');
        }
        push_field(&mut ms, "amount", decimal_string_json(*&self.amount));
        push_field(&mut ms, "cart", self.cart.to_json());
        push_field(&mut ms, "currencyCode", self.currency_code.to_json());
        push_field(&mut ms, "orderId", string_json(&self.order_id));
        push_field(&mut ms, "parentOrderId", string_json(&self.parent_order_id));
        push_optional(&mut ms, "metadata", match &self.metadata {
            Some(x) => Some(string_json(x)),
            None => None,
        });
        push_optional(&mut ms, "purpose", match &self.purpose {
            Some(x) => Some(string_json(x)),
            None => None,
        });
        Json::Object(ms)
    }

    /// `v` is what the JSON object `doc` says, field by field.
    pub open spec fn read_from(doc: Json, v: CreateRecurrentChargeRequest) -> bool {
        &&& doc is Object
        &&& field_holds(member(doc, "amount"@), |j: Json, x: Decimal| decimal_string_value(j) == Ok::<Decimal, DecodeError>(x), v.amount)
        &&& field_holds(member(doc, "cart"@), |j: Json, x: RenderedCart| RenderedCart::read_from(j, x), v.cart)
        &&& field_holds(member(doc, "currencyCode"@), |j: Json, x: CurrencyCode| CurrencyCode::read_from(j, x), v.currency_code)
        &&& field_holds(member(doc, "orderId"@), |j: Json, x: String| string_value(j) == Ok::<String, DecodeError>(x), v.order_id)
        &&& field_holds(member(doc, "parentOrderId"@), |j: Json, x: String| string_value(j) == Ok::<String, DecodeError>(x), v.parent_order_id)
        &&& opt_field_holds(member(doc, "metadata"@), |j: Json, x: String| string_value(j) == Ok::<String, DecodeError>(x), v.metadata)
        &&& opt_field_holds(member(doc, "purpose"@), |j: Json, x: String| string_value(j) == Ok::<String, DecodeError>(x), v.purpose)
    }

    /// Whether every field of `doc` can be read: required fields are present,
    /// and every field that is there holds a value of its kind.
    pub open spec fn readable(doc: Json) -> bool {
        &&& doc is Object
        &&& match member(doc, "amount"@) {
            Some(j) => decimal_string_value(j) is Ok,
            None => false,
        }
        &&& match member(doc, "cart"@) {
            Some(j) => RenderedCart::readable(j),
            None => false,
        }
        &&& match member(doc, "currencyCode"@) {
            Some(j) => CurrencyCode::readable(j),
            None => false,
        }
        &&& match member(doc, "orderId"@) {
            Some(j) => string_value(j) is Ok,
            None => false,
        }
        &&& match member(doc, "parentOrderId"@) {
            Some(j) => string_value(j) is Ok,
            None => false,
        }
        &&& match member(doc, "metadata"@) {
            Some(j) => j == Json::Null || string_value(j) is Ok,
            None => true,
        }
        &&& match member(doc, "purpose"@) {
            Some(j) => j == Json::Null || string_value(j) is Ok,
            None => true,
        }
    }

    /// Reads the value from a JSON object with camelCase keys. A missing or
    /// `null` optional field is unset; members it does not know are ignored.
    #[verifier::rlimit(40)]
    pub fn from_json(doc: &Json) -> (r: Result<CreateRecurrentChargeRequest, DecodeError>)
        ensures
            !(*doc is Object) ==> r == Err::<CreateRecurrentChargeRequest, DecodeError>(DecodeError::MalformedResponse),
            r matches Ok(v) ==> CreateRecurrentChargeRequest::read_from(*doc, v),
            r is Ok <==> CreateRecurrentChargeRequest::readable(*doc),
    {
        if !is_object(doc) {
            return Err(DecodeError::MalformedResponse);
        }
        let amount = match get_member(doc, "amount") {
            Some(j) => match read_decimal_string(j) {
                Ok(v) => v,
                Err(e) => return Err(e),
            },
            None => return Err(DecodeError::MalformedResponse),
        };
        let cart = match get_member(doc, "cart") {
            Some(j) => match RenderedCart::from_json(j) {
                Ok(v) => v,
                Err(e) => return Err(e),
            },
            None => return Err(DecodeError::MalformedResponse),
        };
        let currency_code = match get_member(doc, "currencyCode") {
            Some(j) => match CurrencyCode::from_json(j) {
                Ok(v) => v,
                Err(e) => return Err(e),
            },
            None => return Err(DecodeError::MalformedResponse),
        };
        let order_id = match get_member(doc, "orderId") {
            Some(j) => match read_string(j) {
                Ok(v) => v,
                Err(e) => return Err(e),
            },
            None => return Err(DecodeError::MalformedResponse),
        };
        let parent_order_id = match get_member(doc, "parentOrderId") {
            Some(j) => match read_string(j) {
                Ok(v) => v,
                Err(e) => return Err(e),
            },
            None => return Err(DecodeError::MalformedResponse),
        };
        let metadata = match get_member(doc, "metadata") {
            None => None,
            Some(Json::Null) => None,
            Some(j) => match read_string(j) {
                Ok(v) => Some(v),
                Err(e) => return Err(e),
            },
        };
        let purpose = match get_member(doc, "purpose") {
            None => None,
            Some(Json::Null) => None,
            Some(j) => match read_string(j) {
                Ok(v) => Some(v),
                Err(e) => return Err(e),
            },
        };
        Ok(CreateRecurrentChargeRequest {
            amount,
            cart,
            currency_code,
            order_id,
            parent_order_id,
            metadata,
            purpose,
        })
    }
}

/// What the gateway returns for a repeated charge.
#[derive(Clone, Debug, PartialEq)]
pub struct RecurSubscriptionResponseData {
    pub operation_id: String,
}

impl RecurSubscriptionResponseData {
    /// `v` is what the JSON object `doc` says, field by field.
    pub open spec fn read_from(doc: Json, v: RecurSubscriptionResponseData) -> bool {
        &&& doc is Object
        &&& field_holds(member(doc, "operationId"@), |j: Json, x: String| string_value(j) == Ok::<String, DecodeError>(x), v.operation_id)
    }

    /// Whether every field of `doc` can be read: required fields are present,
    /// and every field that is there holds a value of its kind.
    pub open spec fn readable(doc: Json) -> bool {
        &&& doc is Object
        &&& match member(doc, "operationId"@) {
            Some(j) => string_value(j) is Ok,
            None => false,
        }
    }

    /// Reads the value from a JSON object with camelCase keys. A missing or
    /// `null` optional field is unset; members it does not know are ignored.
    pub fn from_json(doc: &Json) -> (r: Result<RecurSubscriptionResponseData, DecodeError>)
        ensures
            !(*doc is Object) ==> r == Err::<RecurSubscriptionResponseData, DecodeError>(DecodeError::MalformedResponse),
            r matches Ok(v) ==> RecurSubscriptionResponseData::read_from(*doc, v),
            r is Ok <==> RecurSubscriptionResponseData::readable(*doc),
    {
        if !is_object(doc) {
            return Err(DecodeError::MalformedResponse);
        }
        let operation_id = match get_member(doc, "operationId") {
            Some(j) => match read_string(j) {
                Ok(v) => v,
                Err(e) => return Err(e),
            },
            None => return Err(DecodeError::MalformedResponse),
        };
        Ok(RecurSubscriptionResponseData {
            operation_id,
        })
    }
}

} // verus!
