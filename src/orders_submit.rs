//! Confirming a payment on delivery.
use vstd::prelude::*;

use crate::decimal::{decimal_text, Decimal, DecodeError};
use crate::json::{Json, member, field_holds, opt_field_holds, string_value, decimal_string_value, read_string, read_decimal_string, string_json, decimal_string_json, push_field, push_optional, is_object, get_member};
use crate::orders_capture::CartWithRequiredTotalWithoutFinalPrice;

verus! {

/// The body of a request that confirms a payment on delivery.
#[derive(Clone, Debug, PartialEq)]
pub struct SubmitRequest {
    pub external_operation_id: String,
    pub cart: Option<CartWithRequiredTotalWithoutFinalPrice>,
    pub order_amount: Option<Decimal>,
}

impl SubmitRequest {
    /// A value with the given fields and every other field at its default:
    /// the optional fields unset.
    pub fn new(external_operation_id: String) -> (r: SubmitRequest)
        ensures
            r.external_operation_id == external_operation_id,
            r.cart is None,
            r.order_amount is None,
    {
        SubmitRequest {
            external_operation_id,
            cart: None,
            order_amount: None,
        }
    }

    /// `doc` is what [`Self::to_json`] writes for `v`: each field under its
    /// camelCase key, amounts as strings, nested values as they write
    /// themselves, no member at all for an unset optional field or an empty
    /// list that is left out, and no member under any other key.
    pub open spec fn writes_as(doc: Json, v: SubmitRequest) -> bool {
        &&& doc is Object
        &&& field_holds(member(doc, "externalOperationId"@), |j: Json, x: String| string_value(j) == Ok::<String, DecodeError>(x), v.external_operation_id)
        &&& match v.cart {
            None => member(doc, "cart"@) is None,
            Some(w) => field_holds(member(doc, "cart"@), |j: Json, x: CartWithRequiredTotalWithoutFinalPrice| CartWithRequiredTotalWithoutFinalPrice::writes_as(j, x), w),
        }
        &&& match v.order_amount {
            None => member(doc, "orderAmount"@) is None,
            Some(w) => field_holds(member(doc, "orderAmount"@), |j: Json, x: Decimal| j matches Json::Str(t) && t@ == decimal_text(x), w),
        }
        &&& forall|k: Seq<char>| #[trigger] member(doc, k) is Some ==> k == "externalOperationId"@ || k == "cart"@ || k == "orderAmount"@
    }

    /// The value as a JSON object with camelCase keys. An unset optional field
    /// is left out, not written as `null`; reading the object back gives the
    /// same value.
    pub fn to_json(&self) -> (r: Json)
        ensures
            SubmitRequest::writes_as(r, *self),
            SubmitRequest::read_from(r, *self),
    {
        let mut ms: Vec<(String, Json)> = Vec::new();
        proof {
            reveal_strlit("externalOperationId");
            reveal_strlit("cart");
            reveal_strlit("orderAmount");
            assert("externalOperationId"@.len() == 19);
            assert("cart"@.len() == 4);
            assert("orderAmount"@.len() == 11);
        }
        push_field(&mut ms, "externalOperationId", string_json(&self.external_operation_id));
        push_optional(&mut ms, "cart", match &self.cart {
            Some(x) => Some(x.to_json()),
            None => None,
        });
        push_optional(&mut ms, "orderAmount", match &self.order_amount {
            Some(x) => Some(decimal_string_json(*x)),
            None => None,
        });
        Json::Object(ms)
    }

    /// `v` is what the JSON object `doc` says, field by field.
    pub open spec fn read_from(doc: Json, v: SubmitRequest) -> bool {
        &&& doc is Object
        &&& field_holds(member(doc, "externalOperationId"@), |j: Json, x: String| string_value(j) == Ok::<String, DecodeError>(x), v.external_operation_id)
        &&& opt_field_holds(member(doc, "cart"@), |j: Json, x: CartWithRequiredTotalWithoutFinalPrice| CartWithRequiredTotalWithoutFinalPrice::read_from(j, x), v.cart)
        &&& opt_field_holds(member(doc, "orderAmount"@), |j: Json, x: Decimal| decimal_string_value(j) == Ok::<Decimal, DecodeError>(x), v.order_amount)
    }

    /// Whether every field of `doc` can be read: required fields are present,
    /// and every field that is there holds a value of its kind.
    pub open spec fn readable(doc: Json) -> bool {
        &&& doc is Object
        &&& match member(doc, "externalOperationId"@) {
            Some(j) => string_value(j) is Ok,
            None => false,
        }
        &&& match member(doc, "cart"@) {
            Some(j) => j == Json::Null || CartWithRequiredTotalWithoutFinalPrice::readable(j),
            None => true,
        }
        &&& match member(doc, "orderAmount"@) {
            Some(j) => j == Json::Null || decimal_string_value(j) is Ok,
            None => true,
        }
    }

    /// Reads the value from a JSON object with camelCase keys. A missing or
    /// `null` optional field is unset; members it does not know are ignored.
    pub fn from_json(doc: &Json) -> (r: Result<SubmitRequest, DecodeError>)
        ensures
            !(*doc is Object) ==> r == Err::<SubmitRequest, DecodeError>(DecodeError::MalformedResponse),
            r matches Ok(v) ==> SubmitRequest::read_from(*doc, v),
            r is Ok <==> SubmitRequest::readable(*doc),
    {
        if !is_object(doc) {
            return Err(DecodeError::MalformedResponse);
        }
        let external_operation_id = match get_member(doc, "externalOperationId") {
            Some(j) => match read_string(j) {
                Ok(v) => v,
                Err(e) => return Err(e),
            },
            None => return Err(DecodeError::MalformedResponse),
        };
        let cart = match get_member(doc, "cart") {
            None => None,
            Some(Json::Null) => None,
            Some(j) => match CartWithRequiredTotalWithoutFinalPrice::from_json(j) {
                Ok(v) => Some(v),
                Err(e) => return Err(e),
            },
        };
        let order_amount = match get_member(doc, "orderAmount") {
            None => None,
            Some(Json::Null) => None,
            Some(j) => match read_decimal_string(j) {
                Ok(v) => Some(v),
                Err(e) => return Err(e),
            },
        };
        Ok(SubmitRequest {
            external_operation_id,
            cart,
            order_amount,
        })
    }
}

} // verus!
