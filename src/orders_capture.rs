//! Capturing a payment with the final cart.
use vstd::prelude::*;

use crate::decimal::{decimal_text, Decimal, DecodeError};
use crate::json::{Json, member, lookup, lemma_lookup_concat, field_holds, opt_field_holds, list_holds, list_or_empty_holds, string_value, decimal_string_value, read_string, read_decimal_string, string_json, decimal_string_json, push_field, push_optional, is_object, get_member, same_text};
use crate::orders::{CartItemFeatures, CartTotal, ItemQuantity, ItemReceipt};
use crate::orders_id::{CartItemType, Coupon, Discount, Measurements, ShippingMethodType};

verus! {

/// The body of a request that captures an authorized payment.
#[derive(Clone, Debug, PartialEq)]
pub struct CaptureOrderRequest {
    pub cart: CartWithRequiredTotalWithoutFinalPrice,
    pub external_operation_id: String,
    pub order_amount: Option<Decimal>,
    pub shipping: ShippingPrice,
}

impl CaptureOrderRequest {
    /// A value with the given fields and every other field at its default:
    /// the optional fields unset.
    pub fn new(cart: CartWithRequiredTotalWithoutFinalPrice, external_operation_id: String, shipping: ShippingPrice) -> (r: CaptureOrderRequest)
        ensures
            r.cart == cart,
            r.external_operation_id == external_operation_id,
            r.shipping == shipping,
            r.order_amount is None,
    {
        CaptureOrderRequest {
            cart,
            external_operation_id,
            order_amount: None,
            shipping,
        }
    }

    /// `doc` is what [`Self::to_json`] writes for `v`: each field under its
    /// camelCase key, amounts as strings, nested values as they write
    /// themselves, no member at all for an unset optional field or an empty
    /// list that is left out, and no member under any other key.
    pub open spec fn writes_as(doc: Json, v: CaptureOrderRequest) -> bool {
        &&& doc is Object
        &&& field_holds(member(doc, "cart"@), |j: Json, x: CartWithRequiredTotalWithoutFinalPrice| CartWithRequiredTotalWithoutFinalPrice::writes_as(j, x), v.cart)
        &&& field_holds(member(doc, "externalOperationId"@), |j: Json, x: String| string_value(j) == Ok::<String, DecodeError>(x), v.external_operation_id)
        &&& match v.order_amount {
            None => member(doc, "orderAmount"@) is None,
            Some(w) => field_holds(member(doc, "orderAmount"@), |j: Json, x: Decimal| j matches Json::Str(t) && t@ == decimal_text(x), w),
        }
        &&& field_holds(member(doc, "shipping"@), |j: Json, x: ShippingPrice| ShippingPrice::writes_as(j, x), v.shipping)
        &&& forall|k: Seq<char>| #[trigger] member(doc, k) is Some ==> k == "cart"@ || k == "externalOperationId"@ || k == "orderAmount"@ || k == "shipping"@
    }

    /// The value as a JSON object with camelCase keys. An unset optional field
    /// is left out, not written as `null`; reading the object back gives the
    /// same value.
    pub fn to_json(&self) -> (r: Json)
        ensures
            CaptureOrderRequest::writes_as(r, *self),
            CaptureOrderRequest::read_from(r, *self),
    {
        let mut ms: Vec<(String, Json)> = Vec::new();
        proof {
            reveal_strlit("cart");
            reveal_strlit("externalOperationId");
            reveal_strlit("orderAmount");
            reveal_strlit("shipping");
            assert("cart"@.len() == 4);
            assert("externalOperationId"@.len() == 19);
            assert("orderAmount"@.len() == 11);
            assert("shipping"@.len() == 8);
        }
        push_field(&mut ms, "cart", self.cart.to_json());
        push_field(&mut ms, "externalOperationId", string_json(&self.external_operation_id));
        push_optional(&mut ms, "orderAmount", match &self.order_amount {
            Some(x) => Some(decimal_string_json(*x)),
            None => None,
        });
        push_field(&mut ms, "shipping", self.shipping.to_json());
        Json::Object(ms)
    }

    /// `v` is what the JSON object `doc` says, field by field.
    pub open spec fn read_from(doc: Json, v: CaptureOrderRequest) -> bool {
        &&& doc is Object
        &&& field_holds(member(doc, "cart"@), |j: Json, x: CartWithRequiredTotalWithoutFinalPrice| CartWithRequiredTotalWithoutFinalPrice::read_from(j, x), v.cart)
        &&& field_holds(member(doc, "externalOperationId"@), |j: Json, x: String| string_value(j) == Ok::<String, DecodeError>(x), v.external_operation_id)
        &&& opt_field_holds(member(doc, "orderAmount"@), |j: Json, x: Decimal| decimal_string_value(j) == Ok::<Decimal, DecodeError>(x), v.order_amount)
        &&& field_holds(member(doc, "shipping"@), |j: Json, x: ShippingPrice| ShippingPrice::read_from(j, x), v.shipping)
    }

    /// Whether every field of `doc` can be read: required fields are present,
    /// and every field that is there holds a value of its kind.
    pub open spec fn readable(doc: Json) -> bool {
        &&& doc is Object
        &&& match member(doc, "cart"@) {
            Some(j) => CartWithRequiredTotalWithoutFinalPrice::readable(j),
            None => false,
        }
        &&& match member(doc, "externalOperationId"@) {
            Some(j) => string_value(j) is Ok,
            None => false,
        }
        &&& match member(doc, "orderAmount"@) {
            Some(j) => j == Json::Null || decimal_string_value(j) is Ok,
            None => true,
        }
        &&& match member(doc, "shipping"@) {
            Some(j) => ShippingPrice::readable(j),
            None => false,
        }
    }

    /// Reads the value from a JSON object with camelCase keys. A missing or
    /// `null` optional field is unset; members it does not know are ignored.
    pub fn from_json(doc: &Json) -> (r: Result<CaptureOrderRequest, DecodeError>)
        ensures
            !(*doc is Object) ==> r == Err::<CaptureOrderRequest, DecodeError>(DecodeError::MalformedResponse),
            r matches Ok(v) ==> CaptureOrderRequest::read_from(*doc, v),
            r is Ok <==> CaptureOrderRequest::readable(*doc),
    {
        if !is_object(doc) {
            return Err(DecodeError::MalformedResponse);
        }
        let cart = match get_member(doc, "cart") {
            Some(j) => match CartWithRequiredTotalWithoutFinalPrice::from_json(j) {
                Ok(v) => v,
                Err(e) => return Err(e),
            },
            None => return Err(DecodeError::MalformedResponse),
        };
        let external_operation_id = match get_member(doc, "externalOperationId") {
            Some(j) => match read_string(j) {
                Ok(v) => v,
                Err(e) => return Err(e),
            },
            None => return Err(DecodeError::MalformedResponse),
        };
        let order_amount = match get_member(doc, "orderAmount") {
            None => None,
            Some(Json::Null) => None,
            Some(j) => match read_decimal_string(j) {
                Ok(v) => Some(v),
                Err(e) => return Err(e),
            },
        };
        let shipping = match get_member(doc, "shipping") {
            Some(j) => match ShippingPrice::from_json(j) {
                Ok(v) => v,
                Err(e) => return Err(e),
            },
            None => return Err(DecodeError::MalformedResponse),
        };
        Ok(CaptureOrderRequest {
            cart,
            external_operation_id,
            order_amount,
            shipping,
        })
    }
}

/// The price of delivery and how it is made.
#[derive(Clone, Debug, PartialEq)]
pub struct ShippingPrice {
    pub amount: Decimal,
    pub method_type: ShippingMethodType,
}

impl ShippingPrice {
    /// A value with the given fields and every other field at its default:
    /// the optional fields unset.
    pub fn new(amount: Decimal, method_type: ShippingMethodType) -> (r: ShippingPrice)
        ensures
            r.amount == amount,
            r.method_type == method_type,
    {
        ShippingPrice {
            amount,
            method_type,
        }
    }

    /// `doc` is what [`Self::to_json`] writes for `v`: each field under its
    /// camelCase key, amounts as strings, nested values as they write
    /// themselves, no member at all for an unset optional field or an empty
    /// list that is left out, and no member under any other key.
    pub open spec fn writes_as(doc: Json, v: ShippingPrice) -> bool {
        &&& doc is Object
        &&& field_holds(member(doc, "amount"@), |j: Json, x: Decimal| j matches Json::Str(t) && t@ == decimal_text(x), v.amount)
        &&& field_holds(member(doc, "methodType"@), |j: Json, x: ShippingMethodType| ShippingMethodType::writes_as(j, x), v.method_type)
        &&& forall|k: Seq<char>| #[trigger] member(doc, k) is Some ==> k == "amount"@ || k == "methodType"@
    }

    /// The value as a JSON object with camelCase keys. An unset optional field
    /// is left out, not written as `null`; reading the object back gives the
    /// same value.
    pub fn to_json(&self) -> (r: Json)
        ensures
            ShippingPrice::writes_as(r, *self),
            ShippingPrice::read_from(r, *self),
    {
        let mut ms: Vec<(String, Json)> = Vec::new();
        proof {
            reveal_strlit("amount");
            reveal_strlit("methodType");
            assert("amount"@.len() == 6);
            assert("methodType"@.len() == 10);
        }
        push_field(&mut ms, "amount", decimal_string_json(*&self.amount));
        push_field(&mut ms, "methodType", self.method_type.to_json());
        Json::Object(ms)
    }

    /// `v` is what the JSON object `doc` says, field by field.
    pub open spec fn read_from(doc: Json, v: ShippingPrice) -> bool {
        &&& doc is Object
        &&& field_holds(member(doc, "amount"@), |j: Json, x: Decimal| decimal_string_value(j) == Ok::<Decimal, DecodeError>(x), v.amount)
        &&& field_holds(member(doc, "methodType"@), |j: Json, x: ShippingMethodType| ShippingMethodType::read_from(j, x), v.method_type)
    }

    /// Whether every field of `doc` can be read: required fields are present,
    /// and every field that is there holds a value of its kind.
    pub open spec fn readable(doc: Json) -> bool {
        &&& doc is Object
        &&& match member(doc, "amount"@) {
            Some(j) => decimal_string_value(j) is Ok,
            None => false,
        }
        &&& match member(doc, "methodType"@) {
            Some(j) => ShippingMethodType::readable(j),
            None => false,
        }
    }

    /// Reads the value from a JSON object with camelCase keys. A missing or
    /// `null` optional field is unset; members it does not know are ignored.
    pub fn from_json(doc: &Json) -> (r: Result<ShippingPrice, DecodeError>)
        ensures
            !(*doc is Object) ==> r == Err::<ShippingPrice, DecodeError>(DecodeError::MalformedResponse),
            r matches Ok(v) ==> ShippingPrice::read_from(*doc, v),
            r is Ok <==> ShippingPrice::readable(*doc),
    {
        if !is_object(doc) {
            return Err(DecodeError::MalformedResponse);
        }
        let amount = match get_member(doc, "amount") {
            Some(j) => match read_decimal_string(j) {
                Ok(v) => v,
                Err(e) => return Err(e),
            },
            None => return Err(DecodeError::MalformedResponse),
        };
        let method_type = match get_member(doc, "methodType") {
            Some(j) => match ShippingMethodType::from_json(j) {
                Ok(v) => v,
                Err(e) => return Err(e),
            },
            None => return Err(DecodeError::MalformedResponse),
        };
        Ok(ShippingPrice {
            amount,
            method_type,
        })
    }
}

/// The final cart of a captured or submitted order.
#[derive(Clone, Debug, PartialEq)]
pub struct CartWithRequiredTotalWithoutFinalPrice {
    pub items: Vec<CartItemWithoutFinalPriceCamelCase>,
    pub total: CartTotal,
    pub cart_id: String,
    pub coupons: Vec<Coupon>,
    pub discounts: Vec<Discount>,
    pub external_id: Option<String>,
    pub measurements: Option<Measurements>,
    pub version: CartVersion,
}

impl CartWithRequiredTotalWithoutFinalPrice {
    /// A value with the given fields and every other field at its default:
    /// `version` is `CartVersion::Valid`, and the optional fields unset.
    pub fn new(items: Vec<CartItemWithoutFinalPriceCamelCase>, total: CartTotal, cart_id: String, coupons: Vec<Coupon>, discounts: Vec<Discount>) -> (r: CartWithRequiredTotalWithoutFinalPrice)
        ensures
            r.items == items,
            r.total == total,
            r.cart_id == cart_id,
            r.coupons == coupons,
            r.discounts == discounts,
            r.external_id is None,
            r.measurements is None,
            r.version == CartVersion::Valid,
    {
        CartWithRequiredTotalWithoutFinalPrice {
            items,
            total,
            cart_id,
            coupons,
            discounts,
            external_id: None,
            measurements: None,
            version: CartVersion::Valid,
        }
    }

    /// `doc` is what [`Self::to_json`] writes for `v`: each field under its
    /// camelCase key, amounts as strings, nested values as they write
    /// themselves, no member at all for an unset optional field or an empty
    /// list that is left out, and no member under any other key.
    pub open spec fn writes_as(doc: Json, v: CartWithRequiredTotalWithoutFinalPrice) -> bool {
        &&& doc is Object
        &&& list_holds(member(doc, "items"@), |j: Json, x: CartItemWithoutFinalPriceCamelCase| CartItemWithoutFinalPriceCamelCase::writes_as(j, x), v.items@)
        &&& field_holds(member(doc, "total"@), |j: Json, x: CartTotal| CartTotal::writes_as(j, x), v.total)
        &&& field_holds(member(doc, "cartId"@), |j: Json, x: String| string_value(j) == Ok::<String, DecodeError>(x), v.cart_id)
        &&& if v.coupons@.len() == 0 {
            member(doc, "coupons"@) is None
        } else {
            list_holds(member(doc, "coupons"@), |j: Json, x: Coupon| Coupon::writes_as(j, x), v.coupons@)
        }
        &&& if v.discounts@.len() == 0 {
            member(doc, "discounts"@) is None
        } else {
            list_holds(member(doc, "discounts"@), |j: Json, x: Discount| Discount::writes_as(j, x), v.discounts@)
        }
        &&& match v.external_id {
            None => member(doc, "externalId"@) is None,
            Some(w) => field_holds(member(doc, "externalId"@), |j: Json, x: String| string_value(j) == Ok::<String, DecodeError>(x), w),
        }
        &&& match v.measurements {
            None => member(doc, "measurements"@) is None,
            Some(w) => field_holds(member(doc, "measurements"@), |j: Json, x: Measurements| Measurements::writes_as(j, x), w),
        }
        &&& field_holds(member(doc, "version"@), |j: Json, x: CartVersion| CartVersion::writes_as(j, x), v.version)
        &&& forall|k: Seq<char>| #[trigger] member(doc, k) is Some ==> k == "items"@ || k == "total"@ || k == "cartId"@ || k == "coupons"@ || k == "discounts"@ || k == "externalId"@ || k == "measurements"@ || k == "version"@
    }

    /// The value as a JSON object with camelCase keys. An unset optional field
    /// is left out, not written as `null`; reading the object back gives the
    /// same value.
    #[verifier::rlimit(40)]
    pub fn to_json(&self) -> (r: Json)
        ensures
            CartWithRequiredTotalWithoutFinalPrice::writes_as(r, *self),
            CartWithRequiredTotalWithoutFinalPrice::read_from(r, *self),
    {
        let mut ms: Vec<(String, Json)> = Vec::new();
        proof {
            reveal_strlit("items");
            reveal_strlit("total");
            reveal_strlit("cartId");
            reveal_strlit("coupons");
            reveal_strlit("discounts");
            reveal_strlit("externalId");
            reveal_strlit("measurements");
            reveal_strlit("version");
            assert("items"@.len() == 5);
            assert("total"@.len() == 5);
            assert("cartId"@.len() == 6);
            assert("coupons"@.len() == 7);
            assert("discounts"@.len() == 9);
            assert("externalId"@.len() == 10);
            assert("measurements"@.len() == 12);
            assert("version"@.len() == 7);
            assert("coupons"@[0] == 'c');
            assert("items"@[0] == 'i');
            assert("total"@[0] == 't');
            assert("version"@[0] == 'v');
        }
        push_field(&mut ms, "items", CartItemWithoutFinalPriceCamelCase::list_to_json(&self.items));
        push_field(&mut ms, "total", self.total.to_json());
        push_field(&mut ms, "cartId", string_json(&self.cart_id));
        if self.coupons.len() > 0 {
            push_field(&mut ms, "coupons", Coupon::list_to_json(&self.coupons));
        }
        if self.discounts.len() > 0 {
            push_field(&mut ms, "discounts", Discount::list_to_json(&self.discounts));
        }
        push_optional(&mut ms, "externalId", match &self.external_id {
            Some(x) => Some(string_json(x)),
            None => None,
        });
        push_optional(&mut ms, "measurements", match &self.measurements {
            Some(x) => Some(x.to_json()),
            None => None,
        });
        push_field(&mut ms, "version", self.version.to_json());
        Json::Object(ms)
    }

    /// `v` is what the JSON object `doc` says, field by field.
    pub open spec fn read_from(doc: Json, v: CartWithRequiredTotalWithoutFinalPrice) -> bool {
        &&& doc is Object
        &&& list_holds(member(doc, "items"@), |j: Json, x: CartItemWithoutFinalPriceCamelCase| CartItemWithoutFinalPriceCamelCase::read_from(j, x), v.items@)
        &&& field_holds(member(doc, "total"@), |j: Json, x: CartTotal| CartTotal::read_from(j, x), v.total)
        &&& field_holds(member(doc, "cartId"@), |j: Json, x: String| string_value(j) == Ok::<String, DecodeError>(x), v.cart_id)
        &&& list_or_empty_holds(member(doc, "coupons"@), |j: Json, x: Coupon| Coupon::read_from(j, x), v.coupons@)
        &&& list_or_empty_holds(member(doc, "discounts"@), |j: Json, x: Discount| Discount::read_from(j, x), v.discounts@)
        &&& opt_field_holds(member(doc, "externalId"@), |j: Json, x: String| string_value(j) == Ok::<String, DecodeError>(x), v.external_id)
        &&& opt_field_holds(member(doc, "measurements"@), |j: Json, x: Measurements| Measurements::read_from(j, x), v.measurements)
        &&& field_holds(member(doc, "version"@), |j: Json, x: CartVersion| CartVersion::read_from(j, x), v.version)
    }

    /// Whether every field of `doc` can be read: required fields are present,
    /// and every field that is there holds a value of its kind.
    pub open spec fn readable(doc: Json) -> bool {
        &&& doc is Object
        &&& match member(doc, "items"@) {
            Some(j) => CartItemWithoutFinalPriceCamelCase::list_readable(j),
            None => false,
        }
        &&& match member(doc, "total"@) {
            Some(j) => CartTotal::readable(j),
            None => false,
        }
        &&& match member(doc, "cartId"@) {
            Some(j) => string_value(j) is Ok,
            None => false,
        }
        &&& match member(doc, "coupons"@) {
            Some(j) => Coupon::list_readable(j),
            None => true,
        }
        &&& match member(doc, "discounts"@) {
            Some(j) => Discount::list_readable(j),
            None => true,
        }
        &&& match member(doc, "externalId"@) {
            Some(j) => j == Json::Null || string_value(j) is Ok,
            None => true,
        }
        &&& match member(doc, "measurements"@) {
            Some(j) => j == Json::Null || Measurements::readable(j),
            None => true,
        }
        &&& match member(doc, "version"@) {
            Some(j) => CartVersion::readable(j),
            None => false,
        }
    }

    /// Reads the value from a JSON object with camelCase keys. A missing or
    /// `null` optional field is unset; members it does not know are ignored.
    #[verifier::rlimit(40)]
    pub fn from_json(doc: &Json) -> (r: Result<CartWithRequiredTotalWithoutFinalPrice, DecodeError>)
        ensures
            !(*doc is Object) ==> r == Err::<CartWithRequiredTotalWithoutFinalPrice, DecodeError>(DecodeError::MalformedResponse),
            r matches Ok(v) ==> CartWithRequiredTotalWithoutFinalPrice::read_from(*doc, v),
            r is Ok <==> CartWithRequiredTotalWithoutFinalPrice::readable(*doc),
    {
        if !is_object(doc) {
            return Err(DecodeError::MalformedResponse);
        }
        let items = match get_member(doc, "items") {
            Some(j) => match CartItemWithoutFinalPriceCamelCase::list_from_json(j) {
                Ok(v) => v,
                Err(e) => return Err(e),
            },
            None => return Err(DecodeError::MalformedResponse),
        };
        let total = match get_member(doc, "total") {
            Some(j) => match CartTotal::from_json(j) {
                Ok(v) => v,
                Err(e) => return Err(e),
            },
            None => return Err(DecodeError::MalformedResponse),
        };
        let cart_id = match get_member(doc, "cartId") {
            Some(j) => match read_string(j) {
                Ok(v) => v,
                Err(e) => return Err(e),
            },
            None => return Err(DecodeError::MalformedResponse),
        };
        let coupons = match get_member(doc, "coupons") {
            Some(j) => match Coupon::list_from_json(j) {
                Ok(v) => v,
                Err(e) => return Err(e),
            },
            None => Vec::new(),
        };
        let discounts = match get_member(doc, "discounts") {
            Some(j) => match Discount::list_from_json(j) {
                Ok(v) => v,
                Err(e) => return Err(e),
            },
            None => Vec::new(),
        };
        let external_id = match get_member(doc, "externalId") {
            None => None,
            Some(Json::Null) => None,
            Some(j) => match read_string(j) {
                Ok(v) => Some(v),
                Err(e) => return Err(e),
            },
        };
        let measurements = match get_member(doc, "measurements") {
            None => None,
            Some(Json::Null) => None,
            Some(j) => match Measurements::from_json(j) {
                Ok(v) => Some(v),
                Err(e) => return Err(e),
            },
        };
        let version = match get_member(doc, "version") {
            Some(j) => match CartVersion::from_json(j) {
                Ok(v) => v,
                Err(e) => return Err(e),
            },
            None => return Err(DecodeError::MalformedResponse),
        };
        Ok(CartWithRequiredTotalWithoutFinalPrice {
            items,
            total,
            cart_id,
            coupons,
            discounts,
            external_id,
            measurements,
            version,
        })
    }
}

/// Whether a cart passed the gateway's checks.
#[derive(Clone, Copy, Debug, PartialEq, Eq, Hash, Structural)]
pub enum CartVersion {
    Valid,
    SemiValid,
}

impl CartVersion {
    /// The name of the value on the wire.
    pub open spec fn spec_wire_name(self) -> Seq<char> {
        match self {
            CartVersion::Valid => "VALID"@,
            CartVersion::SemiValid => "SEMIVALID"@,
        }
    }

    pub open spec fn spec_from_wire_name(s: Seq<char>) -> Option<CartVersion> {
        if s == "VALID"@ {
            Some(CartVersion::Valid)
        } else if s == "SEMIVALID"@ {
            Some(CartVersion::SemiValid)
        } else {
            None
        }
    }

    pub open spec fn spec_from_json(j: Json) -> Result<CartVersion, DecodeError> {
        match j {
            Json::Str(s) => match CartVersion::spec_from_wire_name(s@) {
                Some(v) => Ok(v),
                None => Err(DecodeError::MalformedResponse),
            },
            _ => Err(DecodeError::MalformedResponse),
        }
    }

    pub fn wire_name(&self) -> (r: &'static str)
        ensures
            r@ == self.spec_wire_name(),
    {
        match self {
            CartVersion::Valid => "VALID",
            CartVersion::SemiValid => "SEMIVALID",
        }
    }

    pub fn from_wire_name(s: &str) -> (r: Option<CartVersion>)
        ensures
            r == CartVersion::spec_from_wire_name(s@),
    {
        if same_text(s, "VALID") {
            Some(CartVersion::Valid)
        } else if same_text(s, "SEMIVALID") {
            Some(CartVersion::SemiValid)
        } else {
            None
        }
    }

    /// The value as a JSON string holding its wire name.
    pub fn to_json(&self) -> (r: Json)
        ensures
            r matches Json::Str(s) && s@ == self.spec_wire_name(),
            CartVersion::read_from(r, *self),
    {
        proof {
            reveal_strlit("VALID");
            reveal_strlit("SEMIVALID");
            assert("VALID"@.len() == 5);
            assert("SEMIVALID"@.len() == 9);
        }
        Json::Str(String::from_str(self.wire_name()))
    }

    pub fn from_json(j: &Json) -> (r: Result<CartVersion, DecodeError>)
        ensures
            r == CartVersion::spec_from_json(*j),
    {
        match j {
            Json::Str(s) => match CartVersion::from_wire_name(s.as_str()) {
                Some(v) => Ok(v),
                None => Err(DecodeError::MalformedResponse),
            },
            _ => Err(DecodeError::MalformedResponse),
        }
    }

    /// Whether the JSON value `j` names a value.
    pub open spec fn readable(j: Json) -> bool {
        CartVersion::spec_from_json(j) is Ok
    }

    /// `v` is what the JSON value `j` says.
    pub open spec fn read_from(j: Json, v: CartVersion) -> bool {
        CartVersion::spec_from_json(j) == Ok::<CartVersion, DecodeError>(v)
    }

    /// `j` is what [`Self::to_json`] writes for `v`.
    pub open spec fn writes_as(j: Json, v: CartVersion) -> bool {
        CartVersion::read_from(j, v)
    }
}

impl Default for CartVersion {
    fn default() -> (r: CartVersion)
        ensures
            r == CartVersion::Valid,
    {
        CartVersion::Valid
    }
}

/// One line of a final cart.
#[derive(Clone, Debug, PartialEq)]
pub struct CartItemWithoutFinalPriceCamelCase {
    pub product_id: String,
    pub quantity: ItemQuantity,
    pub description: Option<String>,
    pub discounted_unit_price: Option<Decimal>,
    pub features: Option<CartItemFeatures>,
    pub measurements: Option<Measurements>,
    pub points_amount: Option<Decimal>,
    pub receipt: Option<ItemReceipt>,
    pub subtotal: Option<Decimal>,
    pub title: Option<String>,
    pub item_type: Option<CartItemType>,
    pub unit_price: Option<Decimal>,
}

impl CartItemWithoutFinalPriceCamelCase {
    /// A value with the given fields and every other field at its default:
    /// the optional fields unset.
    pub fn new(product_id: String, quantity: ItemQuantity) -> (r: CartItemWithoutFinalPriceCamelCase)
        ensures
            r.product_id == product_id,
            r.quantity == quantity,
            r.description is None,
            r.discounted_unit_price is None,
            r.features is None,
            r.measurements is None,
            r.points_amount is None,
            r.receipt is None,
            r.subtotal is None,
            r.title is None,
            r.item_type is None,
            r.unit_price is None,
    {
        CartItemWithoutFinalPriceCamelCase {
            product_id,
            quantity,
            description: None,
            discounted_unit_price: None,
            features: None,
            measurements: None,
            points_amount: None,
            receipt: None,
            subtotal: None,
            title: None,
            item_type: None,
            unit_price: None,
        }
    }

    /// `doc` is what [`Self::to_json`] writes for `v`: each field under its
    /// camelCase key, amounts as strings, nested values as they write
    /// themselves, no member at all for an unset optional field or an empty
    /// list that is left out, and no member under any other key.
    pub open spec fn writes_as(doc: Json, v: CartItemWithoutFinalPriceCamelCase) -> bool {
        &&& doc is Object
        &&& field_holds(member(doc, "productId"@), |j: Json, x: String| string_value(j) == Ok::<String, DecodeError>(x), v.product_id)
        &&& field_holds(member(doc, "quantity"@), |j: Json, x: ItemQuantity| ItemQuantity::writes_as(j, x), v.quantity)
        &&& match v.description {
            None => member(doc, "description"@) is None,
            Some(w) => field_holds(member(doc, "description"@), |j: Json, x: String| string_value(j) == Ok::<String, DecodeError>(x), w),
        }
        &&& match v.discounted_unit_price {
            None => member(doc, "discountedUnitPrice"@) is None,
            Some(w) => field_holds(member(doc, "discountedUnitPrice"@), |j: Json, x: Decimal| j matches Json::Str(t) && t@ == decimal_text(x), w),
        }
        &&& match v.features {
            None => member(doc, "features"@) is None,
            Some(w) => field_holds(member(doc, "features"@), |j: Json, x: CartItemFeatures| CartItemFeatures::writes_as(j, x), w),
        }
        &&& match v.measurements {
            None => member(doc, "measurements"@) is None,
            Some(w) => field_holds(member(doc, "measurements"@), |j: Json, x: Measurements| Measurements::writes_as(j, x), w),
        }
        &&& match v.points_amount {
            None => member(doc, "pointsAmount"@) is None,
            Some(w) => field_holds(member(doc, "pointsAmount"@), |j: Json, x: Decimal| j matches Json::Str(t) && t@ == decimal_text(x), w),
        }
        &&& match v.receipt {
            None => member(doc, "receipt"@) is None,
            Some(w) => field_holds(member(doc, "receipt"@), |j: Json, x: ItemReceipt| ItemReceipt::writes_as(j, x), w),
        }
        &&& match v.subtotal {
            None => member(doc, "subtotal"@) is None,
            Some(w) => field_holds(member(doc, "subtotal"@), |j: Json, x: Decimal| j matches Json::Str(t) && t@ == decimal_text(x), w),
        }
        &&& match v.title {
            None => member(doc, "title"@) is None,
            Some(w) => field_holds(member(doc, "title"@), |j: Json, x: String| string_value(j) == Ok::<String, DecodeError>(x), w),
        }
        &&& match v.item_type {
            None => member(doc, "itemType"@) is None,
            Some(w) => field_holds(member(doc, "itemType"@), |j: Json, x: CartItemType| CartItemType::writes_as(j, x), w),
        }
        &&& match v.unit_price {
            None => member(doc, "unitPrice"@) is None,
            Some(w) => field_holds(member(doc, "unitPrice"@), |j: Json, x: Decimal| j matches Json::Str(t) && t@ == decimal_text(x), w),
        }
        &&& forall|k: Seq<char>| #[trigger] member(doc, k) is Some ==> k == "productId"@ || k == "quantity"@ || k == "description"@ || k == "discountedUnitPrice"@ || k == "features"@ || k == "measurements"@ || k == "pointsAmount"@ || k == "receipt"@ || k == "subtotal"@ || k == "title"@ || k == "itemType"@ || k == "unitPrice"@
    }

    /// The members for `product_id`, `quantity`, `description`, `discounted_unit_price`, `features`, `measurements`.
    fn members_1(&self) -> (ms: Vec<(String, Json)>)
        ensures
            field_holds(lookup(ms@, "productId"@), |j: Json, x: String| string_value(j) == Ok::<String, DecodeError>(x), self.product_id),
            field_holds(lookup(ms@, "productId"@), |j: Json, x: String| string_value(j) == Ok::<String, DecodeError>(x), self.product_id),
            field_holds(lookup(ms@, "quantity"@), |j: Json, x: ItemQuantity| ItemQuantity::writes_as(j, x), self.quantity),
            field_holds(lookup(ms@, "quantity"@), |j: Json, x: ItemQuantity| ItemQuantity::read_from(j, x), self.quantity),
            match self.description {
                    None => lookup(ms@, "description"@) is None,
                    Some(w) => field_holds(lookup(ms@, "description"@), |j: Json, x: String| string_value(j) == Ok::<String, DecodeError>(x), w),
                },
            opt_field_holds(lookup(ms@, "description"@), |j: Json, x: String| string_value(j) == Ok::<String, DecodeError>(x), self.description),
            match self.discounted_unit_price {
                    None => lookup(ms@, "discountedUnitPrice"@) is None,
                    Some(w) => field_holds(lookup(ms@, "discountedUnitPrice"@), |j: Json, x: Decimal| j matches Json::Str(t) && t@ == decimal_text(x), w),
                },
            opt_field_holds(lookup(ms@, "discountedUnitPrice"@), |j: Json, x: Decimal| decimal_string_value(j) == Ok::<Decimal, DecodeError>(x), self.discounted_unit_price),
            match self.features {
                    None => lookup(ms@, "features"@) is None,
                    Some(w) => field_holds(lookup(ms@, "features"@), |j: Json, x: CartItemFeatures| CartItemFeatures::writes_as(j, x), w),
                },
            opt_field_holds(lookup(ms@, "features"@), |j: Json, x: CartItemFeatures| CartItemFeatures::read_from(j, x), self.features),
            match self.measurements {
                    None => lookup(ms@, "measurements"@) is None,
                    Some(w) => field_holds(lookup(ms@, "measurements"@), |j: Json, x: Measurements| Measurements::writes_as(j, x), w),
                },
            opt_field_holds(lookup(ms@, "measurements"@), |j: Json, x: Measurements| Measurements::read_from(j, x), self.measurements),
            forall|k: Seq<char>| #[trigger] lookup(ms@, k) is Some ==> k == "productId"@ || k == "quantity"@ || k == "description"@ || k == "discountedUnitPrice"@ || k == "features"@ || k == "measurements"@,
    {
        let mut ms: Vec<(String, Json)> = Vec::new();
        proof {
            reveal_strlit("productId");
            reveal_strlit("quantity");
            reveal_strlit("description");
            reveal_strlit("discountedUnitPrice");
            reveal_strlit("features");
            reveal_strlit("measurements");
            assert("productId"@.len() == 9);
            assert("quantity"@.len() == 8);
            assert("description"@.len() == 11);
            assert("discountedUnitPrice"@.len() == 19);
            assert("features"@.len() == 8);
            assert("measurements"@.len() == 12);
            assert("features"@[0] == 'f');
            assert("quantity"@[0] == 'q');
        }
        push_field(&mut ms, "productId", string_json(&self.product_id));
        push_field(&mut ms, "quantity", self.quantity.to_json());
        push_optional(&mut ms, "description", match &self.description {
            Some(x) => Some(string_json(x)),
            None => None,
        });
        push_optional(&mut ms, "discountedUnitPrice", match &self.discounted_unit_price {
            Some(x) => Some(decimal_string_json(*x)),
            None => None,
        });
        push_optional(&mut ms, "features", match &self.features {
            Some(x) => Some(x.to_json()),
            None => None,
        });
        push_optional(&mut ms, "measurements", match &self.measurements {
            Some(x) => Some(x.to_json()),
            None => None,
        });
        ms
    }

    /// The members for `points_amount`, `receipt`, `subtotal`, `title`, `item_type`, `unit_price`.
    fn members_2(&self) -> (ms: Vec<(String, Json)>)
        ensures
            match self.points_amount {
                    None => lookup(ms@, "pointsAmount"@) is None,
                    Some(w) => field_holds(lookup(ms@, "pointsAmount"@), |j: Json, x: Decimal| j matches Json::Str(t) && t@ == decimal_text(x), w),
                },
            opt_field_holds(lookup(ms@, "pointsAmount"@), |j: Json, x: Decimal| decimal_string_value(j) == Ok::<Decimal, DecodeError>(x), self.points_amount),
            match self.receipt {
                    None => lookup(ms@, "receipt"@) is None,
                    Some(w) => field_holds(lookup(ms@, "receipt"@), |j: Json, x: ItemReceipt| ItemReceipt::writes_as(j, x), w),
                },
            opt_field_holds(lookup(ms@, "receipt"@), |j: Json, x: ItemReceipt| ItemReceipt::read_from(j, x), self.receipt),
            match self.subtotal {
                    None => lookup(ms@, "subtotal"@) is None,
                    Some(w) => field_holds(lookup(ms@, "subtotal"@), |j: Json, x: Decimal| j matches Json::Str(t) && t@ == decimal_text(x), w),
                },
            opt_field_holds(lookup(ms@, "subtotal"@), |j: Json, x: Decimal| decimal_string_value(j) == Ok::<Decimal, DecodeError>(x), self.subtotal),
            match self.title {
                    None => lookup(ms@, "title"@) is None,
                    Some(w) => field_holds(lookup(ms@, "title"@), |j: Json, x: String| string_value(j) == Ok::<String, DecodeError>(x), w),
                },
            opt_field_holds(lookup(ms@, "title"@), |j: Json, x: String| string_value(j) == Ok::<String, DecodeError>(x), self.title),
            match self.item_type {
                    None => lookup(ms@, "itemType"@) is None,
                    Some(w) => field_holds(lookup(ms@, "itemType"@), |j: Json, x: CartItemType| CartItemType::writes_as(j, x), w),
                },
            opt_field_holds(lookup(ms@, "itemType"@), |j: Json, x: CartItemType| CartItemType::read_from(j, x), self.item_type),
            match self.unit_price {
                    None => lookup(ms@, "unitPrice"@) is None,
                    Some(w) => field_holds(lookup(ms@, "unitPrice"@), |j: Json, x: Decimal| j matches Json::Str(t) && t@ == decimal_text(x), w),
                },
            opt_field_holds(lookup(ms@, "unitPrice"@), |j: Json, x: Decimal| decimal_string_value(j) == Ok::<Decimal, DecodeError>(x), self.unit_price),
            forall|k: Seq<char>| #[trigger] lookup(ms@, k) is Some ==> k == "pointsAmount"@ || k == "receipt"@ || k == "subtotal"@ || k == "title"@ || k == "itemType"@ || k == "unitPrice"@,
    {
        let mut ms: Vec<(String, Json)> = Vec::new();
        proof {
            reveal_strlit("pointsAmount");
            reveal_strlit("receipt");
            reveal_strlit("subtotal");
            reveal_strlit("title");
            reveal_strlit("itemType");
            reveal_strlit("unitPrice");
            assert("pointsAmount"@.len() == 12);
            assert("receipt"@.len() == 7);
            assert("subtotal"@.len() == 8);
            assert("title"@.len() == 5);
            assert("itemType"@.len() == 8);
            assert("unitPrice"@.len() == 9);
            assert("itemType"@[0] == 'i');
            assert("subtotal"@[0] == 's');
        }
        push_optional(&mut ms, "pointsAmount", match &self.points_amount {
            Some(x) => Some(decimal_string_json(*x)),
            None => None,
        });
        push_optional(&mut ms, "receipt", match &self.receipt {
            Some(x) => Some(x.to_json()),
            None => None,
        });
        push_optional(&mut ms, "subtotal", match &self.subtotal {
            Some(x) => Some(decimal_string_json(*x)),
            None => None,
        });
        push_optional(&mut ms, "title", match &self.title {
            Some(x) => Some(string_json(x)),
            None => None,
        });
        push_optional(&mut ms, "itemType", match &self.item_type {
            Some(x) => Some(x.to_json()),
            None => None,
        });
        push_optional(&mut ms, "unitPrice", match &self.unit_price {
            Some(x) => Some(decimal_string_json(*x)),
            None => None,
        });
        ms
    }

    /// The value as a JSON object with camelCase keys. An unset optional field
    /// is left out, not written as `null`; reading the object back gives the
    /// same value.
    #[verifier::rlimit(40)]
    pub fn to_json(&self) -> (r: Json)
        ensures
            CartItemWithoutFinalPriceCamelCase::writes_as(r, *self),
            CartItemWithoutFinalPriceCamelCase::read_from(r, *self),
    {
        let mut ms = self.members_1();
        proof {
            reveal_strlit("productId");
            reveal_strlit("quantity");
            reveal_strlit("description");
            reveal_strlit("discountedUnitPrice");
            reveal_strlit("features");
            reveal_strlit("measurements");
            reveal_strlit("pointsAmount");
            reveal_strlit("receipt");
            reveal_strlit("subtotal");
            reveal_strlit("title");
            reveal_strlit("itemType");
            reveal_strlit("unitPrice");
            assert("productId"@.len() == 9);
            assert("quantity"@.len() == 8);
            assert("description"@.len() == 11);
            assert("discountedUnitPrice"@.len() == 19);
            assert("features"@.len() == 8);
            assert("measurements"@.len() == 12);
            assert("pointsAmount"@.len() == 12);
            assert("receipt"@.len() == 7);
            assert("subtotal"@.len() == 8);
            assert("title"@.len() == 5);
            assert("itemType"@.len() == 8);
            assert("unitPrice"@.len() == 9);
            assert("features"@[0] == 'f');
            assert("itemType"@[0] == 'i');
            assert("measurements"@[0] == 'm');
            assert("pointsAmount"@[0] == 'p');
            assert("productId"@[0] == 'p');
            assert("quantity"@[0] == 'q');
            assert("subtotal"@[0] == 's');
            assert("unitPrice"@[0] == 'u');
        }
        let ghost a = ms@;
        let mut rest = self.members_2();
        let ghost b = rest@;
        ms.append(&mut rest);
        assert forall|k: Seq<char>| #[trigger] lookup(ms@, k) == (if lookup(a, k) is Some {
            lookup(a, k)
        } else {
            lookup(b, k)
        }) by {
            lemma_lookup_concat(a, b, k);
        }
        Json::Object(ms)
    }

    /// `v` is what the JSON object `doc` says, field by field.
    pub open spec fn read_from(doc: Json, v: CartItemWithoutFinalPriceCamelCase) -> bool {
        &&& doc is Object
        &&& field_holds(member(doc, "productId"@), |j: Json, x: String| string_value(j) == Ok::<String, DecodeError>(x), v.product_id)
        &&& field_holds(member(doc, "quantity"@), |j: Json, x: ItemQuantity| ItemQuantity::read_from(j, x), v.quantity)
        &&& opt_field_holds(member(doc, "description"@), |j: Json, x: String| string_value(j) == Ok::<String, DecodeError>(x), v.description)
        &&& opt_field_holds(member(doc, "discountedUnitPrice"@), |j: Json, x: Decimal| decimal_string_value(j) == Ok::<Decimal, DecodeError>(x), v.discounted_unit_price)
        &&& opt_field_holds(member(doc, "features"@), |j: Json, x: CartItemFeatures| CartItemFeatures::read_from(j, x), v.features)
        &&& opt_field_holds(member(doc, "measurements"@), |j: Json, x: Measurements| Measurements::read_from(j, x), v.measurements)
        &&& opt_field_holds(member(doc, "pointsAmount"@), |j: Json, x: Decimal| decimal_string_value(j) == Ok::<Decimal, DecodeError>(x), v.points_amount)
        &&& opt_field_holds(member(doc, "receipt"@), |j: Json, x: ItemReceipt| ItemReceipt::read_from(j, x), v.receipt)
        &&& opt_field_holds(member(doc, "subtotal"@), |j: Json, x: Decimal| decimal_string_value(j) == Ok::<Decimal, DecodeError>(x), v.subtotal)
        &&& opt_field_holds(member(doc, "title"@), |j: Json, x: String| string_value(j) == Ok::<String, DecodeError>(x), v.title)
        &&& opt_field_holds(member(doc, "itemType"@), |j: Json, x: CartItemType| CartItemType::read_from(j, x), v.item_type)
        &&& opt_field_holds(member(doc, "unitPrice"@), |j: Json, x: Decimal| decimal_string_value(j) == Ok::<Decimal, DecodeError>(x), v.unit_price)
    }

    /// Whether every field of `doc` can be read: required fields are present,
    /// and every field that is there holds a value of its kind.
    pub open spec fn readable(doc: Json) -> bool {
        &&& doc is Object
        &&& match member(doc, "productId"@) {
            Some(j) => string_value(j) is Ok,
            None => false,
        }
        &&& match member(doc, "quantity"@) {
            Some(j) => ItemQuantity::readable(j),
            None => false,
        }
        &&& match member(doc, "description"@) {
            Some(j) => j == Json::Null || string_value(j) is Ok,
            None => true,
        }
        &&& match member(doc, "discountedUnitPrice"@) {
            Some(j) => j == Json::Null || decimal_string_value(j) is Ok,
            None => true,
        }
        &&& match member(doc, "features"@) {
            Some(j) => j == Json::Null || CartItemFeatures::readable(j),
            None => true,
        }
        &&& match member(doc, "measurements"@) {
            Some(j) => j == Json::Null || Measurements::readable(j),
            None => true,
        }
        &&& match member(doc, "pointsAmount"@) {
            Some(j) => j == Json::Null || decimal_string_value(j) is Ok,
            None => true,
        }
        &&& match member(doc, "receipt"@) {
            Some(j) => j == Json::Null || ItemReceipt::readable(j),
            None => true,
        }
        &&& match member(doc, "subtotal"@) {
            Some(j) => j == Json::Null || decimal_string_value(j) is Ok,
            None => true,
        }
        &&& match member(doc, "title"@) {
            Some(j) => j == Json::Null || string_value(j) is Ok,
            None => true,
        }
        &&& match member(doc, "itemType"@) {
            Some(j) => j == Json::Null || CartItemType::readable(j),
            None => true,
        }
        &&& match member(doc, "unitPrice"@) {
            Some(j) => j == Json::Null || decimal_string_value(j) is Ok,
            None => true,
        }
    }

    /// Reads the value from a JSON object with camelCase keys. A missing or
    /// `null` optional field is unset; members it does not know are ignored.
    #[verifier::rlimit(40)]
    pub fn from_json(doc: &Json) -> (r: Result<CartItemWithoutFinalPriceCamelCase, DecodeError>)
        ensures
            !(*doc is Object) ==> r == Err::<CartItemWithoutFinalPriceCamelCase, DecodeError>(DecodeError::MalformedResponse),
            r matches Ok(v) ==> CartItemWithoutFinalPriceCamelCase::read_from(*doc, v),
            r is Ok <==> CartItemWithoutFinalPriceCamelCase::readable(*doc),
    {
        if !is_object(doc) {
            return Err(DecodeError::MalformedResponse);
        }
        let product_id = match get_member(doc, "productId") {
            Some(j) => match read_string(j) {
                Ok(v) => v,
                Err(e) => return Err(e),
            },
            None => return Err(DecodeError::MalformedResponse),
        };
        let quantity = match get_member(doc, "quantity") {
            Some(j) => match ItemQuantity::from_json(j) {
                Ok(v) => v,
                Err(e) => return Err(e),
            },
            None => return Err(DecodeError::MalformedResponse),
        };
        let description = match get_member(doc, "description") {
            None => None,
            Some(Json::Null) => None,
            Some(j) => match read_string(j) {
                Ok(v) => Some(v),
                Err(e) => return Err(e),
            },
        };
        let discounted_unit_price = match get_member(doc, "discountedUnitPrice") {
            None => None,
            Some(Json::Null) => None,
            Some(j) => match read_decimal_string(j) {
                Ok(v) => Some(v),
                Err(e) => return Err(e),
            },
        };
        let features = match get_member(doc, "features") {
            None => None,
            Some(Json::Null) => None,
            Some(j) => match CartItemFeatures::from_json(j) {
                Ok(v) => Some(v),
                Err(e) => return Err(e),
            },
        };
        let measurements = match get_member(doc, "measurements") {
            None => None,
            Some(Json::Null) => None,
            Some(j) => match Measurements::from_json(j) {
                Ok(v) => Some(v),
                Err(e) => return Err(e),
            },
        };
        let points_amount = match get_member(doc, "pointsAmount") {
            None => None,
            Some(Json::Null) => None,
            Some(j) => match read_decimal_string(j) {
                Ok(v) => Some(v),
                Err(e) => return Err(e),
            },
        };
        let receipt = match get_member(doc, "receipt") {
            None => None,
            Some(Json::Null) => None,
            Some(j) => match ItemReceipt::from_json(j) {
                Ok(v) => Some(v),
                Err(e) => return Err(e),
            },
        };
        let subtotal = match get_member(doc, "subtotal") {
            None => None,
            Some(Json::Null) => None,
            Some(j) => match read_decimal_string(j) {
                Ok(v) => Some(v),
                Err(e) => return Err(e),
            },
        };
        let title = match get_member(doc, "title") {
            None => None,
            Some(Json::Null) => None,
            Some(j) => match read_string(j) {
                Ok(v) => Some(v),
                Err(e) => return Err(e),
            },
        };
        let item_type = match get_member(doc, "itemType") {
            None => None,
            Some(Json::Null) => None,
            Some(j) => match CartItemType::from_json(j) {
                Ok(v) => Some(v),
                Err(e) => return Err(e),
            },
        };
        let unit_price = match get_member(doc, "unitPrice") {
            None => None,
            Some(Json::Null) => None,
            Some(j) => match read_decimal_string(j) {
                Ok(v) => Some(v),
                Err(e) => return Err(e),
            },
        };
        Ok(CartItemWithoutFinalPriceCamelCase {
            product_id,
            quantity,
            description,
            discounted_unit_price,
            features,
            measurements,
            points_amount,
            receipt,
            subtotal,
            title,
            item_type,
            unit_price,
        })
    }

    /// `vs` is what the JSON array `j` says, element by element.
    pub open spec fn list_read_from(j: Json, vs: Seq<CartItemWithoutFinalPriceCamelCase>) -> bool {
        list_holds(Some(j), |e: Json, x: CartItemWithoutFinalPriceCamelCase| CartItemWithoutFinalPriceCamelCase::read_from(e, x), vs)
    }

    /// Whether the JSON value `j` is an array whose every element can be read.
    pub open spec fn list_readable(j: Json) -> bool {
        j matches Json::Array(a) && forall|i: int| 0 <= i < a@.len() ==> #[trigger] CartItemWithoutFinalPriceCamelCase::readable(a@[i])
    }

    /// A JSON array of the values, in order.
    pub fn list_to_json(items: &Vec<CartItemWithoutFinalPriceCamelCase>) -> (r: Json)
        ensures
            r matches Json::Array(a) && a@.len() == items@.len(),
            CartItemWithoutFinalPriceCamelCase::list_read_from(r, items@),
            CartItemWithoutFinalPriceCamelCase::list_writes_as(r, items@),
    {
        let mut out: Vec<Json> = Vec::new();
        let mut i: usize = 0;
        while i < items.len()
            invariant
                i <= items.len(),
                out@.len() == i,
                forall|k: int| 0 <= k < i ==> #[trigger] CartItemWithoutFinalPriceCamelCase::read_from(out@[k], items@[k]),
                forall|k: int| 0 <= k < i ==> #[trigger] CartItemWithoutFinalPriceCamelCase::writes_as(out@[k], items@[k]),
            decreases items.len() - i,
        {
            out.push(items[i].to_json());
            i = i + 1;
        }
        Json::Array(out)
    }

    /// `vs` is what [`Self::list_to_json`] writes, element by element.
    pub open spec fn list_writes_as(j: Json, vs: Seq<CartItemWithoutFinalPriceCamelCase>) -> bool {
        list_holds(Some(j), |e: Json, x: CartItemWithoutFinalPriceCamelCase| CartItemWithoutFinalPriceCamelCase::writes_as(e, x), vs)
    }

    /// Reads a JSON array of values, failing on the first that cannot be read.
    pub fn list_from_json(j: &Json) -> (r: Result<Vec<CartItemWithoutFinalPriceCamelCase>, DecodeError>)
        ensures
            !(*j is Array) ==> r == Err::<Vec<CartItemWithoutFinalPriceCamelCase>, DecodeError>(DecodeError::MalformedResponse),
            r matches Ok(v) ==> CartItemWithoutFinalPriceCamelCase::list_read_from(*j, v@),
            r is Ok <==> CartItemWithoutFinalPriceCamelCase::list_readable(*j),
    {
        match j {
            Json::Array(a) => {
                let mut out: Vec<CartItemWithoutFinalPriceCamelCase> = Vec::new();
                let mut i: usize = 0;
                while i < a.len()
                    invariant
                        i <= a.len(),
                        out@.len() == i,
                        *j == Json::Array(*a),
                        forall|k: int| 0 <= k < i ==> #[trigger] CartItemWithoutFinalPriceCamelCase::read_from(a@[k], out@[k]),
                        forall|k: int| 0 <= k < i ==> #[trigger] CartItemWithoutFinalPriceCamelCase::readable(a@[k]),
                    decreases a.len() - i,
                {
                    match CartItemWithoutFinalPriceCamelCase::from_json(&a[i]) {
                        Ok(v) => out.push(v),
                        Err(e) => {
                            proof {
                                assert(!CartItemWithoutFinalPriceCamelCase::readable(a@[i as int]));
                                assert(!CartItemWithoutFinalPriceCamelCase::list_readable(*j)) by {
                                    if CartItemWithoutFinalPriceCamelCase::list_readable(*j) {
                                        assert((*j)->Array_0 == *a);
                                        assert(CartItemWithoutFinalPriceCamelCase::readable((*j)->Array_0@[i as int]));
                                    }
                                }
                            }
                            return Err(e);
                        },
                    }
                    i = i + 1;
                }
                Ok(out)
            },
            _ => Err(DecodeError::MalformedResponse),
        }
    }
}

} // verus!
