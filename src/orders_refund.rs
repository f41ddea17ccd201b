//! Refunding a payment.
use vstd::prelude::*;

use crate::decimal::{decimal_text, Decimal, DecodeError};
use crate::json::{Json, member, field_holds, opt_field_holds, list_holds, list_or_empty_holds, string_value, decimal_string_value, read_string, read_decimal_string, string_json, decimal_string_json, push_field, push_optional, is_object, get_member};

verus! {

/// The body of a request that refunds a captured payment.
#[derive(Clone, Debug, PartialEq)]
pub struct RefundRequest {
    pub refund_amount: Decimal,
    pub branch_id: Option<String>,
    pub external_operation_id: Option<String>,
    pub manager_id: Option<String>,
    pub motive: Option<String>,
    pub refund_cart: Option<TargetCart>,
    pub target_cart: Option<TargetCart>,
    pub target_shipping: Option<TargetShipping>,
}

impl RefundRequest {
    /// A value with the given fields and every other field at its default:
    /// the optional fields unset.
    pub fn new(refund_amount: Decimal) -> (r: RefundRequest)
        ensures
            r.refund_amount == refund_amount,
            r.branch_id is None,
            r.external_operation_id is None,
            r.manager_id is None,
            r.motive is None,
            r.refund_cart is None,
            r.target_cart is None,
            r.target_shipping is None,
    {
        RefundRequest {
            refund_amount,
            branch_id: None,
            external_operation_id: None,
            manager_id: None,
            motive: None,
            refund_cart: None,
            target_cart: None,
            target_shipping: None,
        }
    }

    /// `doc` is what [`Self::to_json`] writes for `v`: each field under its
    /// camelCase key, amounts as strings, nested values as they write
    /// themselves, no member at all for an unset optional field or an empty
    /// list that is left out, and no member under any other key.
    pub open spec fn writes_as(doc: Json, v: RefundRequest) -> bool {
        &&& doc is Object
        &&& field_holds(member(doc, "refundAmount"@), |j: Json, x: Decimal| j matches Json::Str(t) && t@ == decimal_text(x), v.refund_amount)
        &&& match v.branch_id {
            None => member(doc, "branchId"@) is None,
            Some(w) => field_holds(member(doc, "branchId"@), |j: Json, x: String| string_value(j) == Ok::<String, DecodeError>(x), w),
        }
        &&& match v.external_operation_id {
            None => member(doc, "externalOperationId"@) is None,
            Some(w) => field_holds(member(doc, "externalOperationId"@), |j: Json, x: String| string_value(j) == Ok::<String, DecodeError>(x), w),
        }
        &&& match v.manager_id {
            None => member(doc, "managerId"@) is None,
            Some(w) => field_holds(member(doc, "managerId"@), |j: Json, x: String| string_value(j) == Ok::<String, DecodeError>(x), w),
        }
        &&& match v.motive {
            None => member(doc, "motive"@) is None,
            Some(w) => field_holds(member(doc, "motive"@), |j: Json, x: String| string_value(j) == Ok::<String, DecodeError>(x), w),
        }
        &&& match v.refund_cart {
            None => member(doc, "refundCart"@) is None,
            Some(w) => field_holds(member(doc, "refundCart"@), |j: Json, x: TargetCart| TargetCart::writes_as(j, x), w),
        }
        &&& match v.target_cart {
            None => member(doc, "targetCart"@) is None,
            Some(w) => field_holds(member(doc, "targetCart"@), |j: Json, x: TargetCart| TargetCart::writes_as(j, x), w),
        }
        &&& match v.target_shipping {
            None => member(doc, "targetShipping"@) is None,
            Some(w) => field_holds(member(doc, "targetShipping"@), |j: Json, x: TargetShipping| TargetShipping::writes_as(j, x), w),
        }
        &&& forall|k: Seq<char>| #[trigger] member(doc, k) is Some ==> k == "refundAmount"@ || k == "branchId"@ || k == "externalOperationId"@ || k == "managerId"@ || k == "motive"@ || k == "refundCart"@ || k == "targetCart"@ || k == "targetShipping"@
    }

    /// The value as a JSON object with camelCase keys. An unset optional field
    /// is left out, not written as `null`; reading the object back gives the
    /// same value.
    #[verifier::rlimit(40)]
    pub fn to_json(&self) -> (r: Json)
        ensures
            RefundRequest::writes_as(r, *self),
            RefundRequest::read_from(r, *self),
    {
        let mut ms: Vec<(String, Json)> = Vec::new();
        proof {
            reveal_strlit("refundAmount");
            reveal_strlit("branchId");
            reveal_strlit("externalOperationId");
            reveal_strlit("managerId");
            reveal_strlit("motive");
            reveal_strlit("refundCart");
            reveal_strlit("targetCart");
            reveal_strlit("targetShipping");
            assert("refundAmount"@.len() == 12);
            assert("branchId"@.len() == 8);
            assert("externalOperationId"@.len() == 19);
            assert("managerId"@.len() == 9);
            assert("motive"@.len() == 6);
            assert("refundCart"@.len() == 10);
            assert("targetCart"@.len() == 10);
            assert("targetShipping"@.len() == 14);
            assert("refundCart"@[0] == 'r');
            assert("targetCart"@[0] == 't');
        }
        push_field(&mut ms, "refundAmount", decimal_string_json(*&self.refund_amount));
        push_optional(&mut ms, "branchId", match &self.branch_id {
            Some(x) => Some(string_json(x)),
            None => None,
        });
        push_optional(&mut ms, "externalOperationId", match &self.external_operation_id {
            Some(x) => Some(string_json(x)),
            None => None,
        });
        push_optional(&mut ms, "managerId", match &self.manager_id {
            Some(x) => Some(string_json(x)),
            None => None,
        });
        push_optional(&mut ms, "motive", match &self.motive {
            Some(x) => Some(string_json(x)),
            None => None,
        });
        push_optional(&mut ms, "refundCart", match &self.refund_cart {
            Some(x) => Some(x.to_json()),
            None => None,
        });
        push_optional(&mut ms, "targetCart", match &self.target_cart {
            Some(x) => Some(x.to_json()),
            None => None,
        });
        push_optional(&mut ms, "targetShipping", match &self.target_shipping {
            Some(x) => Some(x.to_json()),
            None => None,
        });
        Json::Object(ms)
    }

    /// `v` is what the JSON object `doc` says, field by field.
    pub open spec fn read_from(doc: Json, v: RefundRequest) -> bool {
        &&& doc is Object
        &&& field_holds(member(doc, "refundAmount"@), |j: Json, x: Decimal| decimal_string_value(j) == Ok::<Decimal, DecodeError>(x), v.refund_amount)
        &&& opt_field_holds(member(doc, "branchId"@), |j: Json, x: String| string_value(j) == Ok::<String, DecodeError>(x), v.branch_id)
        &&& opt_field_holds(member(doc, "externalOperationId"@), |j: Json, x: String| string_value(j) == Ok::<String, DecodeError>(x), v.external_operation_id)
        &&& opt_field_holds(member(doc, "managerId"@), |j: Json, x: String| string_value(j) == Ok::<String, DecodeError>(x), v.manager_id)
        &&& opt_field_holds(member(doc, "motive"@), |j: Json, x: String| string_value(j) == Ok::<String, DecodeError>(x), v.motive)
        &&& opt_field_holds(member(doc, "refundCart"@), |j: Json, x: TargetCart| TargetCart::read_from(j, x), v.refund_cart)
        &&& opt_field_holds(member(doc, "targetCart"@), |j: Json, x: TargetCart| TargetCart::read_from(j, x), v.target_cart)
        &&& opt_field_holds(member(doc, "targetShipping"@), |j: Json, x: TargetShipping| TargetShipping::read_from(j, x), v.target_shipping)
    }

    /// Whether every field of `doc` can be read: required fields are present,
    /// and every field that is there holds a value of its kind.
    pub open spec fn readable(doc: Json) -> bool {
        &&& doc is Object
        &&& match member(doc, "refundAmount"@) {
            Some(j) => decimal_string_value(j) is Ok,
            None => false,
        }
        &&& match member(doc, "branchId"@) {
            Some(j) => j == Json::Null || string_value(j) is Ok,
            None => true,
        }
        &&& match member(doc, "externalOperationId"@) {
            Some(j) => j == Json::Null || string_value(j) is Ok,
            None => true,
        }
        &&& match member(doc, "managerId"@) {
            Some(j) => j == Json::Null || string_value(j) is Ok,
            None => true,
        }
        &&& match member(doc, "motive"@) {
            Some(j) => j == Json::Null || string_value(j) is Ok,
            None => true,
        }
        &&& match member(doc, "refundCart"@) {
            Some(j) => j == Json::Null || TargetCart::readable(j),
            None => true,
        }
        &&& match member(doc, "targetCart"@) {
            Some(j) => j == Json::Null || TargetCart::readable(j),
            None => true,
        }
        &&& match member(doc, "targetShipping"@) {
            Some(j) => j == Json::Null || TargetShipping::readable(j),
            None => true,
        }
    }

    /// Reads the value from a JSON object with camelCase keys. A missing or
    /// `null` optional field is unset; members it does not know are ignored.
    #[verifier::rlimit(40)]
    pub fn from_json(doc: &Json) -> (r: Result<RefundRequest, DecodeError>)
        ensures
            !(*doc is Object) ==> r == Err::<RefundRequest, DecodeError>(DecodeError::MalformedResponse),
            r matches Ok(v) ==> RefundRequest::read_from(*doc, v),
            r is Ok <==> RefundRequest::readable(*doc),
    {
        if !is_object(doc) {
            return Err(DecodeError::MalformedResponse);
        }
        let refund_amount = match get_member(doc, "refundAmount") {
            Some(j) => match read_decimal_string(j) {
                Ok(v) => v,
                Err(e) => return Err(e),
            },
            None => return Err(DecodeError::MalformedResponse),
        };
        let branch_id = match get_member(doc, "branchId") {
            None => None,
            Some(Json::Null) => None,
            Some(j) => match read_string(j) {
                Ok(v) => Some(v),
                Err(e) => return Err(e),
            },
        };
        let external_operation_id = match get_member(doc, "externalOperationId") {
            None => None,
            Some(Json::Null) => None,
            Some(j) => match read_string(j) {
                Ok(v) => Some(v),
                Err(e) => return Err(e),
            },
        };
        let manager_id = match get_member(doc, "managerId") {
            None => None,
            Some(Json::Null) => None,
            Some(j) => match read_string(j) {
                Ok(v) => Some(v),
                Err(e) => return Err(e),
            },
        };
        let motive = match get_member(doc, "motive") {
            None => None,
            Some(Json::Null) => None,
            Some(j) => match read_string(j) {
                Ok(v) => Some(v),
                Err(e) => return Err(e),
            },
        };
        let refund_cart = match get_member(doc, "refundCart") {
            None => None,
            Some(Json::Null) => None,
            Some(j) => match TargetCart::from_json(j) {
                Ok(v) => Some(v),
                Err(e) => return Err(e),
            },
        };
        let target_cart = match get_member(doc, "targetCart") {
            None => None,
            Some(Json::Null) => None,
            Some(j) => match TargetCart::from_json(j) {
                Ok(v) => Some(v),
                Err(e) => return Err(e),
            },
        };
        let target_shipping = match get_member(doc, "targetShipping") {
            None => None,
            Some(Json::Null) => None,
            Some(j) => match TargetShipping::from_json(j) {
                Ok(v) => Some(v),
                Err(e) => return Err(e),
            },
        };
        Ok(RefundRequest {
            refund_amount,
            branch_id,
            external_operation_id,
            manager_id,
            motive,
            refund_cart,
            target_cart,
            target_shipping,
        })
    }
}

/// A cart as it should be after a refund, or the part of it refunded.
#[derive(Clone, Debug, PartialEq)]
pub struct TargetCart {
    pub items: Vec<TargetCartItem>,
}

impl TargetCart {
    /// A value with the given fields and every other field at its default:
    /// the optional fields unset.
    pub fn new(items: Vec<TargetCartItem>) -> (r: TargetCart)
        ensures
            r.items == items,
    {
        TargetCart {
            items,
        }
    }

    /// `doc` is what [`Self::to_json`] writes for `v`: each field under its
    /// camelCase key, amounts as strings, nested values as they write
    /// themselves, no member at all for an unset optional field or an empty
    /// list that is left out, and no member under any other key.
    pub open spec fn writes_as(doc: Json, v: TargetCart) -> bool {
        &&& doc is Object
        &&& if v.items@.len() == 0 {
            member(doc, "items"@) is None
        } else {
            list_holds(member(doc, "items"@), |j: Json, x: TargetCartItem| TargetCartItem::writes_as(j, x), v.items@)
        }
        &&& forall|k: Seq<char>| #[trigger] member(doc, k) is Some ==> k == "items"@
    }

    /// The value as a JSON object with camelCase keys. An unset optional field
    /// is left out, not written as `null`; reading the object back gives the
    /// same value.
    pub fn to_json(&self) -> (r: Json)
        ensures
            TargetCart::writes_as(r, *self),
            TargetCart::read_from(r, *self),
    {
        let mut ms: Vec<(String, Json)> = Vec::new();
        proof {
            reveal_strlit("items");
            assert("items"@.len() == 5);
        }
        if self.items.len() > 0 {
            push_field(&mut ms, "items", TargetCartItem::list_to_json(&self.items));
        }
        Json::Object(ms)
    }

    /// `v` is what the JSON object `doc` says, field by field.
    pub open spec fn read_from(doc: Json, v: TargetCart) -> bool {
        &&& doc is Object
        &&& list_or_empty_holds(member(doc, "items"@), |j: Json, x: TargetCartItem| TargetCartItem::read_from(j, x), v.items@)
    }

    /// Whether every field of `doc` can be read: required fields are present,
    /// and every field that is there holds a value of its kind.
    pub open spec fn readable(doc: Json) -> bool {
        &&& doc is Object
        &&& match member(doc, "items"@) {
            Some(j) => TargetCartItem::list_readable(j),
            None => true,
        }
    }

    /// Reads the value from a JSON object with camelCase keys. A missing or
    /// `null` optional field is unset; members it does not know are ignored.
    pub fn from_json(doc: &Json) -> (r: Result<TargetCart, DecodeError>)
        ensures
            !(*doc is Object) ==> r == Err::<TargetCart, DecodeError>(DecodeError::MalformedResponse),
            r matches Ok(v) ==> TargetCart::read_from(*doc, v),
            r is Ok <==> TargetCart::readable(*doc),
    {
        if !is_object(doc) {
            return Err(DecodeError::MalformedResponse);
        }
        let items = match get_member(doc, "items") {
            Some(j) => match TargetCartItem::list_from_json(j) {
                Ok(v) => v,
                Err(e) => return Err(e),
            },
            None => Vec::new(),
        };
        Ok(TargetCart {
            items,
        })
    }
}

/// One line of a target cart.
#[derive(Clone, Debug, PartialEq)]
pub struct TargetCartItem {
    pub product_id: String,
    pub price: Option<Decimal>,
    pub quantity_count: Option<Decimal>,
}

impl TargetCartItem {
    /// A value with the given fields and every other field at its default:
    /// the optional fields unset.
    pub fn new(product_id: String) -> (r: TargetCartItem)
        ensures
            r.product_id == product_id,
            r.price is None,
            r.quantity_count is None,
    {
        TargetCartItem {
            product_id,
            price: None,
            quantity_count: None,
        }
    }

    /// `doc` is what [`Self::to_json`] writes for `v`: each field under its
    /// camelCase key, amounts as strings, nested values as they write
    /// themselves, no member at all for an unset optional field or an empty
    /// list that is left out, and no member under any other key.
    pub open spec fn writes_as(doc: Json, v: TargetCartItem) -> bool {
        &&& doc is Object
        &&& field_holds(member(doc, "productId"@), |j: Json, x: String| string_value(j) == Ok::<String, DecodeError>(x), v.product_id)
        &&& match v.price {
            None => member(doc, "price"@) is None,
            Some(w) => field_holds(member(doc, "price"@), |j: Json, x: Decimal| j matches Json::Str(t) && t@ == decimal_text(x), w),
        }
        &&& match v.quantity_count {
            None => member(doc, "quantityCount"@) is None,
            Some(w) => field_holds(member(doc, "quantityCount"@), |j: Json, x: Decimal| j matches Json::Str(t) && t@ == decimal_text(x), w),
        }
        &&& forall|k: Seq<char>| #[trigger] member(doc, k) is Some ==> k == "productId"@ || k == "price"@ || k == "quantityCount"@
    }

    /// The value as a JSON object with camelCase keys. An unset optional field
    /// is left out, not written as `null`; reading the object back gives the
    /// same value.
    pub fn to_json(&self) -> (r: Json)
        ensures
            TargetCartItem::writes_as(r, *self),
            TargetCartItem::read_from(r, *self),
    {
        let mut ms: Vec<(String, Json)> = Vec::new();
        proof {
            reveal_strlit("productId");
            reveal_strlit("price");
            reveal_strlit("quantityCount");
            assert("productId"@.len() == 9);
            assert("price"@.len() == 5);
            assert("quantityCount"@.len() == 13);
        }
        push_field(&mut ms, "productId", string_json(&self.product_id));
        push_optional(&mut ms, "price", match &self.price {
            Some(x) => Some(decimal_string_json(*x)),
            None => None,
        });
        push_optional(&mut ms, "quantityCount", match &self.quantity_count {
            Some(x) => Some(decimal_string_json(*x)),
            None => None,
        });
        Json::Object(ms)
    }

    /// `v` is what the JSON object `doc` says, field by field.
    pub open spec fn read_from(doc: Json, v: TargetCartItem) -> bool {
        &&& doc is Object
        &&& field_holds(member(doc, "productId"@), |j: Json, x: String| string_value(j) == Ok::<String, DecodeError>(x), v.product_id)
        &&& opt_field_holds(member(doc, "price"@), |j: Json, x: Decimal| decimal_string_value(j) == Ok::<Decimal, DecodeError>(x), v.price)
        &&& opt_field_holds(member(doc, "quantityCount"@), |j: Json, x: Decimal| decimal_string_value(j) == Ok::<Decimal, DecodeError>(x), v.quantity_count)
    }

    /// Whether every field of `doc` can be read: required fields are present,
    /// and every field that is there holds a value of its kind.
    pub open spec fn readable(doc: Json) -> bool {
        &&& doc is Object
        &&& match member(doc, "productId"@) {
            Some(j) => string_value(j) is Ok,
            None => false,
        }
        &&& match member(doc, "price"@) {
            Some(j) => j == Json::Null || decimal_string_value(j) is Ok,
            None => true,
        }
        &&& match member(doc, "quantityCount"@) {
            Some(j) => j == Json::Null || decimal_string_value(j) is Ok,
            None => true,
        }
    }

    /// Reads the value from a JSON object with camelCase keys. A missing or
    /// `null` optional field is unset; members it does not know are ignored.
    pub fn from_json(doc: &Json) -> (r: Result<TargetCartItem, DecodeError>)
        ensures
            !(*doc is Object) ==> r == Err::<TargetCartItem, DecodeError>(DecodeError::MalformedResponse),
            r matches Ok(v) ==> TargetCartItem::read_from(*doc, v),
            r is Ok <==> TargetCartItem::readable(*doc),
    {
        if !is_object(doc) {
            return Err(DecodeError::MalformedResponse);
        }
        let product_id = match get_member(doc, "productId") {
            Some(j) => match read_string(j) {
                Ok(v) => v,
                Err(e) => return Err(e),
            },
            None => return Err(DecodeError::MalformedResponse),
        };
        let price = match get_member(doc, "price") {
            None => None,
            Some(Json::Null) => None,
            Some(j) => match read_decimal_string(j) {
                Ok(v) => Some(v),
                Err(e) => return Err(e),
            },
        };
        let quantity_count = match get_member(doc, "quantityCount") {
            None => None,
            Some(Json::Null) => None,
            Some(j) => match read_decimal_string(j) {
                Ok(v) => Some(v),
                Err(e) => return Err(e),
            },
        };
        Ok(TargetCartItem {
            product_id,
            price,
            quantity_count,
        })
    }

    /// `vs` is what the JSON array `j` says, element by element.
    pub open spec fn list_read_from(j: Json, vs: Seq<TargetCartItem>) -> bool {
        list_holds(Some(j), |e: Json, x: TargetCartItem| TargetCartItem::read_from(e, x), vs)
    }

    /// Whether the JSON value `j` is an array whose every element can be read.
    pub open spec fn list_readable(j: Json) -> bool {
        j matches Json::Array(a) && forall|i: int| 0 <= i < a@.len() ==> #[trigger] TargetCartItem::readable(a@[i])
    }

    /// A JSON array of the values, in order.
    pub fn list_to_json(items: &Vec<TargetCartItem>) -> (r: Json)
        ensures
            r matches Json::Array(a) && a@.len() == items@.len(),
            TargetCartItem::list_read_from(r, items@),
            TargetCartItem::list_writes_as(r, items@),
    {
        let mut out: Vec<Json> = Vec::new();
        let mut i: usize = 0;
        while i < items.len()
            invariant
                i <= items.len(),
                out@.len() == i,
                forall|k: int| 0 <= k < i ==> #[trigger] TargetCartItem::read_from(out@[k], items@[k]),
                forall|k: int| 0 <= k < i ==> #[trigger] TargetCartItem::writes_as(out@[k], items@[k]),
            decreases items.len() - i,
        {
            out.push(items[i].to_json());
            i = i + 1;
        }
        Json::Array(out)
    }

    /// `vs` is what [`Self::list_to_json`] writes, element by element.
    pub open spec fn list_writes_as(j: Json, vs: Seq<TargetCartItem>) -> bool {
        list_holds(Some(j), |e: Json, x: TargetCartItem| TargetCartItem::writes_as(e, x), vs)
    }

    /// Reads a JSON array of values, failing on the first that cannot be read.
    pub fn list_from_json(j: &Json) -> (r: Result<Vec<TargetCartItem>, DecodeError>)
        ensures
            !(*j is Array) ==> r == Err::<Vec<TargetCartItem>, DecodeError>(DecodeError::MalformedResponse),
            r matches Ok(v) ==> TargetCartItem::list_read_from(*j, v@),
            r is Ok <==> TargetCartItem::list_readable(*j),
    {
        match j {
            Json::Array(a) => {
                let mut out: Vec<TargetCartItem> = Vec::new();
                let mut i: usize = 0;
                while i < a.len()
                    invariant
                        i <= a.len(),
                        out@.len() == i,
                        *j == Json::Array(*a),
                        forall|k: int| 0 <= k < i ==> #[trigger] TargetCartItem::read_from(a@[k], out@[k]),
                        forall|k: int| 0 <= k < i ==> #[trigger] TargetCartItem::readable(a@[k]),
                    decreases a.len() - i,
                {
                    match TargetCartItem::from_json(&a[i]) {
                        Ok(v) => out.push(v),
                        Err(e) => {
                            proof {
                                assert(!TargetCartItem::readable(a@[i as int]));
                                assert(!TargetCartItem::list_readable(*j)) by {
                                    if TargetCartItem::list_readable(*j) {
                                        assert((*j)->Array_0 == *a);
                                        assert(TargetCartItem::readable((*j)->Array_0@[i as int]));
                                    }
                                }
                            }
                            return Err(e);
                        },
                    }
                    i = i + 1;
                }
                Ok(out)
            },
            _ => Err(DecodeError::MalformedResponse),
        }
    }
}

/// The delivery cost as it should be after a refund.
#[derive(Clone, Debug, PartialEq)]
pub struct TargetShipping {
    pub amount: Decimal,
}

impl TargetShipping {
    /// A value with the given fields and every other field at its default:
    /// the optional fields unset.
    pub fn new(amount: Decimal) -> (r: TargetShipping)
        ensures
            r.amount == amount,
    {
        TargetShipping {
            amount,
        }
    }

    /// `doc` is what [`Self::to_json`] writes for `v`: each field under its
    /// camelCase key, amounts as strings, nested values as they write
    /// themselves, no member at all for an unset optional field or an empty
    /// list that is left out, and no member under any other key.
    pub open spec fn writes_as(doc: Json, v: TargetShipping) -> bool {
        &&& doc is Object
        &&& field_holds(member(doc, "amount"@), |j: Json, x: Decimal| j matches Json::Str(t) && t@ == decimal_text(x), v.amount)
        &&& forall|k: Seq<char>| #[trigger] member(doc, k) is Some ==> k == "amount"@
    }

    /// The value as a JSON object with camelCase keys. An unset optional field
    /// is left out, not written as `null`; reading the object back gives the
    /// same value.
    pub fn to_json(&self) -> (r: Json)
        ensures
            TargetShipping::writes_as(r, *self),
            TargetShipping::read_from(r, *self),
    {
        let mut ms: Vec<(String, Json)> = Vec::new();
        proof {
            reveal_strlit("amount");
            assert("amount"@.len() == 6);
        }
        push_field(&mut ms, "amount", decimal_string_json(*&self.amount));
        Json::Object(ms)
    }

    /// `v` is what the JSON object `doc` says, field by field.
    pub open spec fn read_from(doc: Json, v: TargetShipping) -> bool {
        &&& doc is Object
        &&& field_holds(member(doc, "amount"@), |j: Json, x: Decimal| decimal_string_value(j) == Ok::<Decimal, DecodeError>(x), v.amount)
    }

    /// Whether every field of `doc` can be read: required fields are present,
    /// and every field that is there holds a value of its kind.
    pub open spec fn readable(doc: Json) -> bool {
        &&& doc is Object
        &&& match member(doc, "amount"@) {
            Some(j) => decimal_string_value(j) is Ok,
            None => false,
        }
    }

    /// Reads the value from a JSON object with camelCase keys. A missing or
    /// `null` optional field is unset; members it does not know are ignored.
    pub fn from_json(doc: &Json) -> (r: Result<TargetShipping, DecodeError>)
        ensures
            !(*doc is Object) ==> r == Err::<TargetShipping, DecodeError>(DecodeError::MalformedResponse),
            r matches Ok(v) ==> TargetShipping::read_from(*doc, v),
            r is Ok <==> TargetShipping::readable(*doc),
    {
        if !is_object(doc) {
            return Err(DecodeError::MalformedResponse);
        }
        let amount = match get_member(doc, "amount") {
            Some(j) => match read_decimal_string(j) {
                Ok(v) => v,
                Err(e) => return Err(e),
            },
            None => return Err(DecodeError::MalformedResponse),
        };
        Ok(TargetShipping {
            amount,
        })
    }
}

} // verus!
