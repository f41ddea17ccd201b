//! An order as the gateway returns it, with its cart, delivery and operations.
use vstd::prelude::*;

use crate::decimal::{decimal_text, Decimal, DecodeError};
use crate::json::{Json, member, field_holds, opt_field_holds, list_holds, list_or_empty_holds, is_null_or_absent, string_value, bool_value, decimal_string_value, decimal_number_value, i32_value, timestamp_value, read_string, read_bool, read_decimal_string, read_decimal_number, read_i32, read_timestamp, string_json, decimal_string_json, decimal_number_json, json_text, push_field, push_optional, is_object, get_member, same_text, write_document, read_strings, strings_readable};
use crate::orders::{CartItemFeatures, CartTotal, CurrencyCode, ItemQuantity, ItemReceipt};
use crate::timestamp::Timestamp;

verus! {

/// What the gateway returns for an order.
#[derive(Clone, Debug, PartialEq)]
pub struct OrderResponseData {
    pub delivery: Option<Delivery>,
    pub operations: Vec<OrderResponseOperation>,
    pub order: Option<BaseMerchantApiOrder>,
}

impl OrderResponseData {
    /// `v` is what the JSON object `doc` says, field by field.
    pub open spec fn read_from(doc: Json, v: OrderResponseData) -> bool {
        &&& doc is Object
        &&& opt_field_holds(member(doc, "delivery"@), |j: Json, x: Delivery| Delivery::read_from(j, x), v.delivery)
        &&& list_holds(member(doc, "operations"@), |j: Json, x: OrderResponseOperation| OrderResponseOperation::read_from(j, x), v.operations@)
        &&& opt_field_holds(member(doc, "order"@), |j: Json, x: BaseMerchantApiOrder| BaseMerchantApiOrder::read_from(j, x), v.order)
    }

    /// Whether every field of `doc` can be read: required fields are present,
    /// and every field that is there holds a value of its kind.
    pub open spec fn readable(doc: Json) -> bool {
        &&& doc is Object
        &&& match member(doc, "delivery"@) {
            Some(j) => j == Json::Null || Delivery::readable(j),
            None => true,
        }
        &&& match member(doc, "operations"@) {
            Some(j) => OrderResponseOperation::list_readable(j),
            None => false,
        }
        &&& match member(doc, "order"@) {
            Some(j) => j == Json::Null || BaseMerchantApiOrder::readable(j),
            None => true,
        }
    }

    /// Reads the value from a JSON object with camelCase keys. A missing or
    /// `null` optional field is unset; members it does not know are ignored.
    pub fn from_json(doc: &Json) -> (r: Result<OrderResponseData, DecodeError>)
        ensures
            !(*doc is Object) ==> r == Err::<OrderResponseData, DecodeError>(DecodeError::MalformedResponse),
            r matches Ok(v) ==> OrderResponseData::read_from(*doc, v),
            r is Ok <==> OrderResponseData::readable(*doc),
    {
        if !is_object(doc) {
            return Err(DecodeError::MalformedResponse);
        }
        let delivery = match get_member(doc, "delivery") {
            None => None,
            Some(Json::Null) => None,
            Some(j) => match Delivery::from_json(j) {
                Ok(v) => Some(v),
                Err(e) => return Err(e),
            },
        };
        let operations = match get_member(doc, "operations") {
            Some(j) => match OrderResponseOperation::list_from_json(j) {
                Ok(v) => v,
                Err(e) => return Err(e),
            },
            None => return Err(DecodeError::MalformedResponse),
        };
        let order = match get_member(doc, "order") {
            None => None,
            Some(Json::Null) => None,
            Some(j) => match BaseMerchantApiOrder::from_json(j) {
                Ok(v) => Some(v),
                Err(e) => return Err(e),
            },
        };
        Ok(OrderResponseData {
            delivery,
            operations,
            order,
        })
    }
}

/// The delivery of an order.
#[derive(Clone, Debug, PartialEq)]
pub struct Delivery {
    pub price: Decimal,
    pub actual_price: Option<Decimal>,
    pub created: Option<Timestamp>,
    pub status: DeliveryStatus,
    pub updated: Option<Timestamp>,
}

impl Delivery {
    /// `v` is what the JSON object `doc` says, field by field.
    pub open spec fn read_from(doc: Json, v: Delivery) -> bool {
        &&& doc is Object
        &&& field_holds(member(doc, "price"@), |j: Json, x: Decimal| decimal_string_value(j) == Ok::<Decimal, DecodeError>(x), v.price)
        &&& opt_field_holds(member(doc, "actualPrice"@), |j: Json, x: Decimal| decimal_string_value(j) == Ok::<Decimal, DecodeError>(x), v.actual_price)
        &&& opt_field_holds(member(doc, "created"@), |j: Json, x: Timestamp| timestamp_value(j) == Ok::<Timestamp, DecodeError>(x), v.created)
        &&& field_holds(member(doc, "status"@), |j: Json, x: DeliveryStatus| DeliveryStatus::read_from(j, x), v.status)
        &&& opt_field_holds(member(doc, "updated"@), |j: Json, x: Timestamp| timestamp_value(j) == Ok::<Timestamp, DecodeError>(x), v.updated)
    }

    /// Whether every field of `doc` can be read: required fields are present,
    /// and every field that is there holds a value of its kind.
    pub open spec fn readable(doc: Json) -> bool {
        &&& doc is Object
        &&& match member(doc, "price"@) {
            Some(j) => decimal_string_value(j) is Ok,
            None => false,
        }
        &&& match member(doc, "actualPrice"@) {
            Some(j) => j == Json::Null || decimal_string_value(j) is Ok,
            None => true,
        }
        &&& match member(doc, "created"@) {
            Some(j) => j == Json::Null || timestamp_value(j) is Ok,
            None => true,
        }
        &&& match member(doc, "status"@) {
            Some(j) => DeliveryStatus::readable(j),
            None => false,
        }
        &&& match member(doc, "updated"@) {
            Some(j) => j == Json::Null || timestamp_value(j) is Ok,
            None => true,
        }
    }

    /// Reads the value from a JSON object with camelCase keys. A missing or
    /// `null` optional field is unset; members it does not know are ignored.
    pub fn from_json(doc: &Json) -> (r: Result<Delivery, DecodeError>)
        ensures
            !(*doc is Object) ==> r == Err::<Delivery, DecodeError>(DecodeError::MalformedResponse),
            r matches Ok(v) ==> Delivery::read_from(*doc, v),
            r is Ok <==> Delivery::readable(*doc),
    {
        if !is_object(doc) {
            return Err(DecodeError::MalformedResponse);
        }
        let price = match get_member(doc, "price") {
            Some(j) => match read_decimal_string(j) {
                Ok(v) => v,
                Err(e) => return Err(e),
            },
            None => return Err(DecodeError::MalformedResponse),
        };
        let actual_price = match get_member(doc, "actualPrice") {
            None => None,
            Some(Json::Null) => None,
            Some(j) => match read_decimal_string(j) {
                Ok(v) => Some(v),
                Err(e) => return Err(e),
            },
        };
        let created = match get_member(doc, "created") {
            None => None,
            Some(Json::Null) => None,
            Some(j) => match read_timestamp(j) {
                Ok(v) => Some(v),
                Err(e) => return Err(e),
            },
        };
        let status = match get_member(doc, "status") {
            Some(j) => match DeliveryStatus::from_json(j) {
                Ok(v) => v,
                Err(e) => return Err(e),
            },
            None => return Err(DecodeError::MalformedResponse),
        };
        let updated = match get_member(doc, "updated") {
            None => None,
            Some(Json::Null) => None,
            Some(j) => match read_timestamp(j) {
                Ok(v) => Some(v),
                Err(e) => return Err(e),
            },
        };
        Ok(Delivery {
            price,
            actual_price,
            created,
            status,
            updated,
        })
    }
}

/// Where a delivery stands.
#[derive(Clone, Copy, Debug, PartialEq, Eq, Hash, Structural)]
pub enum DeliveryStatus {
    New,
    Estimating,
    Expired,
    ReadyForApproval,
    Collecting,
    Preparing,
    Delivering,
    Delivered,
    Returning,
    Returned,
    Failed,
    Cancelled,
}

impl DeliveryStatus {
    /// The name of the value on the wire.
    pub open spec fn spec_wire_name(self) -> Seq<char> {
        match self {
            DeliveryStatus::New => "NEW"@,
            DeliveryStatus::Estimating => "ESTIMATING"@,
            DeliveryStatus::Expired => "EXPIRED"@,
            DeliveryStatus::ReadyForApproval => "READY_FOR_APPROVAL"@,
            DeliveryStatus::Collecting => "COLLECTING"@,
            DeliveryStatus::Preparing => "PREPARING"@,
            DeliveryStatus::Delivering => "DELIVERING"@,
            DeliveryStatus::Delivered => "DELIVERED"@,
            DeliveryStatus::Returning => "RETURNING"@,
            DeliveryStatus::Returned => "RETURNED"@,
            DeliveryStatus::Failed => "FAILED"@,
            DeliveryStatus::Cancelled => "CANCELLED"@,
        }
    }

    pub open spec fn spec_from_wire_name(s: Seq<char>) -> Option<DeliveryStatus> {
        if s == "NEW"@ {
            Some(DeliveryStatus::New)
        } else if s == "ESTIMATING"@ {
            Some(DeliveryStatus::Estimating)
        } else if s == "EXPIRED"@ {
            Some(DeliveryStatus::Expired)
        } else if s == "READY_FOR_APPROVAL"@ {
            Some(DeliveryStatus::ReadyForApproval)
        } else if s == "COLLECTING"@ {
            Some(DeliveryStatus::Collecting)
        } else if s == "PREPARING"@ {
            Some(DeliveryStatus::Preparing)
        } else if s == "DELIVERING"@ {
            Some(DeliveryStatus::Delivering)
        } else if s == "DELIVERED"@ {
            Some(DeliveryStatus::Delivered)
        } else if s == "RETURNING"@ {
            Some(DeliveryStatus::Returning)
        } else if s == "RETURNED"@ {
            Some(DeliveryStatus::Returned)
        } else if s == "FAILED"@ {
            Some(DeliveryStatus::Failed)
        } else if s == "CANCELLED"@ {
            Some(DeliveryStatus::Cancelled)
        } else {
            None
        }
    }

    pub open spec fn spec_from_json(j: Json) -> Result<DeliveryStatus, DecodeError> {
        match j {
            Json::Str(s) => match DeliveryStatus::spec_from_wire_name(s@) {
                Some(v) => Ok(v),
                None => Err(DecodeError::MalformedResponse),
            },
            _ => Err(DecodeError::MalformedResponse),
        }
    }

    pub fn wire_name(&self) -> (r: &'static str)
        ensures
            r@ == self.spec_wire_name(),
    {
        match self {
            DeliveryStatus::New => "NEW",
            DeliveryStatus::Estimating => "ESTIMATING",
            DeliveryStatus::Expired => "EXPIRED",
            DeliveryStatus::ReadyForApproval => "READY_FOR_APPROVAL",
            DeliveryStatus::Collecting => "COLLECTING",
            DeliveryStatus::Preparing => "PREPARING",
            DeliveryStatus::Delivering => "DELIVERING",
            DeliveryStatus::Delivered => "DELIVERED",
            DeliveryStatus::Returning => "RETURNING",
            DeliveryStatus::Returned => "RETURNED",
            DeliveryStatus::Failed => "FAILED",
            DeliveryStatus::Cancelled => "CANCELLED",
        }
    }

    pub fn from_wire_name(s: &str) -> (r: Option<DeliveryStatus>)
        ensures
            r == DeliveryStatus::spec_from_wire_name(s@),
    {
        if same_text(s, "NEW") {
            Some(DeliveryStatus::New)
        } else if same_text(s, "ESTIMATING") {
            Some(DeliveryStatus::Estimating)
        } else if same_text(s, "EXPIRED") {
            Some(DeliveryStatus::Expired)
        } else if same_text(s, "READY_FOR_APPROVAL") {
            Some(DeliveryStatus::ReadyForApproval)
        } else if same_text(s, "COLLECTING") {
            Some(DeliveryStatus::Collecting)
        } else if same_text(s, "PREPARING") {
            Some(DeliveryStatus::Preparing)
        } else if same_text(s, "DELIVERING") {
            Some(DeliveryStatus::Delivering)
        } else if same_text(s, "DELIVERED") {
            Some(DeliveryStatus::Delivered)
        } else if same_text(s, "RETURNING") {
            Some(DeliveryStatus::Returning)
        } else if same_text(s, "RETURNED") {
            Some(DeliveryStatus::Returned)
        } else if same_text(s, "FAILED") {
            Some(DeliveryStatus::Failed)
        } else if same_text(s, "CANCELLED") {
            Some(DeliveryStatus::Cancelled)
        } else {
            None
        }
    }

    /// The value as a JSON string holding its wire name.
    pub fn to_json(&self) -> (r: Json)
        ensures
            r matches Json::Str(s) && s@ == self.spec_wire_name(),
            DeliveryStatus::read_from(r, *self),
    {
        proof {
            reveal_strlit("NEW");
            reveal_strlit("ESTIMATING");
            reveal_strlit("EXPIRED");
            reveal_strlit("READY_FOR_APPROVAL");
            reveal_strlit("COLLECTING");
            reveal_strlit("PREPARING");
            reveal_strlit("DELIVERING");
            reveal_strlit("DELIVERED");
            reveal_strlit("RETURNING");
            reveal_strlit("RETURNED");
            reveal_strlit("FAILED");
            reveal_strlit("CANCELLED");
            assert("NEW"@.len() == 3);
            assert("ESTIMATING"@.len() == 10);
            assert("EXPIRED"@.len() == 7);
            assert("READY_FOR_APPROVAL"@.len() == 18);
            assert("COLLECTING"@.len() == 10);
            assert("PREPARING"@.len() == 9);
            assert("DELIVERING"@.len() == 10);
            assert("DELIVERED"@.len() == 9);
            assert("RETURNING"@.len() == 9);
            assert("RETURNED"@.len() == 8);
            assert("FAILED"@.len() == 6);
            assert("CANCELLED"@.len() == 9);
            assert("CANCELLED"@[0] == 'C');
            assert("COLLECTING"@[0] == 'C');
            assert("DELIVERED"@[0] == 'D');
            assert("DELIVERING"@[0] == 'D');
            assert("ESTIMATING"@[0] == 'E');
            assert("PREPARING"@[0] == 'P');
            assert("RETURNING"@[0] == 'R');
        }
        Json::Str(String::from_str(self.wire_name()))
    }

    pub fn from_json(j: &Json) -> (r: Result<DeliveryStatus, DecodeError>)
        ensures
            r == DeliveryStatus::spec_from_json(*j),
    {
        match j {
            Json::Str(s) => match DeliveryStatus::from_wire_name(s.as_str()) {
                Some(v) => Ok(v),
                None => Err(DecodeError::MalformedResponse),
            },
            _ => Err(DecodeError::MalformedResponse),
        }
    }

    /// Whether the JSON value `j` names a value.
    pub open spec fn readable(j: Json) -> bool {
        DeliveryStatus::spec_from_json(j) is Ok
    }

    /// `v` is what the JSON value `j` says.
    pub open spec fn read_from(j: Json, v: DeliveryStatus) -> bool {
        DeliveryStatus::spec_from_json(j) == Ok::<DeliveryStatus, DecodeError>(v)
    }

    /// `j` is what [`Self::to_json`] writes for `v`.
    pub open spec fn writes_as(j: Json, v: DeliveryStatus) -> bool {
        DeliveryStatus::read_from(j, v)
    }
}

/// An operation listed with an order.
#[derive(Clone, Debug, PartialEq)]
pub struct OrderResponseOperation {
    pub amount: Decimal,
    pub operation_id: String,
    pub operation_type: OperationType,
    pub order_id: String,
    pub approval_code: Option<String>,
    pub created: Option<Timestamp>,
    pub external_operation_id: Option<String>,
    /// The parameters of the operation, as JSON text.
    pub params: Option<String>,
    pub reason: Option<String>,
    pub status: OperationStatus,
    pub updated: Option<Timestamp>,
}

impl OrderResponseOperation {
    /// `v` is what the JSON object `doc` says, field by field.
    pub open spec fn read_from(doc: Json, v: OrderResponseOperation) -> bool {
        &&& doc is Object
        &&& field_holds(member(doc, "amount"@), |j: Json, x: Decimal| decimal_string_value(j) == Ok::<Decimal, DecodeError>(x), v.amount)
        &&& field_holds(member(doc, "operationId"@), |j: Json, x: String| string_value(j) == Ok::<String, DecodeError>(x), v.operation_id)
        &&& field_holds(member(doc, "operationType"@), |j: Json, x: OperationType| OperationType::read_from(j, x), v.operation_type)
        &&& field_holds(member(doc, "orderId"@), |j: Json, x: String| string_value(j) == Ok::<String, DecodeError>(x), v.order_id)
        &&& opt_field_holds(member(doc, "approvalCode"@), |j: Json, x: String| string_value(j) == Ok::<String, DecodeError>(x), v.approval_code)
        &&& opt_field_holds(member(doc, "created"@), |j: Json, x: Timestamp| timestamp_value(j) == Ok::<Timestamp, DecodeError>(x), v.created)
        &&& opt_field_holds(member(doc, "externalOperationId"@), |j: Json, x: String| string_value(j) == Ok::<String, DecodeError>(x), v.external_operation_id)
        &&& match v.params {
            None => is_null_or_absent(member(doc, "params"@)),
            Some(p) => member(doc, "params"@) matches Some(j) && j != Json::Null && p@ == json_text(j),
        }
        &&& opt_field_holds(member(doc, "reason"@), |j: Json, x: String| string_value(j) == Ok::<String, DecodeError>(x), v.reason)
        &&& field_holds(member(doc, "status"@), |j: Json, x: OperationStatus| OperationStatus::read_from(j, x), v.status)
        &&& opt_field_holds(member(doc, "updated"@), |j: Json, x: Timestamp| timestamp_value(j) == Ok::<Timestamp, DecodeError>(x), v.updated)
    }

    /// Whether every field of `doc` can be read: required fields are present,
    /// and every field that is there holds a value of its kind.
    pub open spec fn readable(doc: Json) -> bool {
        &&& doc is Object
        &&& match member(doc, "amount"@) {
            Some(j) => decimal_string_value(j) is Ok,
            None => false,
        }
        &&& match member(doc, "operationId"@) {
            Some(j) => string_value(j) is Ok,
            None => false,
        }
        &&& match member(doc, "operationType"@) {
            Some(j) => OperationType::readable(j),
            None => false,
        }
        &&& match member(doc, "orderId"@) {
            Some(j) => string_value(j) is Ok,
            None => false,
        }
        &&& match member(doc, "approvalCode"@) {
            Some(j) => j == Json::Null || string_value(j) is Ok,
            None => true,
        }
        &&& match member(doc, "created"@) {
            Some(j) => j == Json::Null || timestamp_value(j) is Ok,
            None => true,
        }
        &&& match member(doc, "externalOperationId"@) {
            Some(j) => j == Json::Null || string_value(j) is Ok,
            None => true,
        }
        &&& match member(doc, "reason"@) {
            Some(j) => j == Json::Null || string_value(j) is Ok,
            None => true,
        }
        &&& match member(doc, "status"@) {
            Some(j) => OperationStatus::readable(j),
            None => false,
        }
        &&& match member(doc, "updated"@) {
            Some(j) => j == Json::Null || timestamp_value(j) is Ok,
            None => true,
        }
    }

    /// Reads the value from a JSON object with camelCase keys. A missing or
    /// `null` optional field is unset; members it does not know are ignored.
    #[verifier::rlimit(40)]
    pub fn from_json(doc: &Json) -> (r: Result<OrderResponseOperation, DecodeError>)
        ensures
            !(*doc is Object) ==> r == Err::<OrderResponseOperation, DecodeError>(DecodeError::MalformedResponse),
            r matches Ok(v) ==> OrderResponseOperation::read_from(*doc, v),
            r is Ok <==> OrderResponseOperation::readable(*doc),
    {
        if !is_object(doc) {
            return Err(DecodeError::MalformedResponse);
        }
        let amount = match get_member(doc, "amount") {
            Some(j) => match read_decimal_string(j) {
                Ok(v) => v,
                Err(e) => return Err(e),
            },
            None => return Err(DecodeError::MalformedResponse),
        };
        let operation_id = match get_member(doc, "operationId") {
            Some(j) => match read_string(j) {
                Ok(v) => v,
                Err(e) => return Err(e),
            },
            None => return Err(DecodeError::MalformedResponse),
        };
        let operation_type = match get_member(doc, "operationType") {
            Some(j) => match OperationType::from_json(j) {
                Ok(v) => v,
                Err(e) => return Err(e),
            },
            None => return Err(DecodeError::MalformedResponse),
        };
        let order_id = match get_member(doc, "orderId") {
            Some(j) => match read_string(j) {
                Ok(v) => v,
                Err(e) => return Err(e),
            },
            None => return Err(DecodeError::MalformedResponse),
        };
        let approval_code = match get_member(doc, "approvalCode") {
            None => None,
            Some(Json::Null) => None,
            Some(j) => match read_string(j) {
                Ok(v) => Some(v),
                Err(e) => return Err(e),
            },
        };
        let created = match get_member(doc, "created") {
            None => None,
            Some(Json::Null) => None,
            Some(j) => match read_timestamp(j) {
                Ok(v) => Some(v),
                Err(e) => return Err(e),
            },
        };
        let external_operation_id = match get_member(doc, "externalOperationId") {
            None => None,
            Some(Json::Null) => None,
            Some(j) => match read_string(j) {
                Ok(v) => Some(v),
                Err(e) => return Err(e),
            },
        };
        let params = match get_member(doc, "params") {
            None => None,
            Some(Json::Null) => None,
            Some(j) => Some(write_document(j)),
        };
        let reason = match get_member(doc, "reason") {
            None => None,
            Some(Json::Null) => None,
            Some(j) => match read_string(j) {
                Ok(v) => Some(v),
                Err(e) => return Err(e),
            },
        };
        let status = match get_member(doc, "status") {
            Some(j) => match OperationStatus::from_json(j) {
                Ok(v) => v,
                Err(e) => return Err(e),
            },
            None => return Err(DecodeError::MalformedResponse),
        };
        let updated = match get_member(doc, "updated") {
            None => None,
            Some(Json::Null) => None,
            Some(j) => match read_timestamp(j) {
                Ok(v) => Some(v),
                Err(e) => return Err(e),
            },
        };
        Ok(OrderResponseOperation {
            amount,
            operation_id,
            operation_type,
            order_id,
            approval_code,
            created,
            external_operation_id,
            params,
            reason,
            status,
            updated,
        })
    }

    /// `vs` is what the JSON array `j` says, element by element.
    pub open spec fn list_read_from(j: Json, vs: Seq<OrderResponseOperation>) -> bool {
        list_holds(Some(j), |e: Json, x: OrderResponseOperation| OrderResponseOperation::read_from(e, x), vs)
    }

    /// Whether the JSON value `j` is an array whose every element can be read.
    pub open spec fn list_readable(j: Json) -> bool {
        j matches Json::Array(a) && forall|i: int| 0 <= i < a@.len() ==> #[trigger] OrderResponseOperation::readable(a@[i])
    }

    /// Reads a JSON array of values, failing on the first that cannot be read.
    pub fn list_from_json(j: &Json) -> (r: Result<Vec<OrderResponseOperation>, DecodeError>)
        ensures
            !(*j is Array) ==> r == Err::<Vec<OrderResponseOperation>, DecodeError>(DecodeError::MalformedResponse),
            r matches Ok(v) ==> OrderResponseOperation::list_read_from(*j, v@),
            r is Ok <==> OrderResponseOperation::list_readable(*j),
    {
        match j {
            Json::Array(a) => {
                let mut out: Vec<OrderResponseOperation> = Vec::new();
                let mut i: usize = 0;
                while i < a.len()
                    invariant
                        i <= a.len(),
                        out@.len() == i,
                        *j == Json::Array(*a),
                        forall|k: int| 0 <= k < i ==> #[trigger] OrderResponseOperation::read_from(a@[k], out@[k]),
                        forall|k: int| 0 <= k < i ==> #[trigger] OrderResponseOperation::readable(a@[k]),
                    decreases a.len() - i,
                {
                    match OrderResponseOperation::from_json(&a[i]) {
                        Ok(v) => out.push(v),
                        Err(e) => {
                            proof {
                                assert(!OrderResponseOperation::readable(a@[i as int]));
                                assert(!OrderResponseOperation::list_readable(*j)) by {
                                    if OrderResponseOperation::list_readable(*j) {
                                        assert((*j)->Array_0 == *a);
                                        assert(OrderResponseOperation::readable((*j)->Array_0@[i as int]));
                                    }
                                }
                            }
                            return Err(e);
                        },
                    }
                    i = i + 1;
                }
                Ok(out)
            },
            _ => Err(DecodeError::MalformedResponse),
        }
    }
}

/// The kind of an operation.
#[derive(Clone, Copy, Debug, PartialEq, Eq, Hash, Structural)]
pub enum OperationType {
    Authorize,
    BindCard,
    Refund,
    Capture,
    Void,
    Recurring,
    Prepayment,
    Submit,
}

impl OperationType {
    /// The name of the value on the wire.
    pub open spec fn spec_wire_name(self) -> Seq<char> {
        match self {
            OperationType::Authorize => "AUTHORIZE"@,
            OperationType::BindCard => "BIND_CARD"@,
            OperationType::Refund => "REFUND"@,
            OperationType::Capture => "CAPTURE"@,
            OperationType::Void => "VOID"@,
            OperationType::Recurring => "RECURRING"@,
            OperationType::Prepayment => "PREPAYMENT"@,
            OperationType::Submit => "SUBMIT"@,
        }
    }

    pub open spec fn spec_from_wire_name(s: Seq<char>) -> Option<OperationType> {
        if s == "AUTHORIZE"@ {
            Some(OperationType::Authorize)
        } else if s == "BIND_CARD"@ {
            Some(OperationType::BindCard)
        } else if s == "REFUND"@ {
            Some(OperationType::Refund)
        } else if s == "CAPTURE"@ {
            Some(OperationType::Capture)
        } else if s == "VOID"@ {
            Some(OperationType::Void)
        } else if s == "RECURRING"@ {
            Some(OperationType::Recurring)
        } else if s == "PREPAYMENT"@ {
            Some(OperationType::Prepayment)
        } else if s == "SUBMIT"@ {
            Some(OperationType::Submit)
        } else {
            None
        }
    }

    pub open spec fn spec_from_json(j: Json) -> Result<OperationType, DecodeError> {
        match j {
            Json::Str(s) => match OperationType::spec_from_wire_name(s@) {
                Some(v) => Ok(v),
                None => Err(DecodeError::MalformedResponse),
            },
            _ => Err(DecodeError::MalformedResponse),
        }
    }

    pub fn wire_name(&self) -> (r: &'static str)
        ensures
            r@ == self.spec_wire_name(),
    {
        match self {
            OperationType::Authorize => "AUTHORIZE",
            OperationType::BindCard => "BIND_CARD",
            OperationType::Refund => "REFUND",
            OperationType::Capture => "CAPTURE",
            OperationType::Void => "VOID",
            OperationType::Recurring => "RECURRING",
            OperationType::Prepayment => "PREPAYMENT",
            OperationType::Submit => "SUBMIT",
        }
    }

    pub fn from_wire_name(s: &str) -> (r: Option<OperationType>)
        ensures
            r == OperationType::spec_from_wire_name(s@),
    {
        if same_text(s, "AUTHORIZE") {
            Some(OperationType::Authorize)
        } else if same_text(s, "BIND_CARD") {
            Some(OperationType::BindCard)
        } else if same_text(s, "REFUND") {
            Some(OperationType::Refund)
        } else if same_text(s, "CAPTURE") {
            Some(OperationType::Capture)
        } else if same_text(s, "VOID") {
            Some(OperationType::Void)
        } else if same_text(s, "RECURRING") {
            Some(OperationType::Recurring)
        } else if same_text(s, "PREPAYMENT") {
            Some(OperationType::Prepayment)
        } else if same_text(s, "SUBMIT") {
            Some(OperationType::Submit)
        } else {
            None
        }
    }

    /// The value as a JSON string holding its wire name.
    pub fn to_json(&self) -> (r: Json)
        ensures
            r matches Json::Str(s) && s@ == self.spec_wire_name(),
            OperationType::read_from(r, *self),
    {
        proof {
            reveal_strlit("AUTHORIZE");
            reveal_strlit("BIND_CARD");
            reveal_strlit("REFUND");
            reveal_strlit("CAPTURE");
            reveal_strlit("VOID");
            reveal_strlit("RECURRING");
            reveal_strlit("PREPAYMENT");
            reveal_strlit("SUBMIT");
            assert("AUTHORIZE"@.len() == 9);
            assert("BIND_CARD"@.len() == 9);
            assert("REFUND"@.len() == 6);
            assert("CAPTURE"@.len() == 7);
            assert("VOID"@.len() == 4);
            assert("RECURRING"@.len() == 9);
            assert("PREPAYMENT"@.len() == 10);
            assert("SUBMIT"@.len() == 6);
            assert("AUTHORIZE"@[0] == 'A');
            assert("BIND_CARD"@[0] == 'B');
            assert("RECURRING"@[0] == 'R');
            assert("REFUND"@[0] == 'R');
            assert("SUBMIT"@[0] == 'S');
        }
        Json::Str(String::from_str(self.wire_name()))
    }

    pub fn from_json(j: &Json) -> (r: Result<OperationType, DecodeError>)
        ensures
            r == OperationType::spec_from_json(*j),
    {
        match j {
            Json::Str(s) => match OperationType::from_wire_name(s.as_str()) {
                Some(v) => Ok(v),
                None => Err(DecodeError::MalformedResponse),
            },
            _ => Err(DecodeError::MalformedResponse),
        }
    }

    /// Whether the JSON value `j` names a value.
    pub open spec fn readable(j: Json) -> bool {
        OperationType::spec_from_json(j) is Ok
    }

    /// `v` is what the JSON value `j` says.
    pub open spec fn read_from(j: Json, v: OperationType) -> bool {
        OperationType::spec_from_json(j) == Ok::<OperationType, DecodeError>(v)
    }

    /// `j` is what [`Self::to_json`] writes for `v`.
    pub open spec fn writes_as(j: Json, v: OperationType) -> bool {
        OperationType::read_from(j, v)
    }
}

/// Where an operation stands.
#[derive(Clone, Copy, Debug, PartialEq, Eq, Hash, Structural)]
pub enum OperationStatus {
    Pending,
    Success,
    Fail,
}

impl OperationStatus {
    /// The name of the value on the wire.
    pub open spec fn spec_wire_name(self) -> Seq<char> {
        match self {
            OperationStatus::Pending => "PENDING"@,
            OperationStatus::Success => "SUCCESS"@,
            OperationStatus::Fail => "FAIL"@,
        }
    }

    pub open spec fn spec_from_wire_name(s: Seq<char>) -> Option<OperationStatus> {
        if s == "PENDING"@ {
            Some(OperationStatus::Pending)
        } else if s == "SUCCESS"@ {
            Some(OperationStatus::Success)
        } else if s == "FAIL"@ {
            Some(OperationStatus::Fail)
        } else {
            None
        }
    }

    pub open spec fn spec_from_json(j: Json) -> Result<OperationStatus, DecodeError> {
        match j {
            Json::Str(s) => match OperationStatus::spec_from_wire_name(s@) {
                Some(v) => Ok(v),
                None => Err(DecodeError::MalformedResponse),
            },
            _ => Err(DecodeError::MalformedResponse),
        }
    }

    pub fn wire_name(&self) -> (r: &'static str)
        ensures
            r@ == self.spec_wire_name(),
    {
        match self {
            OperationStatus::Pending => "PENDING",
            OperationStatus::Success => "SUCCESS",
            OperationStatus::Fail => "FAIL",
        }
    }

    pub fn from_wire_name(s: &str) -> (r: Option<OperationStatus>)
        ensures
            r == OperationStatus::spec_from_wire_name(s@),
    {
        if same_text(s, "PENDING") {
            Some(OperationStatus::Pending)
        } else if same_text(s, "SUCCESS") {
            Some(OperationStatus::Success)
        } else if same_text(s, "FAIL") {
            Some(OperationStatus::Fail)
        } else {
            None
        }
    }

    /// The value as a JSON string holding its wire name.
    pub fn to_json(&self) -> (r: Json)
        ensures
            r matches Json::Str(s) && s@ == self.spec_wire_name(),
            OperationStatus::read_from(r, *self),
    {
        proof {
            reveal_strlit("PENDING");
            reveal_strlit("SUCCESS");
            reveal_strlit("FAIL");
            assert("PENDING"@.len() == 7);
            assert("SUCCESS"@.len() == 7);
            assert("FAIL"@.len() == 4);
            assert("PENDING"@[0] == 'P');
            assert("SUCCESS"@[0] == 'S');
        }
        Json::Str(String::from_str(self.wire_name()))
    }

    pub fn from_json(j: &Json) -> (r: Result<OperationStatus, DecodeError>)
        ensures
            r == OperationStatus::spec_from_json(*j),
    {
        match j {
            Json::Str(s) => match OperationStatus::from_wire_name(s.as_str()) {
                Some(v) => Ok(v),
                None => Err(DecodeError::MalformedResponse),
            },
            _ => Err(DecodeError::MalformedResponse),
        }
    }

    /// Whether the JSON value `j` names a value.
    pub open spec fn readable(j: Json) -> bool {
        OperationStatus::spec_from_json(j) is Ok
    }

    /// `v` is what the JSON value `j` says.
    pub open spec fn read_from(j: Json, v: OperationStatus) -> bool {
        OperationStatus::spec_from_json(j) == Ok::<OperationStatus, DecodeError>(v)
    }

    /// `j` is what [`Self::to_json`] writes for `v`.
    pub open spec fn writes_as(j: Json, v: OperationStatus) -> bool {
        OperationStatus::read_from(j, v)
    }
}

/// An order as the gateway holds it.
#[derive(Clone, Debug, PartialEq)]
pub struct BaseMerchantApiOrder {
    pub cart: Cart,
    pub currency_code: CurrencyCode,
    pub created: Option<Timestamp>,
    pub is_prepayment: bool,
    pub merchant_id: Option<String>,
    pub metadata: Option<String>,
    pub order_amount: Decimal,
    pub order_id: String,
    pub payment_method: Option<PaymentMethod>,
    pub payment_status: Option<PaymentStatus>,
    pub payment_url: Option<String>,
    pub reason: Option<String>,
    pub shipping_method: Option<ShippingMethod>,
    pub updated: Option<Timestamp>,
}

impl BaseMerchantApiOrder {
    /// `v` is what the JSON object `doc` says, field by field.
    pub open spec fn read_from(doc: Json, v: BaseMerchantApiOrder) -> bool {
        &&& doc is Object
        &&& field_holds(member(doc, "cart"@), |j: Json, x: Cart| Cart::read_from(j, x), v.cart)
        &&& if member(doc, "currencyCode"@) is None {
            v.currency_code == CurrencyCode::Rub
        } else {
            field_holds(member(doc, "currencyCode"@), |j: Json, x: CurrencyCode| CurrencyCode::read_from(j, x), v.currency_code)
        }
        &&& opt_field_holds(member(doc, "created"@), |j: Json, x: Timestamp| timestamp_value(j) == Ok::<Timestamp, DecodeError>(x), v.created)
        &&& if member(doc, "isPrepayment"@) is None {
            v.is_prepayment == false
        } else {
            field_holds(member(doc, "isPrepayment"@), |j: Json, x: bool| bool_value(j) == Ok::<bool, DecodeError>(x), v.is_prepayment)
        }
        &&& opt_field_holds(member(doc, "merchantId"@), |j: Json, x: String| string_value(j) == Ok::<String, DecodeError>(x), v.merchant_id)
        &&& opt_field_holds(member(doc, "metadata"@), |j: Json, x: String| string_value(j) == Ok::<String, DecodeError>(x), v.metadata)
        &&& field_holds(member(doc, "orderAmount"@), |j: Json, x: Decimal| decimal_string_value(j) == Ok::<Decimal, DecodeError>(x), v.order_amount)
        &&& field_holds(member(doc, "orderId"@), |j: Json, x: String| string_value(j) == Ok::<String, DecodeError>(x), v.order_id)
        &&& opt_field_holds(member(doc, "paymentMethod"@), |j: Json, x: PaymentMethod| PaymentMethod::read_from(j, x), v.payment_method)
        &&& opt_field_holds(member(doc, "paymentStatus"@), |j: Json, x: PaymentStatus| PaymentStatus::read_from(j, x), v.payment_status)
        &&& opt_field_holds(member(doc, "paymentUrl"@), |j: Json, x: String| string_value(j) == Ok::<String, DecodeError>(x), v.payment_url)
        &&& opt_field_holds(member(doc, "reason"@), |j: Json, x: String| string_value(j) == Ok::<String, DecodeError>(x), v.reason)
        &&& opt_field_holds(member(doc, "shippingMethod"@), |j: Json, x: ShippingMethod| ShippingMethod::read_from(j, x), v.shipping_method)
        &&& opt_field_holds(member(doc, "updated"@), |j: Json, x: Timestamp| timestamp_value(j) == Ok::<Timestamp, DecodeError>(x), v.updated)
    }

    /// Whether every field of `doc` can be read: required fields are present,
    /// and every field that is there holds a value of its kind.
    pub open spec fn readable(doc: Json) -> bool {
        &&& doc is Object
        &&& match member(doc, "cart"@) {
            Some(j) => Cart::readable(j),
            None => false,
        }
        &&& match member(doc, "currencyCode"@) {
            Some(j) => CurrencyCode::readable(j),
            None => true,
        }
        &&& match member(doc, "created"@) {
            Some(j) => j == Json::Null || timestamp_value(j) is Ok,
            None => true,
        }
        &&& match member(doc, "isPrepayment"@) {
            Some(j) => bool_value(j) is Ok,
            None => true,
        }
        &&& match member(doc, "merchantId"@) {
            Some(j) => j == Json::Null || string_value(j) is Ok,
            None => true,
        }
        &&& match member(doc, "metadata"@) {
            Some(j) => j == Json::Null || string_value(j) is Ok,
            None => true,
        }
        &&& match member(doc, "orderAmount"@) {
            Some(j) => decimal_string_value(j) is Ok,
            None => false,
        }
        &&& match member(doc, "orderId"@) {
            Some(j) => string_value(j) is Ok,
            None => false,
        }
        &&& match member(doc, "paymentMethod"@) {
            Some(j) => j == Json::Null || PaymentMethod::readable(j),
            None => true,
        }
        &&& match member(doc, "paymentStatus"@) {
            Some(j) => j == Json::Null || PaymentStatus::readable(j),
            None => true,
        }
        &&& match member(doc, "paymentUrl"@) {
            Some(j) => j == Json::Null || string_value(j) is Ok,
            None => true,
        }
        &&& match member(doc, "reason"@) {
            Some(j) => j == Json::Null || string_value(j) is Ok,
            None => true,
        }
        &&& match member(doc, "shippingMethod"@) {
            Some(j) => j == Json::Null || ShippingMethod::readable(j),
            None => true,
        }
        &&& match member(doc, "updated"@) {
            Some(j) => j == Json::Null || timestamp_value(j) is Ok,
            None => true,
        }
    }

    /// Reads the value from a JSON object with camelCase keys. A missing or
    /// `null` optional field is unset; members it does not know are ignored.
    #[verifier::spinoff_prover]
    #[verifier::rlimit(100)]
    pub fn from_json(doc: &Json) -> (r: Result<BaseMerchantApiOrder, DecodeError>)
        ensures
            !(*doc is Object) ==> r == Err::<BaseMerchantApiOrder, DecodeError>(DecodeError::MalformedResponse),
            r matches Ok(v) ==> BaseMerchantApiOrder::read_from(*doc, v),
            r is Ok <==> BaseMerchantApiOrder::readable(*doc),
    {
        if !is_object(doc) {
            return Err(DecodeError::MalformedResponse);
        }
        let cart = match get_member(doc, "cart") {
            Some(j) => match Cart::from_json(j) {
                Ok(v) => v,
                Err(e) => return Err(e),
            },
            None => return Err(DecodeError::MalformedResponse),
        };
        let currency_code = match get_member(doc, "currencyCode") {
            Some(j) => match CurrencyCode::from_json(j) {
                Ok(v) => v,
                Err(e) => return Err(e),
            },
            None => CurrencyCode::default(),
        };
        let created = match get_member(doc, "created") {
            None => None,
            Some(Json::Null) => None,
            Some(j) => match read_timestamp(j) {
                Ok(v) => Some(v),
                Err(e) => return Err(e),
            },
        };
        let is_prepayment = match get_member(doc, "isPrepayment") {
            Some(j) => match read_bool(j) {
                Ok(v) => v,
                Err(e) => return Err(e),
            },
            None => false,
        };
        let merchant_id = match get_member(doc, "merchantId") {
            None => None,
            Some(Json::Null) => None,
            Some(j) => match read_string(j) {
                Ok(v) => Some(v),
                Err(e) => return Err(e),
            },
        };
        let metadata = match get_member(doc, "metadata") {
            None => None,
            Some(Json::Null) => None,
            Some(j) => match read_string(j) {
                Ok(v) => Some(v),
                Err(e) => return Err(e),
            },
        };
        let order_amount = match get_member(doc, "orderAmount") {
            Some(j) => match read_decimal_string(j) {
                Ok(v) => v,
                Err(e) => return Err(e),
            },
            None => return Err(DecodeError::MalformedResponse),
        };
        let order_id = match get_member(doc, "orderId") {
            Some(j) => match read_string(j) {
                Ok(v) => v,
                Err(e) => return Err(e),
            },
            None => return Err(DecodeError::MalformedResponse),
        };
        let payment_method = match get_member(doc, "paymentMethod") {
            None => None,
            Some(Json::Null) => None,
            Some(j) => match PaymentMethod::from_json(j) {
                Ok(v) => Some(v),
                Err(e) => return Err(e),
            },
        };
        let payment_status = match get_member(doc, "paymentStatus") {
            None => None,
            Some(Json::Null) => None,
            Some(j) => match PaymentStatus::from_json(j) {
                Ok(v) => Some(v),
                Err(e) => return Err(e),
            },
        };
        let payment_url = match get_member(doc, "paymentUrl") {
            None => None,
            Some(Json::Null) => None,
            Some(j) => match read_string(j) {
                Ok(v) => Some(v),
                Err(e) => return Err(e),
            },
        };
        let reason = match get_member(doc, "reason") {
            None => None,
            Some(Json::Null) => None,
            Some(j) => match read_string(j) {
                Ok(v) => Some(v),
                Err(e) => return Err(e),
            },
        };
        let shipping_method = match get_member(doc, "shippingMethod") {
            None => None,
            Some(Json::Null) => None,
            Some(j) => match ShippingMethod::from_json(j) {
                Ok(v) => Some(v),
                Err(e) => return Err(e),
            },
        };
        let updated = match get_member(doc, "updated") {
            None => None,
            Some(Json::Null) => None,
            Some(j) => match read_timestamp(j) {
                Ok(v) => Some(v),
                Err(e) => return Err(e),
            },
        };
        Ok(BaseMerchantApiOrder {
            cart,
            currency_code,
            created,
            is_prepayment,
            merchant_id,
            metadata,
            order_amount,
            order_id,
            payment_method,
            payment_status,
            payment_url,
            reason,
            shipping_method,
            updated,
        })
    }
}

/// Where the payment of an order stands.
#[derive(Clone, Copy, Debug, PartialEq, Eq, Hash, Structural)]
pub enum PaymentStatus {
    Pending,
    Authorized,
    Captured,
    Voided,
    Refunded,
    Confirmed,
    PartiallyRefunded,
    Failed,
}

impl PaymentStatus {
    /// The name of the value on the wire.
    pub open spec fn spec_wire_name(self) -> Seq<char> {
        match self {
            PaymentStatus::Pending => "PENDING"@,
            PaymentStatus::Authorized => "AUTHORIZED"@,
            PaymentStatus::Captured => "CAPTURED"@,
            PaymentStatus::Voided => "VOIDED"@,
            PaymentStatus::Refunded => "REFUNDED"@,
            PaymentStatus::Confirmed => "CONFIRMED"@,
            PaymentStatus::PartiallyRefunded => "PARTIALLY_REFUNDED"@,
            PaymentStatus::Failed => "FAILED"@,
        }
    }

    pub open spec fn spec_from_wire_name(s: Seq<char>) -> Option<PaymentStatus> {
        if s == "PENDING"@ {
            Some(PaymentStatus::Pending)
        } else if s == "AUTHORIZED"@ {
            Some(PaymentStatus::Authorized)
        } else if s == "CAPTURED"@ {
            Some(PaymentStatus::Captured)
        } else if s == "VOIDED"@ {
            Some(PaymentStatus::Voided)
        } else if s == "REFUNDED"@ {
            Some(PaymentStatus::Refunded)
        } else if s == "CONFIRMED"@ {
            Some(PaymentStatus::Confirmed)
        } else if s == "PARTIALLY_REFUNDED"@ {
            Some(PaymentStatus::PartiallyRefunded)
        } else if s == "FAILED"@ {
            Some(PaymentStatus::Failed)
        } else {
            None
        }
    }

    pub open spec fn spec_from_json(j: Json) -> Result<PaymentStatus, DecodeError> {
        match j {
            Json::Str(s) => match PaymentStatus::spec_from_wire_name(s@) {
                Some(v) => Ok(v),
                None => Err(DecodeError::MalformedResponse),
            },
            _ => Err(DecodeError::MalformedResponse),
        }
    }

    pub fn wire_name(&self) -> (r: &'static str)
        ensures
            r@ == self.spec_wire_name(),
    {
        match self {
            PaymentStatus::Pending => "PENDING",
            PaymentStatus::Authorized => "AUTHORIZED",
            PaymentStatus::Captured => "CAPTURED",
            PaymentStatus::Voided => "VOIDED",
            PaymentStatus::Refunded => "REFUNDED",
            PaymentStatus::Confirmed => "CONFIRMED",
            PaymentStatus::PartiallyRefunded => "PARTIALLY_REFUNDED",
            PaymentStatus::Failed => "FAILED",
        }
    }

    pub fn from_wire_name(s: &str) -> (r: Option<PaymentStatus>)
        ensures
            r == PaymentStatus::spec_from_wire_name(s@),
    {
        if same_text(s, "PENDING") {
            Some(PaymentStatus::Pending)
        } else if same_text(s, "AUTHORIZED") {
            Some(PaymentStatus::Authorized)
        } else if same_text(s, "CAPTURED") {
            Some(PaymentStatus::Captured)
        } else if same_text(s, "VOIDED") {
            Some(PaymentStatus::Voided)
        } else if same_text(s, "REFUNDED") {
            Some(PaymentStatus::Refunded)
        } else if same_text(s, "CONFIRMED") {
            Some(PaymentStatus::Confirmed)
        } else if same_text(s, "PARTIALLY_REFUNDED") {
            Some(PaymentStatus::PartiallyRefunded)
        } else if same_text(s, "FAILED") {
            Some(PaymentStatus::Failed)
        } else {
            None
        }
    }

    /// The value as a JSON string holding its wire name.
    pub fn to_json(&self) -> (r: Json)
        ensures
            r matches Json::Str(s) && s@ == self.spec_wire_name(),
            PaymentStatus::read_from(r, *self),
    {
        proof {
            reveal_strlit("PENDING");
            reveal_strlit("AUTHORIZED");
            reveal_strlit("CAPTURED");
            reveal_strlit("VOIDED");
            reveal_strlit("REFUNDED");
            reveal_strlit("CONFIRMED");
            reveal_strlit("PARTIALLY_REFUNDED");
            reveal_strlit("FAILED");
            assert("PENDING"@.len() == 7);
            assert("AUTHORIZED"@.len() == 10);
            assert("CAPTURED"@.len() == 8);
            assert("VOIDED"@.len() == 6);
            assert("REFUNDED"@.len() == 8);
            assert("CONFIRMED"@.len() == 9);
            assert("PARTIALLY_REFUNDED"@.len() == 18);
            assert("FAILED"@.len() == 6);
            assert("CAPTURED"@[0] == 'C');
            assert("FAILED"@[0] == 'F');
            assert("REFUNDED"@[0] == 'R');
            assert("VOIDED"@[0] == 'V');
        }
        Json::Str(String::from_str(self.wire_name()))
    }

    pub fn from_json(j: &Json) -> (r: Result<PaymentStatus, DecodeError>)
        ensures
            r == PaymentStatus::spec_from_json(*j),
    {
        match j {
            Json::Str(s) => match PaymentStatus::from_wire_name(s.as_str()) {
                Some(v) => Ok(v),
                None => Err(DecodeError::MalformedResponse),
            },
            _ => Err(DecodeError::MalformedResponse),
        }
    }

    /// Whether the JSON value `j` names a value.
    pub open spec fn readable(j: Json) -> bool {
        PaymentStatus::spec_from_json(j) is Ok
    }

    /// `v` is what the JSON value `j` says.
    pub open spec fn read_from(j: Json, v: PaymentStatus) -> bool {
        PaymentStatus::spec_from_json(j) == Ok::<PaymentStatus, DecodeError>(v)
    }

    /// `j` is what [`Self::to_json`] writes for `v`.
    pub open spec fn writes_as(j: Json, v: PaymentStatus) -> bool {
        PaymentStatus::read_from(j, v)
    }
}

/// The cart of an order as the gateway holds it.
#[derive(Clone, Debug, PartialEq)]
pub struct Cart {
    pub items: Vec<CartItem>,
    pub cart_id: String,
    pub coupons: Vec<Coupon>,
    pub discounts: Vec<Discount>,
    pub external_id: Option<String>,
    pub measurements: Option<Measurements>,
    pub total: CartTotal,
}

impl Cart {
    /// `v` is what the JSON object `doc` says, field by field.
    pub open spec fn read_from(doc: Json, v: Cart) -> bool {
        &&& doc is Object
        &&& list_holds(member(doc, "items"@), |j: Json, x: CartItem| CartItem::read_from(j, x), v.items@)
        &&& field_holds(member(doc, "cartId"@), |j: Json, x: String| string_value(j) == Ok::<String, DecodeError>(x), v.cart_id)
        &&& list_or_empty_holds(member(doc, "coupons"@), |j: Json, x: Coupon| Coupon::read_from(j, x), v.coupons@)
        &&& list_or_empty_holds(member(doc, "discounts"@), |j: Json, x: Discount| Discount::read_from(j, x), v.discounts@)
        &&& opt_field_holds(member(doc, "externalId"@), |j: Json, x: String| string_value(j) == Ok::<String, DecodeError>(x), v.external_id)
        &&& opt_field_holds(member(doc, "measurements"@), |j: Json, x: Measurements| Measurements::read_from(j, x), v.measurements)
        &&& field_holds(member(doc, "total"@), |j: Json, x: CartTotal| CartTotal::read_from(j, x), v.total)
    }

    /// Whether every field of `doc` can be read: required fields are present,
    /// and every field that is there holds a value of its kind.
    pub open spec fn readable(doc: Json) -> bool {
        &&& doc is Object
        &&& match member(doc, "items"@) {
            Some(j) => CartItem::list_readable(j),
            None => false,
        }
        &&& match member(doc, "cartId"@) {
            Some(j) => string_value(j) is Ok,
            None => false,
        }
        &&& match member(doc, "coupons"@) {
            Some(j) => Coupon::list_readable(j),
            None => true,
        }
        &&& match member(doc, "discounts"@) {
            Some(j) => Discount::list_readable(j),
            None => true,
        }
        &&& match member(doc, "externalId"@) {
            Some(j) => j == Json::Null || string_value(j) is Ok,
            None => true,
        }
        &&& match member(doc, "measurements"@) {
            Some(j) => j == Json::Null || Measurements::readable(j),
            None => true,
        }
        &&& match member(doc, "total"@) {
            Some(j) => CartTotal::readable(j),
            None => false,
        }
    }

    /// Reads the value from a JSON object with camelCase keys. A missing or
    /// `null` optional field is unset; members it does not know are ignored.
    #[verifier::rlimit(40)]
    pub fn from_json(doc: &Json) -> (r: Result<Cart, DecodeError>)
        ensures
            !(*doc is Object) ==> r == Err::<Cart, DecodeError>(DecodeError::MalformedResponse),
            r matches Ok(v) ==> Cart::read_from(*doc, v),
            r is Ok <==> Cart::readable(*doc),
    {
        if !is_object(doc) {
            return Err(DecodeError::MalformedResponse);
        }
        let items = match get_member(doc, "items") {
            Some(j) => match CartItem::list_from_json(j) {
                Ok(v) => v,
                Err(e) => return Err(e),
            },
            None => return Err(DecodeError::MalformedResponse),
        };
        let cart_id = match get_member(doc, "cartId") {
            Some(j) => match read_string(j) {
                Ok(v) => v,
                Err(e) => return Err(e),
            },
            None => return Err(DecodeError::MalformedResponse),
        };
        let coupons = match get_member(doc, "coupons") {
            Some(j) => match Coupon::list_from_json(j) {
                Ok(v) => v,
                Err(e) => return Err(e),
            },
            None => Vec::new(),
        };
        let discounts = match get_member(doc, "discounts") {
            Some(j) => match Discount::list_from_json(j) {
                Ok(v) => v,
                Err(e) => return Err(e),
            },
            None => Vec::new(),
        };
        let external_id = match get_member(doc, "externalId") {
            None => None,
            Some(Json::Null) => None,
            Some(j) => match read_string(j) {
                Ok(v) => Some(v),
                Err(e) => return Err(e),
            },
        };
        let measurements = match get_member(doc, "measurements") {
            None => None,
            Some(Json::Null) => None,
            Some(j) => match Measurements::from_json(j) {
                Ok(v) => Some(v),
                Err(e) => return Err(e),
            },
        };
        let total = match get_member(doc, "total") {
            Some(j) => match CartTotal::from_json(j) {
                Ok(v) => v,
                Err(e) => return Err(e),
            },
            None => return Err(DecodeError::MalformedResponse),
        };
        Ok(Cart {
            items,
            cart_id,
            coupons,
            discounts,
            external_id,
            measurements,
            total,
        })
    }
}

/// The payment method the buyer chose.
#[derive(Clone, Debug, PartialEq)]
pub struct PaymentMethod {
    pub method_type: MethodType,
    pub card_last4: Option<String>,
    pub card_network: Option<CardNetwork>,
}

impl PaymentMethod {
    /// `v` is what the JSON object `doc` says, field by field.
    pub open spec fn read_from(doc: Json, v: PaymentMethod) -> bool {
        &&& doc is Object
        &&& field_holds(member(doc, "methodType"@), |j: Json, x: MethodType| MethodType::read_from(j, x), v.method_type)
        &&& opt_field_holds(member(doc, "cardLast4"@), |j: Json, x: String| string_value(j) == Ok::<String, DecodeError>(x), v.card_last4)
        &&& opt_field_holds(member(doc, "cardNetwork"@), |j: Json, x: CardNetwork| CardNetwork::read_from(j, x), v.card_network)
    }

    /// Whether every field of `doc` can be read: required fields are present,
    /// and every field that is there holds a value of its kind.
    pub open spec fn readable(doc: Json) -> bool {
        &&& doc is Object
        &&& match member(doc, "methodType"@) {
            Some(j) => MethodType::readable(j),
            None => false,
        }
        &&& match member(doc, "cardLast4"@) {
            Some(j) => j == Json::Null || string_value(j) is Ok,
            None => true,
        }
        &&& match member(doc, "cardNetwork"@) {
            Some(j) => j == Json::Null || CardNetwork::readable(j),
            None => true,
        }
    }

    /// Reads the value from a JSON object with camelCase keys. A missing or
    /// `null` optional field is unset; members it does not know are ignored.
    pub fn from_json(doc: &Json) -> (r: Result<PaymentMethod, DecodeError>)
        ensures
            !(*doc is Object) ==> r == Err::<PaymentMethod, DecodeError>(DecodeError::MalformedResponse),
            r matches Ok(v) ==> PaymentMethod::read_from(*doc, v),
            r is Ok <==> PaymentMethod::readable(*doc),
    {
        if !is_object(doc) {
            return Err(DecodeError::MalformedResponse);
        }
        let method_type = match get_member(doc, "methodType") {
            Some(j) => match MethodType::from_json(j) {
                Ok(v) => v,
                Err(e) => return Err(e),
            },
            None => return Err(DecodeError::MalformedResponse),
        };
        let card_last4 = match get_member(doc, "cardLast4") {
            None => None,
            Some(Json::Null) => None,
            Some(j) => match read_string(j) {
                Ok(v) => Some(v),
                Err(e) => return Err(e),
            },
        };
        let card_network = match get_member(doc, "cardNetwork") {
            None => None,
            Some(Json::Null) => None,
            Some(j) => match CardNetwork::from_json(j) {
                Ok(v) => Some(v),
                Err(e) => return Err(e),
            },
        };
        Ok(PaymentMethod {
            method_type,
            card_last4,
            card_network,
        })
    }
}

/// A kind of payment method.
#[derive(Clone, Copy, Debug, PartialEq, Eq, Hash, Structural)]
pub enum MethodType {
    Card,
    Split,
    Sbp,
    SplitSbp,
    CashOnDelivery,
    CardOnDelivery,
}

impl MethodType {
    /// The name of the value on the wire.
    pub open spec fn spec_wire_name(self) -> Seq<char> {
        match self {
            MethodType::Card => "CARD"@,
            MethodType::Split => "SPLIT"@,
            MethodType::Sbp => "SBP"@,
            MethodType::SplitSbp => "SPLIT_SBP"@,
            MethodType::CashOnDelivery => "CASH_ON_DELIVERY"@,
            MethodType::CardOnDelivery => "CARD_ON_DELIVERY"@,
        }
    }

    pub open spec fn spec_from_wire_name(s: Seq<char>) -> Option<MethodType> {
        if s == "CARD"@ {
            Some(MethodType::Card)
        } else if s == "SPLIT"@ {
            Some(MethodType::Split)
        } else if s == "SBP"@ {
            Some(MethodType::Sbp)
        } else if s == "SPLIT_SBP"@ {
            Some(MethodType::SplitSbp)
        } else if s == "CASH_ON_DELIVERY"@ {
            Some(MethodType::CashOnDelivery)
        } else if s == "CARD_ON_DELIVERY"@ {
            Some(MethodType::CardOnDelivery)
        } else {
            None
        }
    }

    pub open spec fn spec_from_json(j: Json) -> Result<MethodType, DecodeError> {
        match j {
            Json::Str(s) => match MethodType::spec_from_wire_name(s@) {
                Some(v) => Ok(v),
                None => Err(DecodeError::MalformedResponse),
            },
            _ => Err(DecodeError::MalformedResponse),
        }
    }

    pub fn wire_name(&self) -> (r: &'static str)
        ensures
            r@ == self.spec_wire_name(),
    {
        match self {
            MethodType::Card => "CARD",
            MethodType::Split => "SPLIT",
            MethodType::Sbp => "SBP",
            MethodType::SplitSbp => "SPLIT_SBP",
            MethodType::CashOnDelivery => "CASH_ON_DELIVERY",
            MethodType::CardOnDelivery => "CARD_ON_DELIVERY",
        }
    }

    pub fn from_wire_name(s: &str) -> (r: Option<MethodType>)
        ensures
            r == MethodType::spec_from_wire_name(s@),
    {
        if same_text(s, "CARD") {
            Some(MethodType::Card)
        } else if same_text(s, "SPLIT") {
            Some(MethodType::Split)
        } else if same_text(s, "SBP") {
            Some(MethodType::Sbp)
        } else if same_text(s, "SPLIT_SBP") {
            Some(MethodType::SplitSbp)
        } else if same_text(s, "CASH_ON_DELIVERY") {
            Some(MethodType::CashOnDelivery)
        } else if same_text(s, "CARD_ON_DELIVERY") {
            Some(MethodType::CardOnDelivery)
        } else {
            None
        }
    }

    /// The value as a JSON string holding its wire name.
    pub fn to_json(&self) -> (r: Json)
        ensures
            r matches Json::Str(s) && s@ == self.spec_wire_name(),
            MethodType::read_from(r, *self),
    {
        proof {
            reveal_strlit("CARD");
            reveal_strlit("SPLIT");
            reveal_strlit("SBP");
            reveal_strlit("SPLIT_SBP");
            reveal_strlit("CASH_ON_DELIVERY");
            reveal_strlit("CARD_ON_DELIVERY");
            assert("CARD"@.len() == 4);
            assert("SPLIT"@.len() == 5);
            assert("SBP"@.len() == 3);
            assert("SPLIT_SBP"@.len() == 9);
            assert("CASH_ON_DELIVERY"@.len() == 16);
            assert("CARD_ON_DELIVERY"@.len() == 16);
            assert("CARD_ON_DELIVERY"@[2] == 'R');
            assert("CASH_ON_DELIVERY"@[2] == 'S');
        }
        Json::Str(String::from_str(self.wire_name()))
    }

    pub fn from_json(j: &Json) -> (r: Result<MethodType, DecodeError>)
        ensures
            r == MethodType::spec_from_json(*j),
    {
        match j {
            Json::Str(s) => match MethodType::from_wire_name(s.as_str()) {
                Some(v) => Ok(v),
                None => Err(DecodeError::MalformedResponse),
            },
            _ => Err(DecodeError::MalformedResponse),
        }
    }

    /// Whether the JSON value `j` names a value.
    pub open spec fn readable(j: Json) -> bool {
        MethodType::spec_from_json(j) is Ok
    }

    /// `v` is what the JSON value `j` says.
    pub open spec fn read_from(j: Json, v: MethodType) -> bool {
        MethodType::spec_from_json(j) == Ok::<MethodType, DecodeError>(v)
    }

    /// `j` is what [`Self::to_json`] writes for `v`.
    pub open spec fn writes_as(j: Json, v: MethodType) -> bool {
        MethodType::read_from(j, v)
    }
}

/// A card payment system.
#[derive(Clone, Copy, Debug, PartialEq, Eq, Hash, Structural)]
pub enum CardNetwork {
    Amex,
    Discover,
    Jcb,
    Mastercard,
    Maestro,
    Visaelectron,
    Visa,
    Mir,
    Unionpay,
    Uzcard,
    Humocard,
    Unknown,
    Undefined,
}

impl CardNetwork {
    /// The name of the value on the wire.
    pub open spec fn spec_wire_name(self) -> Seq<char> {
        match self {
            CardNetwork::Amex => "AMEX"@,
            CardNetwork::Discover => "DISCOVER"@,
            CardNetwork::Jcb => "JCB"@,
            CardNetwork::Mastercard => "MASTERCARD"@,
            CardNetwork::Maestro => "MAESTRO"@,
            CardNetwork::Visaelectron => "VISAELECTRON"@,
            CardNetwork::Visa => "VISA"@,
            CardNetwork::Mir => "MIR"@,
            CardNetwork::Unionpay => "UNIONPAY"@,
            CardNetwork::Uzcard => "UZCARD"@,
            CardNetwork::Humocard => "HUMOCARD"@,
            CardNetwork::Unknown => "UNKNOWN"@,
            CardNetwork::Undefined => "UNDEFINED"@,
        }
    }

    pub open spec fn spec_from_wire_name(s: Seq<char>) -> Option<CardNetwork> {
        if s == "AMEX"@ {
            Some(CardNetwork::Amex)
        } else if s == "DISCOVER"@ {
            Some(CardNetwork::Discover)
        } else if s == "JCB"@ {
            Some(CardNetwork::Jcb)
        } else if s == "MASTERCARD"@ {
            Some(CardNetwork::Mastercard)
        } else if s == "MAESTRO"@ {
            Some(CardNetwork::Maestro)
        } else if s == "VISAELECTRON"@ {
            Some(CardNetwork::Visaelectron)
        } else if s == "VISA"@ {
            Some(CardNetwork::Visa)
        } else if s == "MIR"@ {
            Some(CardNetwork::Mir)
        } else if s == "UNIONPAY"@ {
            Some(CardNetwork::Unionpay)
        } else if s == "UZCARD"@ {
            Some(CardNetwork::Uzcard)
        } else if s == "HUMOCARD"@ {
            Some(CardNetwork::Humocard)
        } else if s == "UNKNOWN"@ {
            Some(CardNetwork::Unknown)
        } else if s == "UNDEFINED"@ {
            Some(CardNetwork::Undefined)
        } else {
            None
        }
    }

    pub open spec fn spec_from_json(j: Json) -> Result<CardNetwork, DecodeError> {
        match j {
            Json::Str(s) => match CardNetwork::spec_from_wire_name(s@) {
                Some(v) => Ok(v),
                None => Err(DecodeError::MalformedResponse),
            },
            _ => Err(DecodeError::MalformedResponse),
        }
    }

    pub fn wire_name(&self) -> (r: &'static str)
        ensures
            r@ == self.spec_wire_name(),
    {
        match self {
            CardNetwork::Amex => "AMEX",
            CardNetwork::Discover => "DISCOVER",
            CardNetwork::Jcb => "JCB",
            CardNetwork::Mastercard => "MASTERCARD",
            CardNetwork::Maestro => "MAESTRO",
            CardNetwork::Visaelectron => "VISAELECTRON",
            CardNetwork::Visa => "VISA",
            CardNetwork::Mir => "MIR",
            CardNetwork::Unionpay => "UNIONPAY",
            CardNetwork::Uzcard => "UZCARD",
            CardNetwork::Humocard => "HUMOCARD",
            CardNetwork::Unknown => "UNKNOWN",
            CardNetwork::Undefined => "UNDEFINED",
        }
    }

    pub fn from_wire_name(s: &str) -> (r: Option<CardNetwork>)
        ensures
            r == CardNetwork::spec_from_wire_name(s@),
    {
        if same_text(s, "AMEX") {
            Some(CardNetwork::Amex)
        } else if same_text(s, "DISCOVER") {
            Some(CardNetwork::Discover)
        } else if same_text(s, "JCB") {
            Some(CardNetwork::Jcb)
        } else if same_text(s, "MASTERCARD") {
            Some(CardNetwork::Mastercard)
        } else if same_text(s, "MAESTRO") {
            Some(CardNetwork::Maestro)
        } else if same_text(s, "VISAELECTRON") {
            Some(CardNetwork::Visaelectron)
        } else if same_text(s, "VISA") {
            Some(CardNetwork::Visa)
        } else if same_text(s, "MIR") {
            Some(CardNetwork::Mir)
        } else if same_text(s, "UNIONPAY") {
            Some(CardNetwork::Unionpay)
        } else if same_text(s, "UZCARD") {
            Some(CardNetwork::Uzcard)
        } else if same_text(s, "HUMOCARD") {
            Some(CardNetwork::Humocard)
        } else if same_text(s, "UNKNOWN") {
            Some(CardNetwork::Unknown)
        } else if same_text(s, "UNDEFINED") {
            Some(CardNetwork::Undefined)
        } else {
            None
        }
    }

    /// The value as a JSON string holding its wire name.
    pub fn to_json(&self) -> (r: Json)
        ensures
            r matches Json::Str(s) && s@ == self.spec_wire_name(),
            CardNetwork::read_from(r, *self),
    {
        proof {
            reveal_strlit("AMEX");
            reveal_strlit("DISCOVER");
            reveal_strlit("JCB");
            reveal_strlit("MASTERCARD");
            reveal_strlit("MAESTRO");
            reveal_strlit("VISAELECTRON");
            reveal_strlit("VISA");
            reveal_strlit("MIR");
            reveal_strlit("UNIONPAY");
            reveal_strlit("UZCARD");
            reveal_strlit("HUMOCARD");
            reveal_strlit("UNKNOWN");
            reveal_strlit("UNDEFINED");
            assert("AMEX"@.len() == 4);
            assert("DISCOVER"@.len() == 8);
            assert("JCB"@.len() == 3);
            assert("MASTERCARD"@.len() == 10);
            assert("MAESTRO"@.len() == 7);
            assert("VISAELECTRON"@.len() == 12);
            assert("VISA"@.len() == 4);
            assert("MIR"@.len() == 3);
            assert("UNIONPAY"@.len() == 8);
            assert("UZCARD"@.len() == 6);
            assert("HUMOCARD"@.len() == 8);
            assert("UNKNOWN"@.len() == 7);
            assert("UNDEFINED"@.len() == 9);
            assert("AMEX"@[0] == 'A');
            assert("DISCOVER"@[0] == 'D');
            assert("HUMOCARD"@[0] == 'H');
            assert("JCB"@[0] == 'J');
            assert("MAESTRO"@[0] == 'M');
            assert("MIR"@[0] == 'M');
            assert("UNIONPAY"@[0] == 'U');
            assert("UNKNOWN"@[0] == 'U');
            assert("VISA"@[0] == 'V');
        }
        Json::Str(String::from_str(self.wire_name()))
    }

    pub fn from_json(j: &Json) -> (r: Result<CardNetwork, DecodeError>)
        ensures
            r == CardNetwork::spec_from_json(*j),
    {
        match j {
            Json::Str(s) => match CardNetwork::from_wire_name(s.as_str()) {
                Some(v) => Ok(v),
                None => Err(DecodeError::MalformedResponse),
            },
            _ => Err(DecodeError::MalformedResponse),
        }
    }

    /// Whether the JSON value `j` names a value.
    pub open spec fn readable(j: Json) -> bool {
        CardNetwork::spec_from_json(j) is Ok
    }

    /// `v` is what the JSON value `j` says.
    pub open spec fn read_from(j: Json, v: CardNetwork) -> bool {
        CardNetwork::spec_from_json(j) == Ok::<CardNetwork, DecodeError>(v)
    }

    /// `j` is what [`Self::to_json`] writes for `v`.
    pub open spec fn writes_as(j: Json, v: CardNetwork) -> bool {
        CardNetwork::read_from(j, v)
    }
}

/// The delivery method the buyer chose.
#[derive(Clone, Debug, PartialEq)]
pub struct ShippingMethod {
    pub method_type: ShippingMethodType,
    pub courier_option: Option<CourierOption>,
    pub pickup_option: Option<PickupOption>,
    pub yandex_delivery_option: Option<YandexDeliveryOption>,
}

impl ShippingMethod {
    /// `v` is what the JSON object `doc` says, field by field.
    pub open spec fn read_from(doc: Json, v: ShippingMethod) -> bool {
        &&& doc is Object
        &&& field_holds(member(doc, "methodType"@), |j: Json, x: ShippingMethodType| ShippingMethodType::read_from(j, x), v.method_type)
        &&& opt_field_holds(member(doc, "courierOption"@), |j: Json, x: CourierOption| CourierOption::read_from(j, x), v.courier_option)
        &&& opt_field_holds(member(doc, "pickupOption"@), |j: Json, x: PickupOption| PickupOption::read_from(j, x), v.pickup_option)
        &&& opt_field_holds(member(doc, "yandexDeliveryOption"@), |j: Json, x: YandexDeliveryOption| YandexDeliveryOption::read_from(j, x), v.yandex_delivery_option)
    }

    /// Whether every field of `doc` can be read: required fields are present,
    /// and every field that is there holds a value of its kind.
    pub open spec fn readable(doc: Json) -> bool {
        &&& doc is Object
        &&& match member(doc, "methodType"@) {
            Some(j) => ShippingMethodType::readable(j),
            None => false,
        }
        &&& match member(doc, "courierOption"@) {
            Some(j) => j == Json::Null || CourierOption::readable(j),
            None => true,
        }
        &&& match member(doc, "pickupOption"@) {
            Some(j) => j == Json::Null || PickupOption::readable(j),
            None => true,
        }
        &&& match member(doc, "yandexDeliveryOption"@) {
            Some(j) => j == Json::Null || YandexDeliveryOption::readable(j),
            None => true,
        }
    }

    /// Reads the value from a JSON object with camelCase keys. A missing or
    /// `null` optional field is unset; members it does not know are ignored.
    pub fn from_json(doc: &Json) -> (r: Result<ShippingMethod, DecodeError>)
        ensures
            !(*doc is Object) ==> r == Err::<ShippingMethod, DecodeError>(DecodeError::MalformedResponse),
            r matches Ok(v) ==> ShippingMethod::read_from(*doc, v),
            r is Ok <==> ShippingMethod::readable(*doc),
    {
        if !is_object(doc) {
            return Err(DecodeError::MalformedResponse);
        }
        let method_type = match get_member(doc, "methodType") {
            Some(j) => match ShippingMethodType::from_json(j) {
                Ok(v) => v,
                Err(e) => return Err(e),
            },
            None => return Err(DecodeError::MalformedResponse),
        };
        let courier_option = match get_member(doc, "courierOption") {
            None => None,
            Some(Json::Null) => None,
            Some(j) => match CourierOption::from_json(j) {
                Ok(v) => Some(v),
                Err(e) => return Err(e),
            },
        };
        let pickup_option = match get_member(doc, "pickupOption") {
            None => None,
            Some(Json::Null) => None,
            Some(j) => match PickupOption::from_json(j) {
                Ok(v) => Some(v),
                Err(e) => return Err(e),
            },
        };
        let yandex_delivery_option = match get_member(doc, "yandexDeliveryOption") {
            None => None,
            Some(Json::Null) => None,
            Some(j) => match YandexDeliveryOption::from_json(j) {
                Ok(v) => Some(v),
                Err(e) => return Err(e),
            },
        };
        Ok(ShippingMethod {
            method_type,
            courier_option,
            pickup_option,
            yandex_delivery_option,
        })
    }
}

/// A kind of delivery method.
#[derive(Clone, Copy, Debug, PartialEq, Eq, Hash, Structural)]
pub enum ShippingMethodType {
    Direct,
    Pickup,
    Courier,
    YandexDelivery,
}

impl ShippingMethodType {
    /// The name of the value on the wire.
    pub open spec fn spec_wire_name(self) -> Seq<char> {
        match self {
            ShippingMethodType::Direct => "DIRECT"@,
            ShippingMethodType::Pickup => "PICKUP"@,
            ShippingMethodType::Courier => "COURIER"@,
            ShippingMethodType::YandexDelivery => "YANDEX_DELIVERY"@,
        }
    }

    pub open spec fn spec_from_wire_name(s: Seq<char>) -> Option<ShippingMethodType> {
        if s == "DIRECT"@ {
            Some(ShippingMethodType::Direct)
        } else if s == "PICKUP"@ {
            Some(ShippingMethodType::Pickup)
        } else if s == "COURIER"@ {
            Some(ShippingMethodType::Courier)
        } else if s == "YANDEX_DELIVERY"@ {
            Some(ShippingMethodType::YandexDelivery)
        } else {
            None
        }
    }

    pub open spec fn spec_from_json(j: Json) -> Result<ShippingMethodType, DecodeError> {
        match j {
            Json::Str(s) => match ShippingMethodType::spec_from_wire_name(s@) {
                Some(v) => Ok(v),
                None => Err(DecodeError::MalformedResponse),
            },
            _ => Err(DecodeError::MalformedResponse),
        }
    }

    pub fn wire_name(&self) -> (r: &'static str)
        ensures
            r@ == self.spec_wire_name(),
    {
        match self {
            ShippingMethodType::Direct => "DIRECT",
            ShippingMethodType::Pickup => "PICKUP",
            ShippingMethodType::Courier => "COURIER",
            ShippingMethodType::YandexDelivery => "YANDEX_DELIVERY",
        }
    }

    pub fn from_wire_name(s: &str) -> (r: Option<ShippingMethodType>)
        ensures
            r == ShippingMethodType::spec_from_wire_name(s@),
    {
        if same_text(s, "DIRECT") {
            Some(ShippingMethodType::Direct)
        } else if same_text(s, "PICKUP") {
            Some(ShippingMethodType::Pickup)
        } else if same_text(s, "COURIER") {
            Some(ShippingMethodType::Courier)
        } else if same_text(s, "YANDEX_DELIVERY") {
            Some(ShippingMethodType::YandexDelivery)
        } else {
            None
        }
    }

    /// The value as a JSON string holding its wire name.
    pub fn to_json(&self) -> (r: Json)
        ensures
            r matches Json::Str(s) && s@ == self.spec_wire_name(),
            ShippingMethodType::read_from(r, *self),
    {
        proof {
            reveal_strlit("DIRECT");
            reveal_strlit("PICKUP");
            reveal_strlit("COURIER");
            reveal_strlit("YANDEX_DELIVERY");
            assert("DIRECT"@.len() == 6);
            assert("PICKUP"@.len() == 6);
            assert("COURIER"@.len() == 7);
            assert("YANDEX_DELIVERY"@.len() == 15);
            assert("DIRECT"@[0] == 'D');
            assert("PICKUP"@[0] == 'P');
        }
        Json::Str(String::from_str(self.wire_name()))
    }

    pub fn from_json(j: &Json) -> (r: Result<ShippingMethodType, DecodeError>)
        ensures
            r == ShippingMethodType::spec_from_json(*j),
    {
        match j {
            Json::Str(s) => match ShippingMethodType::from_wire_name(s.as_str()) {
                Some(v) => Ok(v),
                None => Err(DecodeError::MalformedResponse),
            },
            _ => Err(DecodeError::MalformedResponse),
        }
    }

    /// Whether the JSON value `j` names a value.
    pub open spec fn readable(j: Json) -> bool {
        ShippingMethodType::spec_from_json(j) is Ok
    }

    /// `v` is what the JSON value `j` says.
    pub open spec fn read_from(j: Json, v: ShippingMethodType) -> bool {
        ShippingMethodType::spec_from_json(j) == Ok::<ShippingMethodType, DecodeError>(v)
    }

    /// `j` is what [`Self::to_json`] writes for `v`.
    pub open spec fn writes_as(j: Json, v: ShippingMethodType) -> bool {
        ShippingMethodType::read_from(j, v)
    }
}

/// One line of an order's cart as the gateway holds it.
#[derive(Clone, Debug, PartialEq)]
pub struct CartItem {
    pub product_id: String,
    pub quantity: ItemQuantity,
    pub description: Option<String>,
    pub discounted_unit_price: Option<Decimal>,
    pub features: Option<CartItemFeatures>,
    pub final_price: Option<Decimal>,
    pub measurements: Option<Measurements>,
    pub points_amount: Option<Decimal>,
    pub receipt: Option<ItemReceipt>,
    pub subtotal: Option<Decimal>,
    pub title: Option<String>,
    pub total: Option<Decimal>,
    pub item_type: Option<CartItemType>,
    pub unit_price: Option<Decimal>,
}

impl CartItem {
    /// `v` is what the JSON object `doc` says, field by field.
    pub open spec fn read_from(doc: Json, v: CartItem) -> bool {
        &&& doc is Object
        &&& field_holds(member(doc, "productId"@), |j: Json, x: String| string_value(j) == Ok::<String, DecodeError>(x), v.product_id)
        &&& field_holds(member(doc, "quantity"@), |j: Json, x: ItemQuantity| ItemQuantity::read_from(j, x), v.quantity)
        &&& opt_field_holds(member(doc, "description"@), |j: Json, x: String| string_value(j) == Ok::<String, DecodeError>(x), v.description)
        &&& opt_field_holds(member(doc, "discountedUnitPrice"@), |j: Json, x: Decimal| decimal_string_value(j) == Ok::<Decimal, DecodeError>(x), v.discounted_unit_price)
        &&& opt_field_holds(member(doc, "features"@), |j: Json, x: CartItemFeatures| CartItemFeatures::read_from(j, x), v.features)
        &&& opt_field_holds(member(doc, "finalPrice"@), |j: Json, x: Decimal| decimal_string_value(j) == Ok::<Decimal, DecodeError>(x), v.final_price)
        &&& opt_field_holds(member(doc, "measurements"@), |j: Json, x: Measurements| Measurements::read_from(j, x), v.measurements)
        &&& opt_field_holds(member(doc, "pointsAmount"@), |j: Json, x: Decimal| decimal_string_value(j) == Ok::<Decimal, DecodeError>(x), v.points_amount)
        &&& opt_field_holds(member(doc, "receipt"@), |j: Json, x: ItemReceipt| ItemReceipt::read_from(j, x), v.receipt)
        &&& opt_field_holds(member(doc, "subtotal"@), |j: Json, x: Decimal| decimal_string_value(j) == Ok::<Decimal, DecodeError>(x), v.subtotal)
        &&& opt_field_holds(member(doc, "title"@), |j: Json, x: String| string_value(j) == Ok::<String, DecodeError>(x), v.title)
        &&& opt_field_holds(member(doc, "total"@), |j: Json, x: Decimal| decimal_string_value(j) == Ok::<Decimal, DecodeError>(x), v.total)
        &&& opt_field_holds(member(doc, "itemType"@), |j: Json, x: CartItemType| CartItemType::read_from(j, x), v.item_type)
        &&& opt_field_holds(member(doc, "unitPrice"@), |j: Json, x: Decimal| decimal_string_value(j) == Ok::<Decimal, DecodeError>(x), v.unit_price)
    }

    /// Whether every field of `doc` can be read: required fields are present,
    /// and every field that is there holds a value of its kind.
    pub open spec fn readable(doc: Json) -> bool {
        &&& doc is Object
        &&& match member(doc, "productId"@) {
            Some(j) => string_value(j) is Ok,
            None => false,
        }
        &&& match member(doc, "quantity"@) {
            Some(j) => ItemQuantity::readable(j),
            None => false,
        }
        &&& match member(doc, "description"@) {
            Some(j) => j == Json::Null || string_value(j) is Ok,
            None => true,
        }
        &&& match member(doc, "discountedUnitPrice"@) {
            Some(j) => j == Json::Null || decimal_string_value(j) is Ok,
            None => true,
        }
        &&& match member(doc, "features"@) {
            Some(j) => j == Json::Null || CartItemFeatures::readable(j),
            None => true,
        }
        &&& match member(doc, "finalPrice"@) {
            Some(j) => j == Json::Null || decimal_string_value(j) is Ok,
            None => true,
        }
        &&& match member(doc, "measurements"@) {
            Some(j) => j == Json::Null || Measurements::readable(j),
            None => true,
        }
        &&& match member(doc, "pointsAmount"@) {
            Some(j) => j == Json::Null || decimal_string_value(j) is Ok,
            None => true,
        }
        &&& match member(doc, "receipt"@) {
            Some(j) => j == Json::Null || ItemReceipt::readable(j),
            None => true,
        }
        &&& match member(doc, "subtotal"@) {
            Some(j) => j == Json::Null || decimal_string_value(j) is Ok,
            None => true,
        }
        &&& match member(doc, "title"@) {
            Some(j) => j == Json::Null || string_value(j) is Ok,
            None => true,
        }
        &&& match member(doc, "total"@) {
            Some(j) => j == Json::Null || decimal_string_value(j) is Ok,
            None => true,
        }
        &&& match member(doc, "itemType"@) {
            Some(j) => j == Json::Null || CartItemType::readable(j),
            None => true,
        }
        &&& match member(doc, "unitPrice"@) {
            Some(j) => j == Json::Null || decimal_string_value(j) is Ok,
            None => true,
        }
    }

    /// Reads the value from a JSON object with camelCase keys. A missing or
    /// `null` optional field is unset; members it does not know are ignored.
    #[verifier::spinoff_prover]
    #[verifier::rlimit(100)]
    pub fn from_json(doc: &Json) -> (r: Result<CartItem, DecodeError>)
        ensures
            !(*doc is Object) ==> r == Err::<CartItem, DecodeError>(DecodeError::MalformedResponse),
            r matches Ok(v) ==> CartItem::read_from(*doc, v),
            r is Ok <==> CartItem::readable(*doc),
    {
        if !is_object(doc) {
            return Err(DecodeError::MalformedResponse);
        }
        let product_id = match get_member(doc, "productId") {
            Some(j) => match read_string(j) {
                Ok(v) => v,
                Err(e) => return Err(e),
            },
            None => return Err(DecodeError::MalformedResponse),
        };
        let quantity = match get_member(doc, "quantity") {
            Some(j) => match ItemQuantity::from_json(j) {
                Ok(v) => v,
                Err(e) => return Err(e),
            },
            None => return Err(DecodeError::MalformedResponse),
        };
        let description = match get_member(doc, "description") {
            None => None,
            Some(Json::Null) => None,
            Some(j) => match read_string(j) {
                Ok(v) => Some(v),
                Err(e) => return Err(e),
            },
        };
        let discounted_unit_price = match get_member(doc, "discountedUnitPrice") {
            None => None,
            Some(Json::Null) => None,
            Some(j) => match read_decimal_string(j) {
                Ok(v) => Some(v),
                Err(e) => return Err(e),
            },
        };
        let features = match get_member(doc, "features") {
            None => None,
            Some(Json::Null) => None,
            Some(j) => match CartItemFeatures::from_json(j) {
                Ok(v) => Some(v),
                Err(e) => return Err(e),
            },
        };
        let final_price = match get_member(doc, "finalPrice") {
            None => None,
            Some(Json::Null) => None,
            Some(j) => match read_decimal_string(j) {
                Ok(v) => Some(v),
                Err(e) => return Err(e),
            },
        };
        let measurements = match get_member(doc, "measurements") {
            None => None,
            Some(Json::Null) => None,
            Some(j) => match Measurements::from_json(j) {
                Ok(v) => Some(v),
                Err(e) => return Err(e),
            },
        };
        let points_amount = match get_member(doc, "pointsAmount") {
            None => None,
            Some(Json::Null) => None,
            Some(j) => match read_decimal_string(j) {
                Ok(v) => Some(v),
                Err(e) => return Err(e),
            },
        };
        let receipt = match get_member(doc, "receipt") {
            None => None,
            Some(Json::Null) => None,
            Some(j) => match ItemReceipt::from_json(j) {
                Ok(v) => Some(v),
                Err(e) => return Err(e),
            },
        };
        let subtotal = match get_member(doc, "subtotal") {
            None => None,
            Some(Json::Null) => None,
            Some(j) => match read_decimal_string(j) {
                Ok(v) => Some(v),
                Err(e) => return Err(e),
            },
        };
        let title = match get_member(doc, "title") {
            None => None,
            Some(Json::Null) => None,
            Some(j) => match read_string(j) {
                Ok(v) => Some(v),
                Err(e) => return Err(e),
            },
        };
        let total = match get_member(doc, "total") {
            None => None,
            Some(Json::Null) => None,
            Some(j) => match read_decimal_string(j) {
                Ok(v) => Some(v),
                Err(e) => return Err(e),
            },
        };
        let item_type = match get_member(doc, "itemType") {
            None => None,
            Some(Json::Null) => None,
            Some(j) => match CartItemType::from_json(j) {
                Ok(v) => Some(v),
                Err(e) => return Err(e),
            },
        };
        let unit_price = match get_member(doc, "unitPrice") {
            None => None,
            Some(Json::Null) => None,
            Some(j) => match read_decimal_string(j) {
                Ok(v) => Some(v),
                Err(e) => return Err(e),
            },
        };
        Ok(CartItem {
            product_id,
            quantity,
            description,
            discounted_unit_price,
            features,
            final_price,
            measurements,
            points_amount,
            receipt,
            subtotal,
            title,
            total,
            item_type,
            unit_price,
        })
    }

    /// `vs` is what the JSON array `j` says, element by element.
    pub open spec fn list_read_from(j: Json, vs: Seq<CartItem>) -> bool {
        list_holds(Some(j), |e: Json, x: CartItem| CartItem::read_from(e, x), vs)
    }

    /// Whether the JSON value `j` is an array whose every element can be read.
    pub open spec fn list_readable(j: Json) -> bool {
        j matches Json::Array(a) && forall|i: int| 0 <= i < a@.len() ==> #[trigger] CartItem::readable(a@[i])
    }

    /// Reads a JSON array of values, failing on the first that cannot be read.
    pub fn list_from_json(j: &Json) -> (r: Result<Vec<CartItem>, DecodeError>)
        ensures
            !(*j is Array) ==> r == Err::<Vec<CartItem>, DecodeError>(DecodeError::MalformedResponse),
            r matches Ok(v) ==> CartItem::list_read_from(*j, v@),
            r is Ok <==> CartItem::list_readable(*j),
    {
        match j {
            Json::Array(a) => {
                let mut out: Vec<CartItem> = Vec::new();
                let mut i: usize = 0;
                while i < a.len()
                    invariant
                        i <= a.len(),
                        out@.len() == i,
                        *j == Json::Array(*a),
                        forall|k: int| 0 <= k < i ==> #[trigger] CartItem::read_from(a@[k], out@[k]),
                        forall|k: int| 0 <= k < i ==> #[trigger] CartItem::readable(a@[k]),
                    decreases a.len() - i,
                {
                    match CartItem::from_json(&a[i]) {
                        Ok(v) => out.push(v),
                        Err(e) => {
                            proof {
                                assert(!CartItem::readable(a@[i as int]));
                                assert(!CartItem::list_readable(*j)) by {
                                    if CartItem::list_readable(*j) {
                                        assert((*j)->Array_0 == *a);
                                        assert(CartItem::readable((*j)->Array_0@[i as int]));
                                    }
                                }
                            }
                            return Err(e);
                        },
                    }
                    i = i + 1;
                }
                Ok(out)
            },
            _ => Err(DecodeError::MalformedResponse),
        }
    }
}

/// Whether an item is a physical good.
#[derive(Clone, Copy, Debug, PartialEq, Eq, Hash, Structural)]
pub enum CartItemType {
    Physical,
    Digital,
    Unspecified,
}

impl CartItemType {
    /// The name of the value on the wire.
    pub open spec fn spec_wire_name(self) -> Seq<char> {
        match self {
            CartItemType::Physical => "PHYSICAL"@,
            CartItemType::Digital => "DIGITAL"@,
            CartItemType::Unspecified => "UNSPECIFIED"@,
        }
    }

    pub open spec fn spec_from_wire_name(s: Seq<char>) -> Option<CartItemType> {
        if s == "PHYSICAL"@ {
            Some(CartItemType::Physical)
        } else if s == "DIGITAL"@ {
            Some(CartItemType::Digital)
        } else if s == "UNSPECIFIED"@ {
            Some(CartItemType::Unspecified)
        } else {
            None
        }
    }

    pub open spec fn spec_from_json(j: Json) -> Result<CartItemType, DecodeError> {
        match j {
            Json::Str(s) => match CartItemType::spec_from_wire_name(s@) {
                Some(v) => Ok(v),
                None => Err(DecodeError::MalformedResponse),
            },
            _ => Err(DecodeError::MalformedResponse),
        }
    }

    pub fn wire_name(&self) -> (r: &'static str)
        ensures
            r@ == self.spec_wire_name(),
    {
        match self {
            CartItemType::Physical => "PHYSICAL",
            CartItemType::Digital => "DIGITAL",
            CartItemType::Unspecified => "UNSPECIFIED",
        }
    }

    pub fn from_wire_name(s: &str) -> (r: Option<CartItemType>)
        ensures
            r == CartItemType::spec_from_wire_name(s@),
    {
        if same_text(s, "PHYSICAL") {
            Some(CartItemType::Physical)
        } else if same_text(s, "DIGITAL") {
            Some(CartItemType::Digital)
        } else if same_text(s, "UNSPECIFIED") {
            Some(CartItemType::Unspecified)
        } else {
            None
        }
    }

    /// The value as a JSON string holding its wire name.
    pub fn to_json(&self) -> (r: Json)
        ensures
            r matches Json::Str(s) && s@ == self.spec_wire_name(),
            CartItemType::read_from(r, *self),
    {
        proof {
            reveal_strlit("PHYSICAL");
            reveal_strlit("DIGITAL");
            reveal_strlit("UNSPECIFIED");
            assert("PHYSICAL"@.len() == 8);
            assert("DIGITAL"@.len() == 7);
            assert("UNSPECIFIED"@.len() == 11);
        }
        Json::Str(String::from_str(self.wire_name()))
    }

    pub fn from_json(j: &Json) -> (r: Result<CartItemType, DecodeError>)
        ensures
            r == CartItemType::spec_from_json(*j),
    {
        match j {
            Json::Str(s) => match CartItemType::from_wire_name(s.as_str()) {
                Some(v) => Ok(v),
                None => Err(DecodeError::MalformedResponse),
            },
            _ => Err(DecodeError::MalformedResponse),
        }
    }

    /// Whether the JSON value `j` names a value.
    pub open spec fn readable(j: Json) -> bool {
        CartItemType::spec_from_json(j) is Ok
    }

    /// `v` is what the JSON value `j` says.
    pub open spec fn read_from(j: Json, v: CartItemType) -> bool {
        CartItemType::spec_from_json(j) == Ok::<CartItemType, DecodeError>(v)
    }

    /// `j` is what [`Self::to_json`] writes for `v`.
    pub open spec fn writes_as(j: Json, v: CartItemType) -> bool {
        CartItemType::read_from(j, v)
    }
}

/// A coupon applied to a cart.
#[derive(Clone, Debug, PartialEq)]
pub struct Coupon {
    pub value: String,
    pub description: Option<String>,
    pub status: Option<CouponStatus>,
}

impl Coupon {
    /// A value with the given fields and every other field at its default:
    /// the optional fields unset.
    pub fn new(value: String) -> (r: Coupon)
        ensures
            r.value == value,
            r.description is None,
            r.status is None,
    {
        Coupon {
            value,
            description: None,
            status: None,
        }
    }

    /// `doc` is what [`Self::to_json`] writes for `v`: each field under its
    /// camelCase key, amounts as strings, nested values as they write
    /// themselves, no member at all for an unset optional field or an empty
    /// list that is left out, and no member under any other key.
    pub open spec fn writes_as(doc: Json, v: Coupon) -> bool {
        &&& doc is Object
        &&& field_holds(member(doc, "value"@), |j: Json, x: String| string_value(j) == Ok::<String, DecodeError>(x), v.value)
        &&& match v.description {
            None => member(doc, "description"@) is None,
            Some(w) => field_holds(member(doc, "description"@), |j: Json, x: String| string_value(j) == Ok::<String, DecodeError>(x), w),
        }
        &&& match v.status {
            None => member(doc, "status"@) is None,
            Some(w) => field_holds(member(doc, "status"@), |j: Json, x: CouponStatus| CouponStatus::writes_as(j, x), w),
        }
        &&& forall|k: Seq<char>| #[trigger] member(doc, k) is Some ==> k == "value"@ || k == "description"@ || k == "status"@
    }

    /// The value as a JSON object with camelCase keys. An unset optional field
    /// is left out, not written as `null`; reading the object back gives the
    /// same value.
    pub fn to_json(&self) -> (r: Json)
        ensures
            Coupon::writes_as(r, *self),
            Coupon::read_from(r, *self),
    {
        let mut ms: Vec<(String, Json)> = Vec::new();
        proof {
            reveal_strlit("value");
            reveal_strlit("description");
            reveal_strlit("status");
            assert("value"@.len() == 5);
            assert("description"@.len() == 11);
            assert("status"@.len() == 6);
        }
        push_field(&mut ms, "value", string_json(&self.value));
        push_optional(&mut ms, "description", match &self.description {
            Some(x) => Some(string_json(x)),
            None => None,
        });
        push_optional(&mut ms, "status", match &self.status {
            Some(x) => Some(x.to_json()),
            None => None,
        });
        Json::Object(ms)
    }

    /// `v` is what the JSON object `doc` says, field by field.
    pub open spec fn read_from(doc: Json, v: Coupon) -> bool {
        &&& doc is Object
        &&& field_holds(member(doc, "value"@), |j: Json, x: String| string_value(j) == Ok::<String, DecodeError>(x), v.value)
        &&& opt_field_holds(member(doc, "description"@), |j: Json, x: String| string_value(j) == Ok::<String, DecodeError>(x), v.description)
        &&& opt_field_holds(member(doc, "status"@), |j: Json, x: CouponStatus| CouponStatus::read_from(j, x), v.status)
    }

    /// Whether every field of `doc` can be read: required fields are present,
    /// and every field that is there holds a value of its kind.
    pub open spec fn readable(doc: Json) -> bool {
        &&& doc is Object
        &&& match member(doc, "value"@) {
            Some(j) => string_value(j) is Ok,
            None => false,
        }
        &&& match member(doc, "description"@) {
            Some(j) => j == Json::Null || string_value(j) is Ok,
            None => true,
        }
        &&& match member(doc, "status"@) {
            Some(j) => j == Json::Null || CouponStatus::readable(j),
            None => true,
        }
    }

    /// Reads the value from a JSON object with camelCase keys. A missing or
    /// `null` optional field is unset; members it does not know are ignored.
    pub fn from_json(doc: &Json) -> (r: Result<Coupon, DecodeError>)
        ensures
            !(*doc is Object) ==> r == Err::<Coupon, DecodeError>(DecodeError::MalformedResponse),
            r matches Ok(v) ==> Coupon::read_from(*doc, v),
            r is Ok <==> Coupon::readable(*doc),
    {
        if !is_object(doc) {
            return Err(DecodeError::MalformedResponse);
        }
        let value = match get_member(doc, "value") {
            Some(j) => match read_string(j) {
                Ok(v) => v,
                Err(e) => return Err(e),
            },
            None => return Err(DecodeError::MalformedResponse),
        };
        let description = match get_member(doc, "description") {
            None => None,
            Some(Json::Null) => None,
            Some(j) => match read_string(j) {
                Ok(v) => Some(v),
                Err(e) => return Err(e),
            },
        };
        let status = match get_member(doc, "status") {
            None => None,
            Some(Json::Null) => None,
            Some(j) => match CouponStatus::from_json(j) {
                Ok(v) => Some(v),
                Err(e) => return Err(e),
            },
        };
        Ok(Coupon {
            value,
            description,
            status,
        })
    }

    /// `vs` is what the JSON array `j` says, element by element.
    pub open spec fn list_read_from(j: Json, vs: Seq<Coupon>) -> bool {
        list_holds(Some(j), |e: Json, x: Coupon| Coupon::read_from(e, x), vs)
    }

    /// Whether the JSON value `j` is an array whose every element can be read.
    pub open spec fn list_readable(j: Json) -> bool {
        j matches Json::Array(a) && forall|i: int| 0 <= i < a@.len() ==> #[trigger] Coupon::readable(a@[i])
    }

    /// A JSON array of the values, in order.
    pub fn list_to_json(items: &Vec<Coupon>) -> (r: Json)
        ensures
            r matches Json::Array(a) && a@.len() == items@.len(),
            Coupon::list_read_from(r, items@),
            Coupon::list_writes_as(r, items@),
    {
        let mut out: Vec<Json> = Vec::new();
        let mut i: usize = 0;
        while i < items.len()
            invariant
                i <= items.len(),
                out@.len() == i,
                forall|k: int| 0 <= k < i ==> #[trigger] Coupon::read_from(out@[k], items@[k]),
                forall|k: int| 0 <= k < i ==> #[trigger] Coupon::writes_as(out@[k], items@[k]),
            decreases items.len() - i,
        {
            out.push(items[i].to_json());
            i = i + 1;
        }
        Json::Array(out)
    }

    /// `vs` is what [`Self::list_to_json`] writes, element by element.
    pub open spec fn list_writes_as(j: Json, vs: Seq<Coupon>) -> bool {
        list_holds(Some(j), |e: Json, x: Coupon| Coupon::writes_as(e, x), vs)
    }

    /// Reads a JSON array of values, failing on the first that cannot be read.
    pub fn list_from_json(j: &Json) -> (r: Result<Vec<Coupon>, DecodeError>)
        ensures
            !(*j is Array) ==> r == Err::<Vec<Coupon>, DecodeError>(DecodeError::MalformedResponse),
            r matches Ok(v) ==> Coupon::list_read_from(*j, v@),
            r is Ok <==> Coupon::list_readable(*j),
    {
        match j {
            Json::Array(a) => {
                let mut out: Vec<Coupon> = Vec::new();
                let mut i: usize = 0;
                while i < a.len()
                    invariant
                        i <= a.len(),
                        out@.len() == i,
                        *j == Json::Array(*a),
                        forall|k: int| 0 <= k < i ==> #[trigger] Coupon::read_from(a@[k], out@[k]),
                        forall|k: int| 0 <= k < i ==> #[trigger] Coupon::readable(a@[k]),
                    decreases a.len() - i,
                {
                    match Coupon::from_json(&a[i]) {
                        Ok(v) => out.push(v),
                        Err(e) => {
                            proof {
                                assert(!Coupon::readable(a@[i as int]));
                                assert(!Coupon::list_readable(*j)) by {
                                    if Coupon::list_readable(*j) {
                                        assert((*j)->Array_0 == *a);
                                        assert(Coupon::readable((*j)->Array_0@[i as int]));
                                    }
                                }
                            }
                            return Err(e);
                        },
                    }
                    i = i + 1;
                }
                Ok(out)
            },
            _ => Err(DecodeError::MalformedResponse),
        }
    }
}

/// Whether a coupon applies.
#[derive(Clone, Copy, Debug, PartialEq, Eq, Hash, Structural)]
pub enum CouponStatus {
    Valid,
    Invalid,
    Expired,
}

impl CouponStatus {
    /// The name of the value on the wire.
    pub open spec fn spec_wire_name(self) -> Seq<char> {
        match self {
            CouponStatus::Valid => "VALID"@,
            CouponStatus::Invalid => "INVALID"@,
            CouponStatus::Expired => "EXPIRED"@,
        }
    }

    pub open spec fn spec_from_wire_name(s: Seq<char>) -> Option<CouponStatus> {
        if s == "VALID"@ {
            Some(CouponStatus::Valid)
        } else if s == "INVALID"@ {
            Some(CouponStatus::Invalid)
        } else if s == "EXPIRED"@ {
            Some(CouponStatus::Expired)
        } else {
            None
        }
    }

    pub open spec fn spec_from_json(j: Json) -> Result<CouponStatus, DecodeError> {
        match j {
            Json::Str(s) => match CouponStatus::spec_from_wire_name(s@) {
                Some(v) => Ok(v),
                None => Err(DecodeError::MalformedResponse),
            },
            _ => Err(DecodeError::MalformedResponse),
        }
    }

    pub fn wire_name(&self) -> (r: &'static str)
        ensures
            r@ == self.spec_wire_name(),
    {
        match self {
            CouponStatus::Valid => "VALID",
            CouponStatus::Invalid => "INVALID",
            CouponStatus::Expired => "EXPIRED",
        }
    }

    pub fn from_wire_name(s: &str) -> (r: Option<CouponStatus>)
        ensures
            r == CouponStatus::spec_from_wire_name(s@),
    {
        if same_text(s, "VALID") {
            Some(CouponStatus::Valid)
        } else if same_text(s, "INVALID") {
            Some(CouponStatus::Invalid)
        } else if same_text(s, "EXPIRED") {
            Some(CouponStatus::Expired)
        } else {
            None
        }
    }

    /// The value as a JSON string holding its wire name.
    pub fn to_json(&self) -> (r: Json)
        ensures
            r matches Json::Str(s) && s@ == self.spec_wire_name(),
            CouponStatus::read_from(r, *self),
    {
        proof {
            reveal_strlit("VALID");
            reveal_strlit("INVALID");
            reveal_strlit("EXPIRED");
            assert("VALID"@.len() == 5);
            assert("INVALID"@.len() == 7);
            assert("EXPIRED"@.len() == 7);
            assert("EXPIRED"@[0] == 'E');
            assert("INVALID"@[0] == 'I');
        }
        Json::Str(String::from_str(self.wire_name()))
    }

    pub fn from_json(j: &Json) -> (r: Result<CouponStatus, DecodeError>)
        ensures
            r == CouponStatus::spec_from_json(*j),
    {
        match j {
            Json::Str(s) => match CouponStatus::from_wire_name(s.as_str()) {
                Some(v) => Ok(v),
                None => Err(DecodeError::MalformedResponse),
            },
            _ => Err(DecodeError::MalformedResponse),
        }
    }

    /// Whether the JSON value `j` names a value.
    pub open spec fn readable(j: Json) -> bool {
        CouponStatus::spec_from_json(j) is Ok
    }

    /// `v` is what the JSON value `j` says.
    pub open spec fn read_from(j: Json, v: CouponStatus) -> bool {
        CouponStatus::spec_from_json(j) == Ok::<CouponStatus, DecodeError>(v)
    }

    /// `j` is what [`Self::to_json`] writes for `v`.
    pub open spec fn writes_as(j: Json, v: CouponStatus) -> bool {
        CouponStatus::read_from(j, v)
    }
}

/// A discount applied to a cart.
#[derive(Clone, Debug, PartialEq)]
pub struct Discount {
    pub amount: Decimal,
    pub description: String,
    pub discount_id: String,
}

impl Discount {
    /// A value with the given fields and every other field at its default:
    /// the optional fields unset.
    pub fn new(amount: Decimal, description: String, discount_id: String) -> (r: Discount)
        ensures
            r.amount == amount,
            r.description == description,
            r.discount_id == discount_id,
    {
        Discount {
            amount,
            description,
            discount_id,
        }
    }

    /// `doc` is what [`Self::to_json`] writes for `v`: each field under its
    /// camelCase key, amounts as strings, nested values as they write
    /// themselves, no member at all for an unset optional field or an empty
    /// list that is left out, and no member under any other key.
    pub open spec fn writes_as(doc: Json, v: Discount) -> bool {
        &&& doc is Object
        &&& field_holds(member(doc, "amount"@), |j: Json, x: Decimal| j matches Json::Str(t) && t@ == decimal_text(x), v.amount)
        &&& field_holds(member(doc, "description"@), |j: Json, x: String| string_value(j) == Ok::<String, DecodeError>(x), v.description)
        &&& field_holds(member(doc, "discountId"@), |j: Json, x: String| string_value(j) == Ok::<String, DecodeError>(x), v.discount_id)
        &&& forall|k: Seq<char>| #[trigger] member(doc, k) is Some ==> k == "amount"@ || k == "description"@ || k == "discountId"@
    }

    /// The value as a JSON object with camelCase keys. An unset optional field
    /// is left out, not written as `null`; reading the object back gives the
    /// same value.
    pub fn to_json(&self) -> (r: Json)
        ensures
            Discount::writes_as(r, *self),
            Discount::read_from(r, *self),
    {
        let mut ms: Vec<(String, Json)> = Vec::new();
        proof {
            reveal_strlit("amount");
            reveal_strlit("description");
            reveal_strlit("discountId");
            assert("amount"@.len() == 6);
            assert("description"@.len() == 11);
            assert("discountId"@.len() == 10);
        }
        push_field(&mut ms, "amount", decimal_string_json(*&self.amount));
        push_field(&mut ms, "description", string_json(&self.description));
        push_field(&mut ms, "discountId", string_json(&self.discount_id));
        Json::Object(ms)
    }

    /// `v` is what the JSON object `doc` says, field by field.
    pub open spec fn read_from(doc: Json, v: Discount) -> bool {
        &&& doc is Object
        &&& field_holds(member(doc, "amount"@), |j: Json, x: Decimal| decimal_string_value(j) == Ok::<Decimal, DecodeError>(x), v.amount)
        &&& field_holds(member(doc, "description"@), |j: Json, x: String| string_value(j) == Ok::<String, DecodeError>(x), v.description)
        &&& field_holds(member(doc, "discountId"@), |j: Json, x: String| string_value(j) == Ok::<String, DecodeError>(x), v.discount_id)
    }

    /// Whether every field of `doc` can be read: required fields are present,
    /// and every field that is there holds a value of its kind.
    pub open spec fn readable(doc: Json) -> bool {
        &&& doc is Object
        &&& match member(doc, "amount"@) {
            Some(j) => decimal_string_value(j) is Ok,
            None => false,
        }
        &&& match member(doc, "description"@) {
            Some(j) => string_value(j) is Ok,
            None => false,
        }
        &&& match member(doc, "discountId"@) {
            Some(j) => string_value(j) is Ok,
            None => false,
        }
    }

    /// Reads the value from a JSON object with camelCase keys. A missing or
    /// `null` optional field is unset; members it does not know are ignored.
    pub fn from_json(doc: &Json) -> (r: Result<Discount, DecodeError>)
        ensures
            !(*doc is Object) ==> r == Err::<Discount, DecodeError>(DecodeError::MalformedResponse),
            r matches Ok(v) ==> Discount::read_from(*doc, v),
            r is Ok <==> Discount::readable(*doc),
    {
        if !is_object(doc) {
            return Err(DecodeError::MalformedResponse);
        }
        let amount = match get_member(doc, "amount") {
            Some(j) => match read_decimal_string(j) {
                Ok(v) => v,
                Err(e) => return Err(e),
            },
            None => return Err(DecodeError::MalformedResponse),
        };
        let description = match get_member(doc, "description") {
            Some(j) => match read_string(j) {
                Ok(v) => v,
                Err(e) => return Err(e),
            },
            None => return Err(DecodeError::MalformedResponse),
        };
        let discount_id = match get_member(doc, "discountId") {
            Some(j) => match read_string(j) {
                Ok(v) => v,
                Err(e) => return Err(e),
            },
            None => return Err(DecodeError::MalformedResponse),
        };
        Ok(Discount {
            amount,
            description,
            discount_id,
        })
    }

    /// `vs` is what the JSON array `j` says, element by element.
    pub open spec fn list_read_from(j: Json, vs: Seq<Discount>) -> bool {
        list_holds(Some(j), |e: Json, x: Discount| Discount::read_from(e, x), vs)
    }

    /// Whether the JSON value `j` is an array whose every element can be read.
    pub open spec fn list_readable(j: Json) -> bool {
        j matches Json::Array(a) && forall|i: int| 0 <= i < a@.len() ==> #[trigger] Discount::readable(a@[i])
    }

    /// A JSON array of the values, in order.
    pub fn list_to_json(items: &Vec<Discount>) -> (r: Json)
        ensures
            r matches Json::Array(a) && a@.len() == items@.len(),
            Discount::list_read_from(r, items@),
            Discount::list_writes_as(r, items@),
    {
        let mut out: Vec<Json> = Vec::new();
        let mut i: usize = 0;
        while i < items.len()
            invariant
                i <= items.len(),
                out@.len() == i,
                forall|k: int| 0 <= k < i ==> #[trigger] Discount::read_from(out@[k], items@[k]),
                forall|k: int| 0 <= k < i ==> #[trigger] Discount::writes_as(out@[k], items@[k]),
            decreases items.len() - i,
        {
            out.push(items[i].to_json());
            i = i + 1;
        }
        Json::Array(out)
    }

    /// `vs` is what [`Self::list_to_json`] writes, element by element.
    pub open spec fn list_writes_as(j: Json, vs: Seq<Discount>) -> bool {
        list_holds(Some(j), |e: Json, x: Discount| Discount::writes_as(e, x), vs)
    }

    /// Reads a JSON array of values, failing on the first that cannot be read.
    pub fn list_from_json(j: &Json) -> (r: Result<Vec<Discount>, DecodeError>)
        ensures
            !(*j is Array) ==> r == Err::<Vec<Discount>, DecodeError>(DecodeError::MalformedResponse),
            r matches Ok(v) ==> Discount::list_read_from(*j, v@),
            r is Ok <==> Discount::list_readable(*j),
    {
        match j {
            Json::Array(a) => {
                let mut out: Vec<Discount> = Vec::new();
                let mut i: usize = 0;
                while i < a.len()
                    invariant
                        i <= a.len(),
                        out@.len() == i,
                        *j == Json::Array(*a),
                        forall|k: int| 0 <= k < i ==> #[trigger] Discount::read_from(a@[k], out@[k]),
                        forall|k: int| 0 <= k < i ==> #[trigger] Discount::readable(a@[k]),
                    decreases a.len() - i,
                {
                    match Discount::from_json(&a[i]) {
                        Ok(v) => out.push(v),
                        Err(e) => {
                            proof {
                                assert(!Discount::readable(a@[i as int]));
                                assert(!Discount::list_readable(*j)) by {
                                    if Discount::list_readable(*j) {
                                        assert((*j)->Array_0 == *a);
                                        assert(Discount::readable((*j)->Array_0@[i as int]));
                                    }
                                }
                            }
                            return Err(e);
                        },
                    }
                    i = i + 1;
                }
                Ok(out)
            },
            _ => Err(DecodeError::MalformedResponse),
        }
    }
}

/// The size and weight of a parcel or an item.
#[derive(Clone, Debug, PartialEq)]
pub struct Measurements {
    pub height: Decimal,
    pub length: Decimal,
    pub weight: Decimal,
    pub width: Decimal,
}

impl Measurements {
    /// A value with the given fields and every other field at its default:
    /// the optional fields unset.
    pub fn new(height: Decimal, length: Decimal, weight: Decimal, width: Decimal) -> (r: Measurements)
        ensures
            r.height == height,
            r.length == length,
            r.weight == weight,
            r.width == width,
    {
        Measurements {
            height,
            length,
            weight,
            width,
        }
    }

    /// `doc` is what [`Self::to_json`] writes for `v`: each field under its
    /// camelCase key, amounts as strings, nested values as they write
    /// themselves, no member at all for an unset optional field or an empty
    /// list that is left out, and no member under any other key.
    pub open spec fn writes_as(doc: Json, v: Measurements) -> bool {
        &&& doc is Object
        &&& field_holds(member(doc, "height"@), |j: Json, x: Decimal| j matches Json::Number(t) && t@ == decimal_text(x), v.height)
        &&& field_holds(member(doc, "length"@), |j: Json, x: Decimal| j matches Json::Number(t) && t@ == decimal_text(x), v.length)
        &&& field_holds(member(doc, "weight"@), |j: Json, x: Decimal| j matches Json::Number(t) && t@ == decimal_text(x), v.weight)
        &&& field_holds(member(doc, "width"@), |j: Json, x: Decimal| j matches Json::Number(t) && t@ == decimal_text(x), v.width)
        &&& forall|k: Seq<char>| #[trigger] member(doc, k) is Some ==> k == "height"@ || k == "length"@ || k == "weight"@ || k == "width"@
    }

    /// The value as a JSON object with camelCase keys. An unset optional field
    /// is left out, not written as `null`; reading the object back gives the
    /// same value.
    pub fn to_json(&self) -> (r: Json)
        ensures
            Measurements::writes_as(r, *self),
            Measurements::read_from(r, *self),
    {
        let mut ms: Vec<(String, Json)> = Vec::new();
        proof {
            reveal_strlit("height");
            reveal_strlit("length");
            reveal_strlit("weight");
            reveal_strlit("width");
            assert("height"@.len() == 6);
            assert("length"@.len() == 6);
            assert("weight"@.len() == 6);
            assert("width"@.len() == 5);
            assert("height"@[0] == 'h');
            assert("length"@[0] == 'l');
            assert("weight"@[0] == 'w');
        }
        push_field(&mut ms, "height", decimal_number_json(*&self.height));
        push_field(&mut ms, "length", decimal_number_json(*&self.length));
        push_field(&mut ms, "weight", decimal_number_json(*&self.weight));
        push_field(&mut ms, "width", decimal_number_json(*&self.width));
        Json::Object(ms)
    }

    /// `v` is what the JSON object `doc` says, field by field.
    pub open spec fn read_from(doc: Json, v: Measurements) -> bool {
        &&& doc is Object
        &&& field_holds(member(doc, "height"@), |j: Json, x: Decimal| decimal_number_value(j) == Ok::<Decimal, DecodeError>(x), v.height)
        &&& field_holds(member(doc, "length"@), |j: Json, x: Decimal| decimal_number_value(j) == Ok::<Decimal, DecodeError>(x), v.length)
        &&& field_holds(member(doc, "weight"@), |j: Json, x: Decimal| decimal_number_value(j) == Ok::<Decimal, DecodeError>(x), v.weight)
        &&& field_holds(member(doc, "width"@), |j: Json, x: Decimal| decimal_number_value(j) == Ok::<Decimal, DecodeError>(x), v.width)
    }

    /// Whether every field of `doc` can be read: required fields are present,
    /// and every field that is there holds a value of its kind.
    pub open spec fn readable(doc: Json) -> bool {
        &&& doc is Object
        &&& match member(doc, "height"@) {
            Some(j) => decimal_number_value(j) is Ok,
            None => false,
        }
        &&& match member(doc, "length"@) {
            Some(j) => decimal_number_value(j) is Ok,
            None => false,
        }
        &&& match member(doc, "weight"@) {
            Some(j) => decimal_number_value(j) is Ok,
            None => false,
        }
        &&& match member(doc, "width"@) {
            Some(j) => decimal_number_value(j) is Ok,
            None => false,
        }
    }

    /// Reads the value from a JSON object with camelCase keys. A missing or
    /// `null` optional field is unset; members it does not know are ignored.
    pub fn from_json(doc: &Json) -> (r: Result<Measurements, DecodeError>)
        ensures
            !(*doc is Object) ==> r == Err::<Measurements, DecodeError>(DecodeError::MalformedResponse),
            r matches Ok(v) ==> Measurements::read_from(*doc, v),
            r is Ok <==> Measurements::readable(*doc),
    {
        if !is_object(doc) {
            return Err(DecodeError::MalformedResponse);
        }
        let height = match get_member(doc, "height") {
            Some(j) => match read_decimal_number(j) {
                Ok(v) => v,
                Err(e) => return Err(e),
            },
            None => return Err(DecodeError::MalformedResponse),
        };
        let length = match get_member(doc, "length") {
            Some(j) => match read_decimal_number(j) {
                Ok(v) => v,
                Err(e) => return Err(e),
            },
            None => return Err(DecodeError::MalformedResponse),
        };
        let weight = match get_member(doc, "weight") {
            Some(j) => match read_decimal_number(j) {
                Ok(v) => v,
                Err(e) => return Err(e),
            },
            None => return Err(DecodeError::MalformedResponse),
        };
        let width = match get_member(doc, "width") {
            Some(j) => match read_decimal_number(j) {
                Ok(v) => v,
                Err(e) => return Err(e),
            },
            None => return Err(DecodeError::MalformedResponse),
        };
        Ok(Measurements {
            height,
            length,
            weight,
            width,
        })
    }
}

/// A courier delivery option.
#[derive(Clone, Debug, PartialEq)]
pub struct CourierOption {
    pub amount: Decimal,
    pub category: CourierCategory,
    pub courier_option_id: String,
    pub title: String,
    pub allowed_payment_methods: Vec<AllowedPaymentMethodType>,
    pub customer_choice: Option<FlexibleCustomerChoice>,
    pub from_date: Option<Timestamp>,
    pub from_time: Option<String>,
    pub provider: Option<DeliveryProvider>,
    pub receipt: Option<ItemReceipt>,
    pub time_intervals: Option<FlexibleTimeIntervals>,
    pub to_date: Option<Timestamp>,
    pub to_time: Option<String>,
    pub option_type: CourierOptionType,
}

impl CourierOption {
    /// `v` is what the JSON object `doc` says, field by field.
    pub open spec fn read_from(doc: Json, v: CourierOption) -> bool {
        &&& doc is Object
        &&& field_holds(member(doc, "amount"@), |j: Json, x: Decimal| decimal_string_value(j) == Ok::<Decimal, DecodeError>(x), v.amount)
        &&& field_holds(member(doc, "category"@), |j: Json, x: CourierCategory| CourierCategory::read_from(j, x), v.category)
        &&& field_holds(member(doc, "courierOptionId"@), |j: Json, x: String| string_value(j) == Ok::<String, DecodeError>(x), v.courier_option_id)
        &&& field_holds(member(doc, "title"@), |j: Json, x: String| string_value(j) == Ok::<String, DecodeError>(x), v.title)
        &&& list_or_empty_holds(member(doc, "allowedPaymentMethods"@), |j: Json, x: AllowedPaymentMethodType| AllowedPaymentMethodType::read_from(j, x), v.allowed_payment_methods@)
        &&& opt_field_holds(member(doc, "customerChoice"@), |j: Json, x: FlexibleCustomerChoice| FlexibleCustomerChoice::read_from(j, x), v.customer_choice)
        &&& opt_field_holds(member(doc, "fromDate"@), |j: Json, x: Timestamp| timestamp_value(j) == Ok::<Timestamp, DecodeError>(x), v.from_date)
        &&& opt_field_holds(member(doc, "fromTime"@), |j: Json, x: String| string_value(j) == Ok::<String, DecodeError>(x), v.from_time)
        &&& opt_field_holds(member(doc, "provider"@), |j: Json, x: DeliveryProvider| DeliveryProvider::read_from(j, x), v.provider)
        &&& opt_field_holds(member(doc, "receipt"@), |j: Json, x: ItemReceipt| ItemReceipt::read_from(j, x), v.receipt)
        &&& opt_field_holds(member(doc, "timeIntervals"@), |j: Json, x: FlexibleTimeIntervals| FlexibleTimeIntervals::read_from(j, x), v.time_intervals)
        &&& opt_field_holds(member(doc, "toDate"@), |j: Json, x: Timestamp| timestamp_value(j) == Ok::<Timestamp, DecodeError>(x), v.to_date)
        &&& opt_field_holds(member(doc, "toTime"@), |j: Json, x: String| string_value(j) == Ok::<String, DecodeError>(x), v.to_time)
        &&& if member(doc, "optionType"@) is None {
            v.option_type == CourierOptionType::Plain
        } else {
            field_holds(member(doc, "optionType"@), |j: Json, x: CourierOptionType| CourierOptionType::read_from(j, x), v.option_type)
        }
    }

    /// Whether every field of `doc` can be read: required fields are present,
    /// and every field that is there holds a value of its kind.
    pub open spec fn readable(doc: Json) -> bool {
        &&& doc is Object
        &&& match member(doc, "amount"@) {
            Some(j) => decimal_string_value(j) is Ok,
            None => false,
        }
        &&& match member(doc, "category"@) {
            Some(j) => CourierCategory::readable(j),
            None => false,
        }
        &&& match member(doc, "courierOptionId"@) {
            Some(j) => string_value(j) is Ok,
            None => false,
        }
        &&& match member(doc, "title"@) {
            Some(j) => string_value(j) is Ok,
            None => false,
        }
        &&& match member(doc, "allowedPaymentMethods"@) {
            Some(j) => AllowedPaymentMethodType::list_readable(j),
            None => true,
        }
        &&& match member(doc, "customerChoice"@) {
            Some(j) => j == Json::Null || FlexibleCustomerChoice::readable(j),
            None => true,
        }
        &&& match member(doc, "fromDate"@) {
            Some(j) => j == Json::Null || timestamp_value(j) is Ok,
            None => true,
        }
        &&& match member(doc, "fromTime"@) {
            Some(j) => j == Json::Null || string_value(j) is Ok,
            None => true,
        }
        &&& match member(doc, "provider"@) {
            Some(j) => j == Json::Null || DeliveryProvider::readable(j),
            None => true,
        }
        &&& match member(doc, "receipt"@) {
            Some(j) => j == Json::Null || ItemReceipt::readable(j),
            None => true,
        }
        &&& match member(doc, "timeIntervals"@) {
            Some(j) => j == Json::Null || FlexibleTimeIntervals::readable(j),
            None => true,
        }
        &&& match member(doc, "toDate"@) {
            Some(j) => j == Json::Null || timestamp_value(j) is Ok,
            None => true,
        }
        &&& match member(doc, "toTime"@) {
            Some(j) => j == Json::Null || string_value(j) is Ok,
            None => true,
        }
        &&& match member(doc, "optionType"@) {
            Some(j) => CourierOptionType::readable(j),
            None => true,
        }
    }

    /// Reads the value from a JSON object with camelCase keys. A missing or
    /// `null` optional field is unset; members it does not know are ignored.
    #[verifier::spinoff_prover]
    #[verifier::rlimit(100)]
    pub fn from_json(doc: &Json) -> (r: Result<CourierOption, DecodeError>)
        ensures
            !(*doc is Object) ==> r == Err::<CourierOption, DecodeError>(DecodeError::MalformedResponse),
            r matches Ok(v) ==> CourierOption::read_from(*doc, v),
            r is Ok <==> CourierOption::readable(*doc),
    {
        if !is_object(doc) {
            return Err(DecodeError::MalformedResponse);
        }
        let amount = match get_member(doc, "amount") {
            Some(j) => match read_decimal_string(j) {
                Ok(v) => v,
                Err(e) => return Err(e),
            },
            None => return Err(DecodeError::MalformedResponse),
        };
        let category = match get_member(doc, "category") {
            Some(j) => match CourierCategory::from_json(j) {
                Ok(v) => v,
                Err(e) => return Err(e),
            },
            None => return Err(DecodeError::MalformedResponse),
        };
        let courier_option_id = match get_member(doc, "courierOptionId") {
            Some(j) => match read_string(j) {
                Ok(v) => v,
                Err(e) => return Err(e),
            },
            None => return Err(DecodeError::MalformedResponse),
        };
        let title = match get_member(doc, "title") {
            Some(j) => match read_string(j) {
                Ok(v) => v,
                Err(e) => return Err(e),
            },
            None => return Err(DecodeError::MalformedResponse),
        };
        let allowed_payment_methods = match get_member(doc, "allowedPaymentMethods") {
            Some(j) => match AllowedPaymentMethodType::list_from_json(j) {
                Ok(v) => v,
                Err(e) => return Err(e),
            },
            None => Vec::new(),
        };
        let customer_choice = match get_member(doc, "customerChoice") {
            None => None,
            Some(Json::Null) => None,
            Some(j) => match FlexibleCustomerChoice::from_json(j) {
                Ok(v) => Some(v),
                Err(e) => return Err(e),
            },
        };
        let from_date = match get_member(doc, "fromDate") {
            None => None,
            Some(Json::Null) => None,
            Some(j) => match read_timestamp(j) {
                Ok(v) => Some(v),
                Err(e) => return Err(e),
            },
        };
        let from_time = match get_member(doc, "fromTime") {
            None => None,
            Some(Json::Null) => None,
            Some(j) => match read_string(j) {
                Ok(v) => Some(v),
                Err(e) => return Err(e),
            },
        };
        let provider = match get_member(doc, "provider") {
            None => None,
            Some(Json::Null) => None,
            Some(j) => match DeliveryProvider::from_json(j) {
                Ok(v) => Some(v),
                Err(e) => return Err(e),
            },
        };
        let receipt = match get_member(doc, "receipt") {
            None => None,
            Some(Json::Null) => None,
            Some(j) => match ItemReceipt::from_json(j) {
                Ok(v) => Some(v),
                Err(e) => return Err(e),
            },
        };
        let time_intervals = match get_member(doc, "timeIntervals") {
            None => None,
            Some(Json::Null) => None,
            Some(j) => match FlexibleTimeIntervals::from_json(j) {
                Ok(v) => Some(v),
                Err(e) => return Err(e),
            },
        };
        let to_date = match get_member(doc, "toDate") {
            None => None,
            Some(Json::Null) => None,
            Some(j) => match read_timestamp(j) {
                Ok(v) => Some(v),
                Err(e) => return Err(e),
            },
        };
        let to_time = match get_member(doc, "toTime") {
            None => None,
            Some(Json::Null) => None,
            Some(j) => match read_string(j) {
                Ok(v) => Some(v),
                Err(e) => return Err(e),
            },
        };
        let option_type = match get_member(doc, "optionType") {
            Some(j) => match CourierOptionType::from_json(j) {
                Ok(v) => v,
                Err(e) => return Err(e),
            },
            None => CourierOptionType::default(),
        };
        Ok(CourierOption {
            amount,
            category,
            courier_option_id,
            title,
            allowed_payment_methods,
            customer_choice,
            from_date,
            from_time,
            provider,
            receipt,
            time_intervals,
            to_date,
            to_time,
            option_type,
        })
    }
}

/// How fast a courier delivers.
#[derive(Clone, Copy, Debug, PartialEq, Eq, Hash, Structural)]
pub enum CourierCategory {
    Express,
    Today,
    Standard,
}

impl CourierCategory {
    /// The name of the value on the wire.
    pub open spec fn spec_wire_name(self) -> Seq<char> {
        match self {
            CourierCategory::Express => "EXPRESS"@,
            CourierCategory::Today => "TODAY"@,
            CourierCategory::Standard => "STANDARD"@,
        }
    }

    pub open spec fn spec_from_wire_name(s: Seq<char>) -> Option<CourierCategory> {
        if s == "EXPRESS"@ {
            Some(CourierCategory::Express)
        } else if s == "TODAY"@ {
            Some(CourierCategory::Today)
        } else if s == "STANDARD"@ {
            Some(CourierCategory::Standard)
        } else {
            None
        }
    }

    pub open spec fn spec_from_json(j: Json) -> Result<CourierCategory, DecodeError> {
        match j {
            Json::Str(s) => match CourierCategory::spec_from_wire_name(s@) {
                Some(v) => Ok(v),
                None => Err(DecodeError::MalformedResponse),
            },
            _ => Err(DecodeError::MalformedResponse),
        }
    }

    pub fn wire_name(&self) -> (r: &'static str)
        ensures
            r@ == self.spec_wire_name(),
    {
        match self {
            CourierCategory::Express => "EXPRESS",
            CourierCategory::Today => "TODAY",
            CourierCategory::Standard => "STANDARD",
        }
    }

    pub fn from_wire_name(s: &str) -> (r: Option<CourierCategory>)
        ensures
            r == CourierCategory::spec_from_wire_name(s@),
    {
        if same_text(s, "EXPRESS") {
            Some(CourierCategory::Express)
        } else if same_text(s, "TODAY") {
            Some(CourierCategory::Today)
        } else if same_text(s, "STANDARD") {
            Some(CourierCategory::Standard)
        } else {
            None
        }
    }

    /// The value as a JSON string holding its wire name.
    pub fn to_json(&self) -> (r: Json)
        ensures
            r matches Json::Str(s) && s@ == self.spec_wire_name(),
            CourierCategory::read_from(r, *self),
    {
        proof {
            reveal_strlit("EXPRESS");
            reveal_strlit("TODAY");
            reveal_strlit("STANDARD");
            assert("EXPRESS"@.len() == 7);
            assert("TODAY"@.len() == 5);
            assert("STANDARD"@.len() == 8);
        }
        Json::Str(String::from_str(self.wire_name()))
    }

    pub fn from_json(j: &Json) -> (r: Result<CourierCategory, DecodeError>)
        ensures
            r == CourierCategory::spec_from_json(*j),
    {
        match j {
            Json::Str(s) => match CourierCategory::from_wire_name(s.as_str()) {
                Some(v) => Ok(v),
                None => Err(DecodeError::MalformedResponse),
            },
            _ => Err(DecodeError::MalformedResponse),
        }
    }

    /// Whether the JSON value `j` names a value.
    pub open spec fn readable(j: Json) -> bool {
        CourierCategory::spec_from_json(j) is Ok
    }

    /// `v` is what the JSON value `j` says.
    pub open spec fn read_from(j: Json, v: CourierCategory) -> bool {
        CourierCategory::spec_from_json(j) == Ok::<CourierCategory, DecodeError>(v)
    }

    /// `j` is what [`Self::to_json`] writes for `v`.
    pub open spec fn writes_as(j: Json, v: CourierCategory) -> bool {
        CourierCategory::read_from(j, v)
    }
}

/// Whether a courier option lets the buyer pick a time.
#[derive(Clone, Copy, Debug, PartialEq, Eq, Hash, Structural)]
pub enum CourierOptionType {
    Plain,
    Flexible,
}

impl CourierOptionType {
    /// The name of the value on the wire.
    pub open spec fn spec_wire_name(self) -> Seq<char> {
        match self {
            CourierOptionType::Plain => "PLAIN"@,
            CourierOptionType::Flexible => "FLEXIBLE"@,
        }
    }

    pub open spec fn spec_from_wire_name(s: Seq<char>) -> Option<CourierOptionType> {
        if s == "PLAIN"@ {
            Some(CourierOptionType::Plain)
        } else if s == "FLEXIBLE"@ {
            Some(CourierOptionType::Flexible)
        } else {
            None
        }
    }

    pub open spec fn spec_from_json(j: Json) -> Result<CourierOptionType, DecodeError> {
        match j {
            Json::Str(s) => match CourierOptionType::spec_from_wire_name(s@) {
                Some(v) => Ok(v),
                None => Err(DecodeError::MalformedResponse),
            },
            _ => Err(DecodeError::MalformedResponse),
        }
    }

    pub fn wire_name(&self) -> (r: &'static str)
        ensures
            r@ == self.spec_wire_name(),
    {
        match self {
            CourierOptionType::Plain => "PLAIN",
            CourierOptionType::Flexible => "FLEXIBLE",
        }
    }

    pub fn from_wire_name(s: &str) -> (r: Option<CourierOptionType>)
        ensures
            r == CourierOptionType::spec_from_wire_name(s@),
    {
        if same_text(s, "PLAIN") {
            Some(CourierOptionType::Plain)
        } else if same_text(s, "FLEXIBLE") {
            Some(CourierOptionType::Flexible)
        } else {
            None
        }
    }

    /// The value as a JSON string holding its wire name.
    pub fn to_json(&self) -> (r: Json)
        ensures
            r matches Json::Str(s) && s@ == self.spec_wire_name(),
            CourierOptionType::read_from(r, *self),
    {
        proof {
            reveal_strlit("PLAIN");
            reveal_strlit("FLEXIBLE");
            assert("PLAIN"@.len() == 5);
            assert("FLEXIBLE"@.len() == 8);
        }
        Json::Str(String::from_str(self.wire_name()))
    }

    pub fn from_json(j: &Json) -> (r: Result<CourierOptionType, DecodeError>)
        ensures
            r == CourierOptionType::spec_from_json(*j),
    {
        match j {
            Json::Str(s) => match CourierOptionType::from_wire_name(s.as_str()) {
                Some(v) => Ok(v),
                None => Err(DecodeError::MalformedResponse),
            },
            _ => Err(DecodeError::MalformedResponse),
        }
    }

    /// Whether the JSON value `j` names a value.
    pub open spec fn readable(j: Json) -> bool {
        CourierOptionType::spec_from_json(j) is Ok
    }

    /// `v` is what the JSON value `j` says.
    pub open spec fn read_from(j: Json, v: CourierOptionType) -> bool {
        CourierOptionType::spec_from_json(j) == Ok::<CourierOptionType, DecodeError>(v)
    }

    /// `j` is what [`Self::to_json`] writes for `v`.
    pub open spec fn writes_as(j: Json, v: CourierOptionType) -> bool {
        CourierOptionType::read_from(j, v)
    }
}

impl Default for CourierOptionType {
    fn default() -> (r: CourierOptionType)
        ensures
            r == CourierOptionType::Plain,
    {
        CourierOptionType::Plain
    }
}

/// A delivery service.
#[derive(Clone, Copy, Debug, PartialEq, Eq, Hash, Structural)]
pub enum DeliveryProvider {
    Boxberry,
    Cdek,
    RussianPost,
    Ems,
    Courier,
    Dhl,
    ExpressDelivery,
    Fivepost,
    OzonRocket,
    Dpd,
    SberLogistics,
    Pek,
    Pickpoint,
    Kce,
    PonyExpress,
    YandexDelivery,
}

impl DeliveryProvider {
    /// The name of the value on the wire.
    pub open spec fn spec_wire_name(self) -> Seq<char> {
        match self {
            DeliveryProvider::Boxberry => "BOXBERRY"@,
            DeliveryProvider::Cdek => "CDEK"@,
            DeliveryProvider::RussianPost => "RUSSIAN_POST"@,
            DeliveryProvider::Ems => "EMS"@,
            DeliveryProvider::Courier => "COURIER"@,
            DeliveryProvider::Dhl => "DHL"@,
            DeliveryProvider::ExpressDelivery => "EXPRESS_DELIVERY"@,
            DeliveryProvider::Fivepost => "FIVEPOST"@,
            DeliveryProvider::OzonRocket => "OZON_ROCKET"@,
            DeliveryProvider::Dpd => "DPD"@,
            DeliveryProvider::SberLogistics => "SBER_LOGISTICS"@,
            DeliveryProvider::Pek => "PEK"@,
            DeliveryProvider::Pickpoint => "PICKPOINT"@,
            DeliveryProvider::Kce => "KCE"@,
            DeliveryProvider::PonyExpress => "PONY_EXPRESS"@,
            DeliveryProvider::YandexDelivery => "YANDEX_DELIVERY"@,
        }
    }

    pub open spec fn spec_from_wire_name(s: Seq<char>) -> Option<DeliveryProvider> {
        if s == "BOXBERRY"@ {
            Some(DeliveryProvider::Boxberry)
        } else if s == "CDEK"@ {
            Some(DeliveryProvider::Cdek)
        } else if s == "RUSSIAN_POST"@ {
            Some(DeliveryProvider::RussianPost)
        } else if s == "EMS"@ {
            Some(DeliveryProvider::Ems)
        } else if s == "COURIER"@ {
            Some(DeliveryProvider::Courier)
        } else if s == "DHL"@ {
            Some(DeliveryProvider::Dhl)
        } else if s == "EXPRESS_DELIVERY"@ {
            Some(DeliveryProvider::ExpressDelivery)
        } else if s == "FIVEPOST"@ {
            Some(DeliveryProvider::Fivepost)
        } else if s == "OZON_ROCKET"@ {
            Some(DeliveryProvider::OzonRocket)
        } else if s == "DPD"@ {
            Some(DeliveryProvider::Dpd)
        } else if s == "SBER_LOGISTICS"@ {
            Some(DeliveryProvider::SberLogistics)
        } else if s == "PEK"@ {
            Some(DeliveryProvider::Pek)
        } else if s == "PICKPOINT"@ {
            Some(DeliveryProvider::Pickpoint)
        } else if s == "KCE"@ {
            Some(DeliveryProvider::Kce)
        } else if s == "PONY_EXPRESS"@ {
            Some(DeliveryProvider::PonyExpress)
        } else if s == "YANDEX_DELIVERY"@ {
            Some(DeliveryProvider::YandexDelivery)
        } else {
            None
        }
    }

    pub open spec fn spec_from_json(j: Json) -> Result<DeliveryProvider, DecodeError> {
        match j {
            Json::Str(s) => match DeliveryProvider::spec_from_wire_name(s@) {
                Some(v) => Ok(v),
                None => Err(DecodeError::MalformedResponse),
            },
            _ => Err(DecodeError::MalformedResponse),
        }
    }

    pub fn wire_name(&self) -> (r: &'static str)
        ensures
            r@ == self.spec_wire_name(),
    {
        match self {
            DeliveryProvider::Boxberry => "BOXBERRY",
            DeliveryProvider::Cdek => "CDEK",
            DeliveryProvider::RussianPost => "RUSSIAN_POST",
            DeliveryProvider::Ems => "EMS",
            DeliveryProvider::Courier => "COURIER",
            DeliveryProvider::Dhl => "DHL",
            DeliveryProvider::ExpressDelivery => "EXPRESS_DELIVERY",
            DeliveryProvider::Fivepost => "FIVEPOST",
            DeliveryProvider::OzonRocket => "OZON_ROCKET",
            DeliveryProvider::Dpd => "DPD",
            DeliveryProvider::SberLogistics => "SBER_LOGISTICS",
            DeliveryProvider::Pek => "PEK",
            DeliveryProvider::Pickpoint => "PICKPOINT",
            DeliveryProvider::Kce => "KCE",
            DeliveryProvider::PonyExpress => "PONY_EXPRESS",
            DeliveryProvider::YandexDelivery => "YANDEX_DELIVERY",
        }
    }

    pub fn from_wire_name(s: &str) -> (r: Option<DeliveryProvider>)
        ensures
            r == DeliveryProvider::spec_from_wire_name(s@),
    {
        if same_text(s, "BOXBERRY") {
            Some(DeliveryProvider::Boxberry)
        } else if same_text(s, "CDEK") {
            Some(DeliveryProvider::Cdek)
        } else if same_text(s, "RUSSIAN_POST") {
            Some(DeliveryProvider::RussianPost)
        } else if same_text(s, "EMS") {
            Some(DeliveryProvider::Ems)
        } else if same_text(s, "COURIER") {
            Some(DeliveryProvider::Courier)
        } else if same_text(s, "DHL") {
            Some(DeliveryProvider::Dhl)
        } else if same_text(s, "EXPRESS_DELIVERY") {
            Some(DeliveryProvider::ExpressDelivery)
        } else if same_text(s, "FIVEPOST") {
            Some(DeliveryProvider::Fivepost)
        } else if same_text(s, "OZON_ROCKET") {
            Some(DeliveryProvider::OzonRocket)
        } else if same_text(s, "DPD") {
            Some(DeliveryProvider::Dpd)
        } else if same_text(s, "SBER_LOGISTICS") {
            Some(DeliveryProvider::SberLogistics)
        } else if same_text(s, "PEK") {
            Some(DeliveryProvider::Pek)
        } else if same_text(s, "PICKPOINT") {
            Some(DeliveryProvider::Pickpoint)
        } else if same_text(s, "KCE") {
            Some(DeliveryProvider::Kce)
        } else if same_text(s, "PONY_EXPRESS") {
            Some(DeliveryProvider::PonyExpress)
        } else if same_text(s, "YANDEX_DELIVERY") {
            Some(DeliveryProvider::YandexDelivery)
        } else {
            None
        }
    }

    /// The value as a JSON string holding its wire name.
    pub fn to_json(&self) -> (r: Json)
        ensures
            r matches Json::Str(s) && s@ == self.spec_wire_name(),
            DeliveryProvider::read_from(r, *self),
    {
        proof {
            reveal_strlit("BOXBERRY");
            reveal_strlit("CDEK");
            reveal_strlit("RUSSIAN_POST");
            reveal_strlit("EMS");
            reveal_strlit("COURIER");
            reveal_strlit("DHL");
            reveal_strlit("EXPRESS_DELIVERY");
            reveal_strlit("FIVEPOST");
            reveal_strlit("OZON_ROCKET");
            reveal_strlit("DPD");
            reveal_strlit("SBER_LOGISTICS");
            reveal_strlit("PEK");
            reveal_strlit("PICKPOINT");
            reveal_strlit("KCE");
            reveal_strlit("PONY_EXPRESS");
            reveal_strlit("YANDEX_DELIVERY");
            assert("BOXBERRY"@.len() == 8);
            assert("CDEK"@.len() == 4);
            assert("RUSSIAN_POST"@.len() == 12);
            assert("EMS"@.len() == 3);
            assert("COURIER"@.len() == 7);
            assert("DHL"@.len() == 3);
            assert("EXPRESS_DELIVERY"@.len() == 16);
            assert("FIVEPOST"@.len() == 8);
            assert("OZON_ROCKET"@.len() == 11);
            assert("DPD"@.len() == 3);
            assert("SBER_LOGISTICS"@.len() == 14);
            assert("PEK"@.len() == 3);
            assert("PICKPOINT"@.len() == 9);
            assert("KCE"@.len() == 3);
            assert("PONY_EXPRESS"@.len() == 12);
            assert("YANDEX_DELIVERY"@.len() == 15);
            assert("BOXBERRY"@[0] == 'B');
            assert("DHL"@[0] == 'D');
            assert("DHL"@[1] == 'H');
            assert("DPD"@[0] == 'D');
            assert("DPD"@[1] == 'P');
            assert("EMS"@[0] == 'E');
            assert("FIVEPOST"@[0] == 'F');
            assert("KCE"@[0] == 'K');
            assert("PEK"@[0] == 'P');
            assert("PONY_EXPRESS"@[0] == 'P');
            assert("RUSSIAN_POST"@[0] == 'R');
        }
        Json::Str(String::from_str(self.wire_name()))
    }

    pub fn from_json(j: &Json) -> (r: Result<DeliveryProvider, DecodeError>)
        ensures
            r == DeliveryProvider::spec_from_json(*j),
    {
        match j {
            Json::Str(s) => match DeliveryProvider::from_wire_name(s.as_str()) {
                Some(v) => Ok(v),
                None => Err(DecodeError::MalformedResponse),
            },
            _ => Err(DecodeError::MalformedResponse),
        }
    }

    /// Whether the JSON value `j` names a value.
    pub open spec fn readable(j: Json) -> bool {
        DeliveryProvider::spec_from_json(j) is Ok
    }

    /// `v` is what the JSON value `j` says.
    pub open spec fn read_from(j: Json, v: DeliveryProvider) -> bool {
        DeliveryProvider::spec_from_json(j) == Ok::<DeliveryProvider, DecodeError>(v)
    }

    /// `j` is what [`Self::to_json`] writes for `v`.
    pub open spec fn writes_as(j: Json, v: DeliveryProvider) -> bool {
        DeliveryProvider::read_from(j, v)
    }
}

/// A pickup point option.
#[derive(Clone, Debug, PartialEq)]
pub struct PickupOption {
    pub address: String,
    pub location: Location,
    pub pickup_point_id: String,
    pub title: String,
    pub allowed_payment_methods: Vec<AllowedPaymentMethodType>,
    pub amount: Option<Decimal>,
    pub description: Option<String>,
    pub from_date: Option<Timestamp>,
    pub phones: Vec<String>,
    pub provider: Option<PickupProvider>,
    pub receipt: Option<ItemReceipt>,
    pub schedule: Vec<PickupSchedule>,
    pub storage_period: Option<i32>,
    pub to_date: Option<Timestamp>,
}

impl PickupOption {
    /// `v` is what the JSON object `doc` says, field by field.
    pub open spec fn read_from(doc: Json, v: PickupOption) -> bool {
        &&& doc is Object
        &&& field_holds(member(doc, "address"@), |j: Json, x: String| string_value(j) == Ok::<String, DecodeError>(x), v.address)
        &&& field_holds(member(doc, "location"@), |j: Json, x: Location| Location::read_from(j, x), v.location)
        &&& field_holds(member(doc, "pickupPointId"@), |j: Json, x: String| string_value(j) == Ok::<String, DecodeError>(x), v.pickup_point_id)
        &&& field_holds(member(doc, "title"@), |j: Json, x: String| string_value(j) == Ok::<String, DecodeError>(x), v.title)
        &&& list_or_empty_holds(member(doc, "allowedPaymentMethods"@), |j: Json, x: AllowedPaymentMethodType| AllowedPaymentMethodType::read_from(j, x), v.allowed_payment_methods@)
        &&& opt_field_holds(member(doc, "amount"@), |j: Json, x: Decimal| decimal_string_value(j) == Ok::<Decimal, DecodeError>(x), v.amount)
        &&& opt_field_holds(member(doc, "description"@), |j: Json, x: String| string_value(j) == Ok::<String, DecodeError>(x), v.description)
        &&& opt_field_holds(member(doc, "fromDate"@), |j: Json, x: Timestamp| timestamp_value(j) == Ok::<Timestamp, DecodeError>(x), v.from_date)
        &&& list_or_empty_holds(member(doc, "phones"@), |j: Json, x: String| string_value(j) == Ok::<String, DecodeError>(x), v.phones@)
        &&& opt_field_holds(member(doc, "provider"@), |j: Json, x: PickupProvider| PickupProvider::read_from(j, x), v.provider)
        &&& opt_field_holds(member(doc, "receipt"@), |j: Json, x: ItemReceipt| ItemReceipt::read_from(j, x), v.receipt)
        &&& list_or_empty_holds(member(doc, "schedule"@), |j: Json, x: PickupSchedule| PickupSchedule::read_from(j, x), v.schedule@)
        &&& opt_field_holds(member(doc, "storagePeriod"@), |j: Json, x: i32| i32_value(j) == Ok::<i32, DecodeError>(x), v.storage_period)
        &&& opt_field_holds(member(doc, "toDate"@), |j: Json, x: Timestamp| timestamp_value(j) == Ok::<Timestamp, DecodeError>(x), v.to_date)
    }

    /// Whether every field of `doc` can be read: required fields are present,
    /// and every field that is there holds a value of its kind.
    pub open spec fn readable(doc: Json) -> bool {
        &&& doc is Object
        &&& match member(doc, "address"@) {
            Some(j) => string_value(j) is Ok,
            None => false,
        }
        &&& match member(doc, "location"@) {
            Some(j) => Location::readable(j),
            None => false,
        }
        &&& match member(doc, "pickupPointId"@) {
            Some(j) => string_value(j) is Ok,
            None => false,
        }
        &&& match member(doc, "title"@) {
            Some(j) => string_value(j) is Ok,
            None => false,
        }
        &&& match member(doc, "allowedPaymentMethods"@) {
            Some(j) => AllowedPaymentMethodType::list_readable(j),
            None => true,
        }
        &&& match member(doc, "amount"@) {
            Some(j) => j == Json::Null || decimal_string_value(j) is Ok,
            None => true,
        }
        &&& match member(doc, "description"@) {
            Some(j) => j == Json::Null || string_value(j) is Ok,
            None => true,
        }
        &&& match member(doc, "fromDate"@) {
            Some(j) => j == Json::Null || timestamp_value(j) is Ok,
            None => true,
        }
        &&& match member(doc, "phones"@) {
            Some(j) => strings_readable(j),
            None => true,
        }
        &&& match member(doc, "provider"@) {
            Some(j) => j == Json::Null || PickupProvider::readable(j),
            None => true,
        }
        &&& match member(doc, "receipt"@) {
            Some(j) => j == Json::Null || ItemReceipt::readable(j),
            None => true,
        }
        &&& match member(doc, "schedule"@) {
            Some(j) => PickupSchedule::list_readable(j),
            None => true,
        }
        &&& match member(doc, "storagePeriod"@) {
            Some(j) => j == Json::Null || i32_value(j) is Ok,
            None => true,
        }
        &&& match member(doc, "toDate"@) {
            Some(j) => j == Json::Null || timestamp_value(j) is Ok,
            None => true,
        }
    }

    /// Reads the value from a JSON object with camelCase keys. A missing or
    /// `null` optional field is unset; members it does not know are ignored.
    #[verifier::spinoff_prover]
    #[verifier::rlimit(100)]
    pub fn from_json(doc: &Json) -> (r: Result<PickupOption, DecodeError>)
        ensures
            !(*doc is Object) ==> r == Err::<PickupOption, DecodeError>(DecodeError::MalformedResponse),
            r matches Ok(v) ==> PickupOption::read_from(*doc, v),
            r is Ok <==> PickupOption::readable(*doc),
    {
        if !is_object(doc) {
            return Err(DecodeError::MalformedResponse);
        }
        let address = match get_member(doc, "address") {
            Some(j) => match read_string(j) {
                Ok(v) => v,
                Err(e) => return Err(e),
            },
            None => return Err(DecodeError::MalformedResponse),
        };
        let location = match get_member(doc, "location") {
            Some(j) => match Location::from_json(j) {
                Ok(v) => v,
                Err(e) => return Err(e),
            },
            None => return Err(DecodeError::MalformedResponse),
        };
        let pickup_point_id = match get_member(doc, "pickupPointId") {
            Some(j) => match read_string(j) {
                Ok(v) => v,
                Err(e) => return Err(e),
            },
            None => return Err(DecodeError::MalformedResponse),
        };
        let title = match get_member(doc, "title") {
            Some(j) => match read_string(j) {
                Ok(v) => v,
                Err(e) => return Err(e),
            },
            None => return Err(DecodeError::MalformedResponse),
        };
        let allowed_payment_methods = match get_member(doc, "allowedPaymentMethods") {
            Some(j) => match AllowedPaymentMethodType::list_from_json(j) {
                Ok(v) => v,
                Err(e) => return Err(e),
            },
            None => Vec::new(),
        };
        let amount = match get_member(doc, "amount") {
            None => None,
            Some(Json::Null) => None,
            Some(j) => match read_decimal_string(j) {
                Ok(v) => Some(v),
                Err(e) => return Err(e),
            },
        };
        let description = match get_member(doc, "description") {
            None => None,
            Some(Json::Null) => None,
            Some(j) => match read_string(j) {
                Ok(v) => Some(v),
                Err(e) => return Err(e),
            },
        };
        let from_date = match get_member(doc, "fromDate") {
            None => None,
            Some(Json::Null) => None,
            Some(j) => match read_timestamp(j) {
                Ok(v) => Some(v),
                Err(e) => return Err(e),
            },
        };
        let phones = match get_member(doc, "phones") {
            Some(j) => match read_strings(j) {
                Ok(v) => v,
                Err(e) => return Err(e),
            },
            None => Vec::new(),
        };
        let provider = match get_member(doc, "provider") {
            None => None,
            Some(Json::Null) => None,
            Some(j) => match PickupProvider::from_json(j) {
                Ok(v) => Some(v),
                Err(e) => return Err(e),
            },
        };
        let receipt = match get_member(doc, "receipt") {
            None => None,
            Some(Json::Null) => None,
            Some(j) => match ItemReceipt::from_json(j) {
                Ok(v) => Some(v),
                Err(e) => return Err(e),
            },
        };
        let schedule = match get_member(doc, "schedule") {
            Some(j) => match PickupSchedule::list_from_json(j) {
                Ok(v) => v,
                Err(e) => return Err(e),
            },
            None => Vec::new(),
        };
        let storage_period = match get_member(doc, "storagePeriod") {
            None => None,
            Some(Json::Null) => None,
            Some(j) => match read_i32(j) {
                Ok(v) => Some(v),
                Err(e) => return Err(e),
            },
        };
        let to_date = match get_member(doc, "toDate") {
            None => None,
            Some(Json::Null) => None,
            Some(j) => match read_timestamp(j) {
                Ok(v) => Some(v),
                Err(e) => return Err(e),
            },
        };
        Ok(PickupOption {
            address,
            location,
            pickup_point_id,
            title,
            allowed_payment_methods,
            amount,
            description,
            from_date,
            phones,
            provider,
            receipt,
            schedule,
            storage_period,
            to_date,
        })
    }
}

/// A payment method allowed for a delivery option.
#[derive(Clone, Copy, Debug, PartialEq, Eq, Hash, Structural)]
pub enum AllowedPaymentMethodType {
    Card,
    Split,
    CashOnDelivery,
    CardOnDelivery,
}

impl AllowedPaymentMethodType {
    /// The name of the value on the wire.
    pub open spec fn spec_wire_name(self) -> Seq<char> {
        match self {
            AllowedPaymentMethodType::Card => "CARD"@,
            AllowedPaymentMethodType::Split => "SPLIT"@,
            AllowedPaymentMethodType::CashOnDelivery => "CASH_ON_DELIVERY"@,
            AllowedPaymentMethodType::CardOnDelivery => "CARD_ON_DELIVERY"@,
        }
    }

    pub open spec fn spec_from_wire_name(s: Seq<char>) -> Option<AllowedPaymentMethodType> {
        if s == "CARD"@ {
            Some(AllowedPaymentMethodType::Card)
        } else if s == "SPLIT"@ {
            Some(AllowedPaymentMethodType::Split)
        } else if s == "CASH_ON_DELIVERY"@ {
            Some(AllowedPaymentMethodType::CashOnDelivery)
        } else if s == "CARD_ON_DELIVERY"@ {
            Some(AllowedPaymentMethodType::CardOnDelivery)
        } else {
            None
        }
    }

    pub open spec fn spec_from_json(j: Json) -> Result<AllowedPaymentMethodType, DecodeError> {
        match j {
            Json::Str(s) => match AllowedPaymentMethodType::spec_from_wire_name(s@) {
                Some(v) => Ok(v),
                None => Err(DecodeError::MalformedResponse),
            },
            _ => Err(DecodeError::MalformedResponse),
        }
    }

    pub fn wire_name(&self) -> (r: &'static str)
        ensures
            r@ == self.spec_wire_name(),
    {
        match self {
            AllowedPaymentMethodType::Card => "CARD",
            AllowedPaymentMethodType::Split => "SPLIT",
            AllowedPaymentMethodType::CashOnDelivery => "CASH_ON_DELIVERY",
            AllowedPaymentMethodType::CardOnDelivery => "CARD_ON_DELIVERY",
        }
    }

    pub fn from_wire_name(s: &str) -> (r: Option<AllowedPaymentMethodType>)
        ensures
            r == AllowedPaymentMethodType::spec_from_wire_name(s@),
    {
        if same_text(s, "CARD") {
            Some(AllowedPaymentMethodType::Card)
        } else if same_text(s, "SPLIT") {
            Some(AllowedPaymentMethodType::Split)
        } else if same_text(s, "CASH_ON_DELIVERY") {
            Some(AllowedPaymentMethodType::CashOnDelivery)
        } else if same_text(s, "CARD_ON_DELIVERY") {
            Some(AllowedPaymentMethodType::CardOnDelivery)
        } else {
            None
        }
    }

    /// The value as a JSON string holding its wire name.
    pub fn to_json(&self) -> (r: Json)
        ensures
            r matches Json::Str(s) && s@ == self.spec_wire_name(),
            AllowedPaymentMethodType::read_from(r, *self),
    {
        proof {
            reveal_strlit("CARD");
            reveal_strlit("SPLIT");
            reveal_strlit("CASH_ON_DELIVERY");
            reveal_strlit("CARD_ON_DELIVERY");
            assert("CARD"@.len() == 4);
            assert("SPLIT"@.len() == 5);
            assert("CASH_ON_DELIVERY"@.len() == 16);
            assert("CARD_ON_DELIVERY"@.len() == 16);
            assert("CARD_ON_DELIVERY"@[2] == 'R');
            assert("CASH_ON_DELIVERY"@[2] == 'S');
        }
        Json::Str(String::from_str(self.wire_name()))
    }

    pub fn from_json(j: &Json) -> (r: Result<AllowedPaymentMethodType, DecodeError>)
        ensures
            r == AllowedPaymentMethodType::spec_from_json(*j),
    {
        match j {
            Json::Str(s) => match AllowedPaymentMethodType::from_wire_name(s.as_str()) {
                Some(v) => Ok(v),
                None => Err(DecodeError::MalformedResponse),
            },
            _ => Err(DecodeError::MalformedResponse),
        }
    }

    /// Whether the JSON value `j` names a value.
    pub open spec fn readable(j: Json) -> bool {
        AllowedPaymentMethodType::spec_from_json(j) is Ok
    }

    /// `v` is what the JSON value `j` says.
    pub open spec fn read_from(j: Json, v: AllowedPaymentMethodType) -> bool {
        AllowedPaymentMethodType::spec_from_json(j) == Ok::<AllowedPaymentMethodType, DecodeError>(v)
    }

    /// `j` is what [`Self::to_json`] writes for `v`.
    pub open spec fn writes_as(j: Json, v: AllowedPaymentMethodType) -> bool {
        AllowedPaymentMethodType::read_from(j, v)
    }

    /// `vs` is what the JSON array `j` says, element by element.
    pub open spec fn list_read_from(j: Json, vs: Seq<AllowedPaymentMethodType>) -> bool {
        list_holds(Some(j), |e: Json, x: AllowedPaymentMethodType| AllowedPaymentMethodType::read_from(e, x), vs)
    }

    /// Whether the JSON value `j` is an array whose every element can be read.
    pub open spec fn list_readable(j: Json) -> bool {
        j matches Json::Array(a) && forall|i: int| 0 <= i < a@.len() ==> #[trigger] AllowedPaymentMethodType::readable(a@[i])
    }

    /// Reads a JSON array of values, failing on the first that cannot be read.
    pub fn list_from_json(j: &Json) -> (r: Result<Vec<AllowedPaymentMethodType>, DecodeError>)
        ensures
            !(*j is Array) ==> r == Err::<Vec<AllowedPaymentMethodType>, DecodeError>(DecodeError::MalformedResponse),
            r matches Ok(v) ==> AllowedPaymentMethodType::list_read_from(*j, v@),
            r is Ok <==> AllowedPaymentMethodType::list_readable(*j),
    {
        match j {
            Json::Array(a) => {
                let mut out: Vec<AllowedPaymentMethodType> = Vec::new();
                let mut i: usize = 0;
                while i < a.len()
                    invariant
                        i <= a.len(),
                        out@.len() == i,
                        *j == Json::Array(*a),
                        forall|k: int| 0 <= k < i ==> #[trigger] AllowedPaymentMethodType::read_from(a@[k], out@[k]),
                        forall|k: int| 0 <= k < i ==> #[trigger] AllowedPaymentMethodType::readable(a@[k]),
                    decreases a.len() - i,
                {
                    match AllowedPaymentMethodType::from_json(&a[i]) {
                        Ok(v) => out.push(v),
                        Err(e) => {
                            proof {
                                assert(!AllowedPaymentMethodType::readable(a@[i as int]));
                                assert(!AllowedPaymentMethodType::list_readable(*j)) by {
                                    if AllowedPaymentMethodType::list_readable(*j) {
                                        assert((*j)->Array_0 == *a);
                                        assert(AllowedPaymentMethodType::readable((*j)->Array_0@[i as int]));
                                    }
                                }
                            }
                            return Err(e);
                        },
                    }
                    i = i + 1;
                }
                Ok(out)
            },
            _ => Err(DecodeError::MalformedResponse),
        }
    }
}

/// A pickup point network.
#[derive(Clone, Copy, Debug, PartialEq, Eq, Hash, Structural)]
pub enum PickupProvider {
    YandexMarket,
    Boxberry,
    Cdek,
    InStore,
    RussianPost,
    Pickpoint,
    Dpd,
}

impl PickupProvider {
    /// The name of the value on the wire.
    pub open spec fn spec_wire_name(self) -> Seq<char> {
        match self {
            PickupProvider::YandexMarket => "YANDEX_MARKET"@,
            PickupProvider::Boxberry => "BOXBERRY"@,
            PickupProvider::Cdek => "CDEK"@,
            PickupProvider::InStore => "IN_STORE"@,
            PickupProvider::RussianPost => "RUSSIAN_POST"@,
            PickupProvider::Pickpoint => "PICKPOINT"@,
            PickupProvider::Dpd => "DPD"@,
        }
    }

    pub open spec fn spec_from_wire_name(s: Seq<char>) -> Option<PickupProvider> {
        if s == "YANDEX_MARKET"@ {
            Some(PickupProvider::YandexMarket)
        } else if s == "BOXBERRY"@ {
            Some(PickupProvider::Boxberry)
        } else if s == "CDEK"@ {
            Some(PickupProvider::Cdek)
        } else if s == "IN_STORE"@ {
            Some(PickupProvider::InStore)
        } else if s == "RUSSIAN_POST"@ {
            Some(PickupProvider::RussianPost)
        } else if s == "PICKPOINT"@ {
            Some(PickupProvider::Pickpoint)
        } else if s == "DPD"@ {
            Some(PickupProvider::Dpd)
        } else {
            None
        }
    }

    pub open spec fn spec_from_json(j: Json) -> Result<PickupProvider, DecodeError> {
        match j {
            Json::Str(s) => match PickupProvider::spec_from_wire_name(s@) {
                Some(v) => Ok(v),
                None => Err(DecodeError::MalformedResponse),
            },
            _ => Err(DecodeError::MalformedResponse),
        }
    }

    pub fn wire_name(&self) -> (r: &'static str)
        ensures
            r@ == self.spec_wire_name(),
    {
        match self {
            PickupProvider::YandexMarket => "YANDEX_MARKET",
            PickupProvider::Boxberry => "BOXBERRY",
            PickupProvider::Cdek => "CDEK",
            PickupProvider::InStore => "IN_STORE",
            PickupProvider::RussianPost => "RUSSIAN_POST",
            PickupProvider::Pickpoint => "PICKPOINT",
            PickupProvider::Dpd => "DPD",
        }
    }

    pub fn from_wire_name(s: &str) -> (r: Option<PickupProvider>)
        ensures
            r == PickupProvider::spec_from_wire_name(s@),
    {
        if same_text(s, "YANDEX_MARKET") {
            Some(PickupProvider::YandexMarket)
        } else if same_text(s, "BOXBERRY") {
            Some(PickupProvider::Boxberry)
        } else if same_text(s, "CDEK") {
            Some(PickupProvider::Cdek)
        } else if same_text(s, "IN_STORE") {
            Some(PickupProvider::InStore)
        } else if same_text(s, "RUSSIAN_POST") {
            Some(PickupProvider::RussianPost)
        } else if same_text(s, "PICKPOINT") {
            Some(PickupProvider::Pickpoint)
        } else if same_text(s, "DPD") {
            Some(PickupProvider::Dpd)
        } else {
            None
        }
    }

    /// The value as a JSON string holding its wire name.
    pub fn to_json(&self) -> (r: Json)
        ensures
            r matches Json::Str(s) && s@ == self.spec_wire_name(),
            PickupProvider::read_from(r, *self),
    {
        proof {
            reveal_strlit("YANDEX_MARKET");
            reveal_strlit("BOXBERRY");
            reveal_strlit("CDEK");
            reveal_strlit("IN_STORE");
            reveal_strlit("RUSSIAN_POST");
            reveal_strlit("PICKPOINT");
            reveal_strlit("DPD");
            assert("YANDEX_MARKET"@.len() == 13);
            assert("BOXBERRY"@.len() == 8);
            assert("CDEK"@.len() == 4);
            assert("IN_STORE"@.len() == 8);
            assert("RUSSIAN_POST"@.len() == 12);
            assert("PICKPOINT"@.len() == 9);
            assert("DPD"@.len() == 3);
            assert("BOXBERRY"@[0] == 'B');
            assert("IN_STORE"@[0] == 'I');
        }
        Json::Str(String::from_str(self.wire_name()))
    }

    pub fn from_json(j: &Json) -> (r: Result<PickupProvider, DecodeError>)
        ensures
            r == PickupProvider::spec_from_json(*j),
    {
        match j {
            Json::Str(s) => match PickupProvider::from_wire_name(s.as_str()) {
                Some(v) => Ok(v),
                None => Err(DecodeError::MalformedResponse),
            },
            _ => Err(DecodeError::MalformedResponse),
        }
    }

    /// Whether the JSON value `j` names a value.
    pub open spec fn readable(j: Json) -> bool {
        PickupProvider::spec_from_json(j) is Ok
    }

    /// `v` is what the JSON value `j` says.
    pub open spec fn read_from(j: Json, v: PickupProvider) -> bool {
        PickupProvider::spec_from_json(j) == Ok::<PickupProvider, DecodeError>(v)
    }

    /// `j` is what [`Self::to_json`] writes for `v`.
    pub open spec fn writes_as(j: Json, v: PickupProvider) -> bool {
        PickupProvider::read_from(j, v)
    }
}

/// The opening hours of a pickup point on some days.
#[derive(Clone, Debug, PartialEq)]
pub struct PickupSchedule {
    pub label: String,
    pub from_time: String,
    pub to_time: String,
}

impl PickupSchedule {
    /// `v` is what the JSON object `doc` says, field by field.
    pub open spec fn read_from(doc: Json, v: PickupSchedule) -> bool {
        &&& doc is Object
        &&& field_holds(member(doc, "label"@), |j: Json, x: String| string_value(j) == Ok::<String, DecodeError>(x), v.label)
        &&& field_holds(member(doc, "fromTime"@), |j: Json, x: String| string_value(j) == Ok::<String, DecodeError>(x), v.from_time)
        &&& field_holds(member(doc, "toTime"@), |j: Json, x: String| string_value(j) == Ok::<String, DecodeError>(x), v.to_time)
    }

    /// Whether every field of `doc` can be read: required fields are present,
    /// and every field that is there holds a value of its kind.
    pub open spec fn readable(doc: Json) -> bool {
        &&& doc is Object
        &&& match member(doc, "label"@) {
            Some(j) => string_value(j) is Ok,
            None => false,
        }
        &&& match member(doc, "fromTime"@) {
            Some(j) => string_value(j) is Ok,
            None => false,
        }
        &&& match member(doc, "toTime"@) {
            Some(j) => string_value(j) is Ok,
            None => false,
        }
    }

    /// Reads the value from a JSON object with camelCase keys. A missing or
    /// `null` optional field is unset; members it does not know are ignored.
    pub fn from_json(doc: &Json) -> (r: Result<PickupSchedule, DecodeError>)
        ensures
            !(*doc is Object) ==> r == Err::<PickupSchedule, DecodeError>(DecodeError::MalformedResponse),
            r matches Ok(v) ==> PickupSchedule::read_from(*doc, v),
            r is Ok <==> PickupSchedule::readable(*doc),
    {
        if !is_object(doc) {
            return Err(DecodeError::MalformedResponse);
        }
        let label = match get_member(doc, "label") {
            Some(j) => match read_string(j) {
                Ok(v) => v,
                Err(e) => return Err(e),
            },
            None => return Err(DecodeError::MalformedResponse),
        };
        let from_time = match get_member(doc, "fromTime") {
            Some(j) => match read_string(j) {
                Ok(v) => v,
                Err(e) => return Err(e),
            },
            None => return Err(DecodeError::MalformedResponse),
        };
        let to_time = match get_member(doc, "toTime") {
            Some(j) => match read_string(j) {
                Ok(v) => v,
                Err(e) => return Err(e),
            },
            None => return Err(DecodeError::MalformedResponse),
        };
        Ok(PickupSchedule {
            label,
            from_time,
            to_time,
        })
    }

    /// `vs` is what the JSON array `j` says, element by element.
    pub open spec fn list_read_from(j: Json, vs: Seq<PickupSchedule>) -> bool {
        list_holds(Some(j), |e: Json, x: PickupSchedule| PickupSchedule::read_from(e, x), vs)
    }

    /// Whether the JSON value `j` is an array whose every element can be read.
    pub open spec fn list_readable(j: Json) -> bool {
        j matches Json::Array(a) && forall|i: int| 0 <= i < a@.len() ==> #[trigger] PickupSchedule::readable(a@[i])
    }

    /// Reads a JSON array of values, failing on the first that cannot be read.
    pub fn list_from_json(j: &Json) -> (r: Result<Vec<PickupSchedule>, DecodeError>)
        ensures
            !(*j is Array) ==> r == Err::<Vec<PickupSchedule>, DecodeError>(DecodeError::MalformedResponse),
            r matches Ok(v) ==> PickupSchedule::list_read_from(*j, v@),
            r is Ok <==> PickupSchedule::list_readable(*j),
    {
        match j {
            Json::Array(a) => {
                let mut out: Vec<PickupSchedule> = Vec::new();
                let mut i: usize = 0;
                while i < a.len()
                    invariant
                        i <= a.len(),
                        out@.len() == i,
                        *j == Json::Array(*a),
                        forall|k: int| 0 <= k < i ==> #[trigger] PickupSchedule::read_from(a@[k], out@[k]),
                        forall|k: int| 0 <= k < i ==> #[trigger] PickupSchedule::readable(a@[k]),
                    decreases a.len() - i,
                {
                    match PickupSchedule::from_json(&a[i]) {
                        Ok(v) => out.push(v),
                        Err(e) => {
                            proof {
                                assert(!PickupSchedule::readable(a@[i as int]));
                                assert(!PickupSchedule::list_readable(*j)) by {
                                    if PickupSchedule::list_readable(*j) {
                                        assert((*j)->Array_0 == *a);
                                        assert(PickupSchedule::readable((*j)->Array_0@[i as int]));
                                    }
                                }
                            }
                            return Err(e);
                        },
                    }
                    i = i + 1;
                }
                Ok(out)
            },
            _ => Err(DecodeError::MalformedResponse),
        }
    }
}

/// A delivery option of Yandex Delivery.
#[derive(Clone, Debug, PartialEq)]
pub struct YandexDeliveryOption {
    pub amount: Decimal,
    pub category: CourierCategory,
    pub title: String,
    pub yandex_delivery_option_id: String,
    pub allowed_payment_methods: Vec<AllowedPaymentMethodType>,
    pub from_datetime: Option<Timestamp>,
    pub receipt: Option<ItemReceipt>,
    pub to_datetime: Option<Timestamp>,
}

impl YandexDeliveryOption {
    /// `v` is what the JSON object `doc` says, field by field.
    pub open spec fn read_from(doc: Json, v: YandexDeliveryOption) -> bool {
        &&& doc is Object
        &&& field_holds(member(doc, "amount"@), |j: Json, x: Decimal| decimal_string_value(j) == Ok::<Decimal, DecodeError>(x), v.amount)
        &&& field_holds(member(doc, "category"@), |j: Json, x: CourierCategory| CourierCategory::read_from(j, x), v.category)
        &&& field_holds(member(doc, "title"@), |j: Json, x: String| string_value(j) == Ok::<String, DecodeError>(x), v.title)
        &&& field_holds(member(doc, "yandexDeliveryOptionId"@), |j: Json, x: String| string_value(j) == Ok::<String, DecodeError>(x), v.yandex_delivery_option_id)
        &&& list_or_empty_holds(member(doc, "allowedPaymentMethods"@), |j: Json, x: AllowedPaymentMethodType| AllowedPaymentMethodType::read_from(j, x), v.allowed_payment_methods@)
        &&& opt_field_holds(member(doc, "fromDatetime"@), |j: Json, x: Timestamp| timestamp_value(j) == Ok::<Timestamp, DecodeError>(x), v.from_datetime)
        &&& opt_field_holds(member(doc, "receipt"@), |j: Json, x: ItemReceipt| ItemReceipt::read_from(j, x), v.receipt)
        &&& opt_field_holds(member(doc, "toDatetime"@), |j: Json, x: Timestamp| timestamp_value(j) == Ok::<Timestamp, DecodeError>(x), v.to_datetime)
    }

    /// Whether every field of `doc` can be read: required fields are present,
    /// and every field that is there holds a value of its kind.
    pub open spec fn readable(doc: Json) -> bool {
        &&& doc is Object
        &&& match member(doc, "amount"@) {
            Some(j) => decimal_string_value(j) is Ok,
            None => false,
        }
        &&& match member(doc, "category"@) {
            Some(j) => CourierCategory::readable(j),
            None => false,
        }
        &&& match member(doc, "title"@) {
            Some(j) => string_value(j) is Ok,
            None => false,
        }
        &&& match member(doc, "yandexDeliveryOptionId"@) {
            Some(j) => string_value(j) is Ok,
            None => false,
        }
        &&& match member(doc, "allowedPaymentMethods"@) {
            Some(j) => AllowedPaymentMethodType::list_readable(j),
            None => true,
        }
        &&& match member(doc, "fromDatetime"@) {
            Some(j) => j == Json::Null || timestamp_value(j) is Ok,
            None => true,
        }
        &&& match member(doc, "receipt"@) {
            Some(j) => j == Json::Null || ItemReceipt::readable(j),
            None => true,
        }
        &&& match member(doc, "toDatetime"@) {
            Some(j) => j == Json::Null || timestamp_value(j) is Ok,
            None => true,
        }
    }

    /// Reads the value from a JSON object with camelCase keys. A missing or
    /// `null` optional field is unset; members it does not know are ignored.
    #[verifier::rlimit(40)]
    pub fn from_json(doc: &Json) -> (r: Result<YandexDeliveryOption, DecodeError>)
        ensures
            !(*doc is Object) ==> r == Err::<YandexDeliveryOption, DecodeError>(DecodeError::MalformedResponse),
            r matches Ok(v) ==> YandexDeliveryOption::read_from(*doc, v),
            r is Ok <==> YandexDeliveryOption::readable(*doc),
    {
        if !is_object(doc) {
            return Err(DecodeError::MalformedResponse);
        }
        let amount = match get_member(doc, "amount") {
            Some(j) => match read_decimal_string(j) {
                Ok(v) => v,
                Err(e) => return Err(e),
            },
            None => return Err(DecodeError::MalformedResponse),
        };
        let category = match get_member(doc, "category") {
            Some(j) => match CourierCategory::from_json(j) {
                Ok(v) => v,
                Err(e) => return Err(e),
            },
            None => return Err(DecodeError::MalformedResponse),
        };
        let title = match get_member(doc, "title") {
            Some(j) => match read_string(j) {
                Ok(v) => v,
                Err(e) => return Err(e),
            },
            None => return Err(DecodeError::MalformedResponse),
        };
        let yandex_delivery_option_id = match get_member(doc, "yandexDeliveryOptionId") {
            Some(j) => match read_string(j) {
                Ok(v) => v,
                Err(e) => return Err(e),
            },
            None => return Err(DecodeError::MalformedResponse),
        };
        let allowed_payment_methods = match get_member(doc, "allowedPaymentMethods") {
            Some(j) => match AllowedPaymentMethodType::list_from_json(j) {
                Ok(v) => v,
                Err(e) => return Err(e),
            },
            None => Vec::new(),
        };
        let from_datetime = match get_member(doc, "fromDatetime") {
            None => None,
            Some(Json::Null) => None,
            Some(j) => match read_timestamp(j) {
                Ok(v) => Some(v),
                Err(e) => return Err(e),
            },
        };
        let receipt = match get_member(doc, "receipt") {
            None => None,
            Some(Json::Null) => None,
            Some(j) => match ItemReceipt::from_json(j) {
                Ok(v) => Some(v),
                Err(e) => return Err(e),
            },
        };
        let to_datetime = match get_member(doc, "toDatetime") {
            None => None,
            Some(Json::Null) => None,
            Some(j) => match read_timestamp(j) {
                Ok(v) => Some(v),
                Err(e) => return Err(e),
            },
        };
        Ok(YandexDeliveryOption {
            amount,
            category,
            title,
            yandex_delivery_option_id,
            allowed_payment_methods,
            from_datetime,
            receipt,
            to_datetime,
        })
    }
}

/// The day and time the buyer chose for delivery.
#[derive(Clone, Debug, PartialEq)]
pub struct FlexibleCustomerChoice {
    pub date: Timestamp,
    pub time: Option<TimeInterval>,
}

impl FlexibleCustomerChoice {
    /// `v` is what the JSON object `doc` says, field by field.
    pub open spec fn read_from(doc: Json, v: FlexibleCustomerChoice) -> bool {
        &&& doc is Object
        &&& field_holds(member(doc, "date"@), |j: Json, x: Timestamp| timestamp_value(j) == Ok::<Timestamp, DecodeError>(x), v.date)
        &&& opt_field_holds(member(doc, "time"@), |j: Json, x: TimeInterval| TimeInterval::read_from(j, x), v.time)
    }

    /// Whether every field of `doc` can be read: required fields are present,
    /// and every field that is there holds a value of its kind.
    pub open spec fn readable(doc: Json) -> bool {
        &&& doc is Object
        &&& match member(doc, "date"@) {
            Some(j) => timestamp_value(j) is Ok,
            None => false,
        }
        &&& match member(doc, "time"@) {
            Some(j) => j == Json::Null || TimeInterval::readable(j),
            None => true,
        }
    }

    /// Reads the value from a JSON object with camelCase keys. A missing or
    /// `null` optional field is unset; members it does not know are ignored.
    pub fn from_json(doc: &Json) -> (r: Result<FlexibleCustomerChoice, DecodeError>)
        ensures
            !(*doc is Object) ==> r == Err::<FlexibleCustomerChoice, DecodeError>(DecodeError::MalformedResponse),
            r matches Ok(v) ==> FlexibleCustomerChoice::read_from(*doc, v),
            r is Ok <==> FlexibleCustomerChoice::readable(*doc),
    {
        if !is_object(doc) {
            return Err(DecodeError::MalformedResponse);
        }
        let date = match get_member(doc, "date") {
            Some(j) => match read_timestamp(j) {
                Ok(v) => v,
                Err(e) => return Err(e),
            },
            None => return Err(DecodeError::MalformedResponse),
        };
        let time = match get_member(doc, "time") {
            None => None,
            Some(Json::Null) => None,
            Some(j) => match TimeInterval::from_json(j) {
                Ok(v) => Some(v),
                Err(e) => return Err(e),
            },
        };
        Ok(FlexibleCustomerChoice {
            date,
            time,
        })
    }
}

/// The delivery times a buyer can choose from.
#[derive(Clone, Debug, PartialEq)]
pub struct FlexibleTimeIntervals {
    pub time_intervals_type: TimeIntervalsType,
    pub grid: Option<FlexibleTimeIntervalsGridDescriptor>,
    pub values: Vec<TimeInterval>,
}

impl FlexibleTimeIntervals {
    /// `v` is what the JSON object `doc` says, field by field.
    pub open spec fn read_from(doc: Json, v: FlexibleTimeIntervals) -> bool {
        &&& doc is Object
        &&& field_holds(member(doc, "type"@), |j: Json, x: TimeIntervalsType| TimeIntervalsType::read_from(j, x), v.time_intervals_type)
        &&& opt_field_holds(member(doc, "grid"@), |j: Json, x: FlexibleTimeIntervalsGridDescriptor| FlexibleTimeIntervalsGridDescriptor::read_from(j, x), v.grid)
        &&& list_or_empty_holds(member(doc, "values"@), |j: Json, x: TimeInterval| TimeInterval::read_from(j, x), v.values@)
    }

    /// Whether every field of `doc` can be read: required fields are present,
    /// and every field that is there holds a value of its kind.
    pub open spec fn readable(doc: Json) -> bool {
        &&& doc is Object
        &&& match member(doc, "type"@) {
            Some(j) => TimeIntervalsType::readable(j),
            None => false,
        }
        &&& match member(doc, "grid"@) {
            Some(j) => j == Json::Null || FlexibleTimeIntervalsGridDescriptor::readable(j),
            None => true,
        }
        &&& match member(doc, "values"@) {
            Some(j) => TimeInterval::list_readable(j),
            None => true,
        }
    }

    /// Reads the value from a JSON object with camelCase keys. A missing or
    /// `null` optional field is unset; members it does not know are ignored.
    pub fn from_json(doc: &Json) -> (r: Result<FlexibleTimeIntervals, DecodeError>)
        ensures
            !(*doc is Object) ==> r == Err::<FlexibleTimeIntervals, DecodeError>(DecodeError::MalformedResponse),
            r matches Ok(v) ==> FlexibleTimeIntervals::read_from(*doc, v),
            r is Ok <==> FlexibleTimeIntervals::readable(*doc),
    {
        if !is_object(doc) {
            return Err(DecodeError::MalformedResponse);
        }
        let time_intervals_type = match get_member(doc, "type") {
            Some(j) => match TimeIntervalsType::from_json(j) {
                Ok(v) => v,
                Err(e) => return Err(e),
            },
            None => return Err(DecodeError::MalformedResponse),
        };
        let grid = match get_member(doc, "grid") {
            None => None,
            Some(Json::Null) => None,
            Some(j) => match FlexibleTimeIntervalsGridDescriptor::from_json(j) {
                Ok(v) => Some(v),
                Err(e) => return Err(e),
            },
        };
        let values = match get_member(doc, "values") {
            Some(j) => match TimeInterval::list_from_json(j) {
                Ok(v) => v,
                Err(e) => return Err(e),
            },
            None => Vec::new(),
        };
        Ok(FlexibleTimeIntervals {
            time_intervals_type,
            grid,
            values,
        })
    }
}

/// A span of time of day.
#[derive(Clone, Debug, PartialEq)]
pub struct TimeInterval {
    pub start: String,
    pub end: String,
}

impl TimeInterval {
    /// `v` is what the JSON object `doc` says, field by field.
    pub open spec fn read_from(doc: Json, v: TimeInterval) -> bool {
        &&& doc is Object
        &&& field_holds(member(doc, "start"@), |j: Json, x: String| string_value(j) == Ok::<String, DecodeError>(x), v.start)
        &&& field_holds(member(doc, "end"@), |j: Json, x: String| string_value(j) == Ok::<String, DecodeError>(x), v.end)
    }

    /// Whether every field of `doc` can be read: required fields are present,
    /// and every field that is there holds a value of its kind.
    pub open spec fn readable(doc: Json) -> bool {
        &&& doc is Object
        &&& match member(doc, "start"@) {
            Some(j) => string_value(j) is Ok,
            None => false,
        }
        &&& match member(doc, "end"@) {
            Some(j) => string_value(j) is Ok,
            None => false,
        }
    }

    /// Reads the value from a JSON object with camelCase keys. A missing or
    /// `null` optional field is unset; members it does not know are ignored.
    pub fn from_json(doc: &Json) -> (r: Result<TimeInterval, DecodeError>)
        ensures
            !(*doc is Object) ==> r == Err::<TimeInterval, DecodeError>(DecodeError::MalformedResponse),
            r matches Ok(v) ==> TimeInterval::read_from(*doc, v),
            r is Ok <==> TimeInterval::readable(*doc),
    {
        if !is_object(doc) {
            return Err(DecodeError::MalformedResponse);
        }
        let start = match get_member(doc, "start") {
            Some(j) => match read_string(j) {
                Ok(v) => v,
                Err(e) => return Err(e),
            },
            None => return Err(DecodeError::MalformedResponse),
        };
        let end = match get_member(doc, "end") {
            Some(j) => match read_string(j) {
                Ok(v) => v,
                Err(e) => return Err(e),
            },
            None => return Err(DecodeError::MalformedResponse),
        };
        Ok(TimeInterval {
            start,
            end,
        })
    }

    /// `vs` is what the JSON array `j` says, element by element.
    pub open spec fn list_read_from(j: Json, vs: Seq<TimeInterval>) -> bool {
        list_holds(Some(j), |e: Json, x: TimeInterval| TimeInterval::read_from(e, x), vs)
    }

    /// Whether the JSON value `j` is an array whose every element can be read.
    pub open spec fn list_readable(j: Json) -> bool {
        j matches Json::Array(a) && forall|i: int| 0 <= i < a@.len() ==> #[trigger] TimeInterval::readable(a@[i])
    }

    /// Reads a JSON array of values, failing on the first that cannot be read.
    pub fn list_from_json(j: &Json) -> (r: Result<Vec<TimeInterval>, DecodeError>)
        ensures
            !(*j is Array) ==> r == Err::<Vec<TimeInterval>, DecodeError>(DecodeError::MalformedResponse),
            r matches Ok(v) ==> TimeInterval::list_read_from(*j, v@),
            r is Ok <==> TimeInterval::list_readable(*j),
    {
        match j {
            Json::Array(a) => {
                let mut out: Vec<TimeInterval> = Vec::new();
                let mut i: usize = 0;
                while i < a.len()
                    invariant
                        i <= a.len(),
                        out@.len() == i,
                        *j == Json::Array(*a),
                        forall|k: int| 0 <= k < i ==> #[trigger] TimeInterval::read_from(a@[k], out@[k]),
                        forall|k: int| 0 <= k < i ==> #[trigger] TimeInterval::readable(a@[k]),
                    decreases a.len() - i,
                {
                    match TimeInterval::from_json(&a[i]) {
                        Ok(v) => out.push(v),
                        Err(e) => {
                            proof {
                                assert(!TimeInterval::readable(a@[i as int]));
                                assert(!TimeInterval::list_readable(*j)) by {
                                    if TimeInterval::list_readable(*j) {
                                        assert((*j)->Array_0 == *a);
                                        assert(TimeInterval::readable((*j)->Array_0@[i as int]));
                                    }
                                }
                            }
                            return Err(e);
                        },
                    }
                    i = i + 1;
                }
                Ok(out)
            },
            _ => Err(DecodeError::MalformedResponse),
        }
    }
}

/// Delivery times given as a regular grid.
#[derive(Clone, Debug, PartialEq)]
pub struct FlexibleTimeIntervalsGridDescriptor {
    pub duration: String,
    pub end: String,
    pub start: String,
    pub step: String,
}

impl FlexibleTimeIntervalsGridDescriptor {
    /// `v` is what the JSON object `doc` says, field by field.
    pub open spec fn read_from(doc: Json, v: FlexibleTimeIntervalsGridDescriptor) -> bool {
        &&& doc is Object
        &&& field_holds(member(doc, "duration"@), |j: Json, x: String| string_value(j) == Ok::<String, DecodeError>(x), v.duration)
        &&& field_holds(member(doc, "end"@), |j: Json, x: String| string_value(j) == Ok::<String, DecodeError>(x), v.end)
        &&& field_holds(member(doc, "start"@), |j: Json, x: String| string_value(j) == Ok::<String, DecodeError>(x), v.start)
        &&& field_holds(member(doc, "step"@), |j: Json, x: String| string_value(j) == Ok::<String, DecodeError>(x), v.step)
    }

    /// Whether every field of `doc` can be read: required fields are present,
    /// and every field that is there holds a value of its kind.
    pub open spec fn readable(doc: Json) -> bool {
        &&& doc is Object
        &&& match member(doc, "duration"@) {
            Some(j) => string_value(j) is Ok,
            None => false,
        }
        &&& match member(doc, "end"@) {
            Some(j) => string_value(j) is Ok,
            None => false,
        }
        &&& match member(doc, "start"@) {
            Some(j) => string_value(j) is Ok,
            None => false,
        }
        &&& match member(doc, "step"@) {
            Some(j) => string_value(j) is Ok,
            None => false,
        }
    }

    /// Reads the value from a JSON object with camelCase keys. A missing or
    /// `null` optional field is unset; members it does not know are ignored.
    pub fn from_json(doc: &Json) -> (r: Result<FlexibleTimeIntervalsGridDescriptor, DecodeError>)
        ensures
            !(*doc is Object) ==> r == Err::<FlexibleTimeIntervalsGridDescriptor, DecodeError>(DecodeError::MalformedResponse),
            r matches Ok(v) ==> FlexibleTimeIntervalsGridDescriptor::read_from(*doc, v),
            r is Ok <==> FlexibleTimeIntervalsGridDescriptor::readable(*doc),
    {
        if !is_object(doc) {
            return Err(DecodeError::MalformedResponse);
        }
        let duration = match get_member(doc, "duration") {
            Some(j) => match read_string(j) {
                Ok(v) => v,
                Err(e) => return Err(e),
            },
            None => return Err(DecodeError::MalformedResponse),
        };
        let end = match get_member(doc, "end") {
            Some(j) => match read_string(j) {
                Ok(v) => v,
                Err(e) => return Err(e),
            },
            None => return Err(DecodeError::MalformedResponse),
        };
        let start = match get_member(doc, "start") {
            Some(j) => match read_string(j) {
                Ok(v) => v,
                Err(e) => return Err(e),
            },
            None => return Err(DecodeError::MalformedResponse),
        };
        let step = match get_member(doc, "step") {
            Some(j) => match read_string(j) {
                Ok(v) => v,
                Err(e) => return Err(e),
            },
            None => return Err(DecodeError::MalformedResponse),
        };
        Ok(FlexibleTimeIntervalsGridDescriptor {
            duration,
            end,
            start,
            step,
        })
    }
}

/// How delivery times are given.
#[derive(Clone, Copy, Debug, PartialEq, Eq, Hash, Structural)]
pub enum TimeIntervalsType {
    Grid,
    Values,
}

impl TimeIntervalsType {
    /// The name of the value on the wire.
    pub open spec fn spec_wire_name(self) -> Seq<char> {
        match self {
            TimeIntervalsType::Grid => "GRID"@,
            TimeIntervalsType::Values => "VALUES"@,
        }
    }

    pub open spec fn spec_from_wire_name(s: Seq<char>) -> Option<TimeIntervalsType> {
        if s == "GRID"@ {
            Some(TimeIntervalsType::Grid)
        } else if s == "VALUES"@ {
            Some(TimeIntervalsType::Values)
        } else {
            None
        }
    }

    pub open spec fn spec_from_json(j: Json) -> Result<TimeIntervalsType, DecodeError> {
        match j {
            Json::Str(s) => match TimeIntervalsType::spec_from_wire_name(s@) {
                Some(v) => Ok(v),
                None => Err(DecodeError::MalformedResponse),
            },
            _ => Err(DecodeError::MalformedResponse),
        }
    }

    pub fn wire_name(&self) -> (r: &'static str)
        ensures
            r@ == self.spec_wire_name(),
    {
        match self {
            TimeIntervalsType::Grid => "GRID",
            TimeIntervalsType::Values => "VALUES",
        }
    }

    pub fn from_wire_name(s: &str) -> (r: Option<TimeIntervalsType>)
        ensures
            r == TimeIntervalsType::spec_from_wire_name(s@),
    {
        if same_text(s, "GRID") {
            Some(TimeIntervalsType::Grid)
        } else if same_text(s, "VALUES") {
            Some(TimeIntervalsType::Values)
        } else {
            None
        }
    }

    /// The value as a JSON string holding its wire name.
    pub fn to_json(&self) -> (r: Json)
        ensures
            r matches Json::Str(s) && s@ == self.spec_wire_name(),
            TimeIntervalsType::read_from(r, *self),
    {
        proof {
            reveal_strlit("GRID");
            reveal_strlit("VALUES");
            assert("GRID"@.len() == 4);
            assert("VALUES"@.len() == 6);
        }
        Json::Str(String::from_str(self.wire_name()))
    }

    pub fn from_json(j: &Json) -> (r: Result<TimeIntervalsType, DecodeError>)
        ensures
            r == TimeIntervalsType::spec_from_json(*j),
    {
        match j {
            Json::Str(s) => match TimeIntervalsType::from_wire_name(s.as_str()) {
                Some(v) => Ok(v),
                None => Err(DecodeError::MalformedResponse),
            },
            _ => Err(DecodeError::MalformedResponse),
        }
    }

    /// Whether the JSON value `j` names a value.
    pub open spec fn readable(j: Json) -> bool {
        TimeIntervalsType::spec_from_json(j) is Ok
    }

    /// `v` is what the JSON value `j` says.
    pub open spec fn read_from(j: Json, v: TimeIntervalsType) -> bool {
        TimeIntervalsType::spec_from_json(j) == Ok::<TimeIntervalsType, DecodeError>(v)
    }

    /// `j` is what [`Self::to_json`] writes for `v`.
    pub open spec fn writes_as(j: Json, v: TimeIntervalsType) -> bool {
        TimeIntervalsType::read_from(j, v)
    }
}

/// A point on the map.
#[derive(Clone, Debug, PartialEq)]
pub struct Location {
    pub latitude: Decimal,
    pub longitude: Decimal,
}

impl Location {
    /// `v` is what the JSON object `doc` says, field by field.
    pub open spec fn read_from(doc: Json, v: Location) -> bool {
        &&& doc is Object
        &&& field_holds(member(doc, "latitude"@), |j: Json, x: Decimal| decimal_number_value(j) == Ok::<Decimal, DecodeError>(x), v.latitude)
        &&& field_holds(member(doc, "longitude"@), |j: Json, x: Decimal| decimal_number_value(j) == Ok::<Decimal, DecodeError>(x), v.longitude)
    }

    /// Whether every field of `doc` can be read: required fields are present,
    /// and every field that is there holds a value of its kind.
    pub open spec fn readable(doc: Json) -> bool {
        &&& doc is Object
        &&& match member(doc, "latitude"@) {
            Some(j) => decimal_number_value(j) is Ok,
            None => false,
        }
        &&& match member(doc, "longitude"@) {
            Some(j) => decimal_number_value(j) is Ok,
            None => false,
        }
    }

    /// Reads the value from a JSON object with camelCase keys. A missing or
    /// `null` optional field is unset; members it does not know are ignored.
    pub fn from_json(doc: &Json) -> (r: Result<Location, DecodeError>)
        ensures
            !(*doc is Object) ==> r == Err::<Location, DecodeError>(DecodeError::MalformedResponse),
            r matches Ok(v) ==> Location::read_from(*doc, v),
            r is Ok <==> Location::readable(*doc),
    {
        if !is_object(doc) {
            return Err(DecodeError::MalformedResponse);
        }
        let latitude = match get_member(doc, "latitude") {
            Some(j) => match read_decimal_number(j) {
                Ok(v) => v,
                Err(e) => return Err(e),
            },
            None => return Err(DecodeError::MalformedResponse),
        };
        let longitude = match get_member(doc, "longitude") {
            Some(j) => match read_decimal_number(j) {
                Ok(v) => v,
                Err(e) => return Err(e),
            },
            None => return Err(DecodeError::MalformedResponse),
        };
        Ok(Location {
            latitude,
            longitude,
        })
    }
}

} // verus!
