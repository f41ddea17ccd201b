//! Cancelling a payment, and the operation the gateway returns for it.
use vstd::prelude::*;

use crate::decimal::{Decimal, DecodeError};
use crate::json::{Json, member, field_holds, opt_field_holds, is_null_or_absent, string_value, decimal_number_value, timestamp_value, read_string, read_decimal_number, read_timestamp, string_json, json_text, push_field, push_optional, is_object, get_member, write_document};
use crate::orders_id::{OperationStatus, OperationType};
use crate::timestamp::Timestamp;

verus! {

/// The body of a request that cancels an authorized payment.
#[derive(Clone, Debug, PartialEq)]
pub struct CancelOrderRequest {
    pub reason: String,
    pub external_operation_id: Option<String>,
}

impl CancelOrderRequest {
    /// A value with the given fields and every other field at its default:
    /// the optional fields unset.
    pub fn new(reason: String) -> (r: CancelOrderRequest)
        ensures
            r.reason == reason,
            r.external_operation_id is None,
    {
        CancelOrderRequest {
            reason,
            external_operation_id: None,
        }
    }

    /// `doc` is what [`Self::to_json`] writes for `v`: each field under its
    /// camelCase key, amounts as strings, nested values as they write
    /// themselves, no member at all for an unset optional field or an empty
    /// list that is left out, and no member under any other key.
    pub open spec fn writes_as(doc: Json, v: CancelOrderRequest) -> bool {
        &&& doc is Object
        &&& field_holds(member(doc, "reason"@), |j: Json, x: String| string_value(j) == Ok::<String, DecodeError>(x), v.reason)
        &&& match v.external_operation_id {
            None => member(doc, "externalOperationId"@) is None,
            Some(w) => field_holds(member(doc, "externalOperationId"@), |j: Json, x: String| string_value(j) == Ok::<String, DecodeError>(x), w),
        }
        &&& forall|k: Seq<char>| #[trigger] member(doc, k) is Some ==> k == "reason"@ || k == "externalOperationId"@
    }

    /// The value as a JSON object with camelCase keys. An unset optional field
    /// is left out, not written as `null`; reading the object back gives the
    /// same value.
    pub fn to_json(&self) -> (r: Json)
        ensures
            CancelOrderRequest::writes_as(r, *self),
            CancelOrderRequest::read_from(r, *self),
    {
        let mut ms: Vec<(String, Json)> = Vec::new();
        proof {
            reveal_strlit("reason");
            reveal_strlit("externalOperationId");
            assert("reason"@.len() == 6);
            assert("externalOperationId"@.len() == 19);
        }
        push_field(&mut ms, "reason", string_json(&self.reason));
        push_optional(&mut ms, "externalOperationId", match &self.external_operation_id {
            Some(x) => Some(string_json(x)),
            None => None,
        });
        Json::Object(ms)
    }

    /// `v` is what the JSON object `doc` says, field by field.
    pub open spec fn read_from(doc: Json, v: CancelOrderRequest) -> bool {
        &&& doc is Object
        &&& field_holds(member(doc, "reason"@), |j: Json, x: String| string_value(j) == Ok::<String, DecodeError>(x), v.reason)
        &&& opt_field_holds(member(doc, "externalOperationId"@), |j: Json, x: String| string_value(j) == Ok::<String, DecodeError>(x), v.external_operation_id)
    }

    /// Whether every field of `doc` can be read: required fields are present,
    /// and every field that is there holds a value of its kind.
    pub open spec fn readable(doc: Json) -> bool {
        &&& doc is Object
        &&& match member(doc, "reason"@) {
            Some(j) => string_value(j) is Ok,
            None => false,
        }
        &&& match member(doc, "externalOperationId"@) {
            Some(j) => j == Json::Null || string_value(j) is Ok,
            None => true,
        }
    }

    /// Reads the value from a JSON object with camelCase keys. A missing or
    /// `null` optional field is unset; members it does not know are ignored.
    pub fn from_json(doc: &Json) -> (r: Result<CancelOrderRequest, DecodeError>)
        ensures
            !(*doc is Object) ==> r == Err::<CancelOrderRequest, DecodeError>(DecodeError::MalformedResponse),
            r matches Ok(v) ==> CancelOrderRequest::read_from(*doc, v),
            r is Ok <==> CancelOrderRequest::readable(*doc),
    {
        if !is_object(doc) {
            return Err(DecodeError::MalformedResponse);
        }
        let reason = match get_member(doc, "reason") {
            Some(j) => match read_string(j) {
                Ok(v) => v,
                Err(e) => return Err(e),
            },
            None => return Err(DecodeError::MalformedResponse),
        };
        let external_operation_id = match get_member(doc, "externalOperationId") {
            None => None,
            Some(Json::Null) => None,
            Some(j) => match read_string(j) {
                Ok(v) => Some(v),
                Err(e) => return Err(e),
            },
        };
        Ok(CancelOrderRequest {
            reason,
            external_operation_id,
        })
    }
}

/// What the gateway returns for an operation on an order.
#[derive(Clone, Debug, PartialEq)]
pub struct OperationResponseData {
    pub operation: Operation,
}

impl OperationResponseData {
    /// `v` is what the JSON object `doc` says, field by field.
    pub open spec fn read_from(doc: Json, v: OperationResponseData) -> bool {
        &&& doc is Object
        &&& field_holds(member(doc, "operation"@), |j: Json, x: Operation| Operation::read_from(j, x), v.operation)
    }

    /// Whether every field of `doc` can be read: required fields are present,
    /// and every field that is there holds a value of its kind.
    pub open spec fn readable(doc: Json) -> bool {
        &&& doc is Object
        &&& match member(doc, "operation"@) {
            Some(j) => Operation::readable(j),
            None => false,
        }
    }

    /// Reads the value from a JSON object with camelCase keys. A missing or
    /// `null` optional field is unset; members it does not know are ignored.
    pub fn from_json(doc: &Json) -> (r: Result<OperationResponseData, DecodeError>)
        ensures
            !(*doc is Object) ==> r == Err::<OperationResponseData, DecodeError>(DecodeError::MalformedResponse),
            r matches Ok(v) ==> OperationResponseData::read_from(*doc, v),
            r is Ok <==> OperationResponseData::readable(*doc),
    {
        if !is_object(doc) {
            return Err(DecodeError::MalformedResponse);
        }
        let operation = match get_member(doc, "operation") {
            Some(j) => match Operation::from_json(j) {
                Ok(v) => v,
                Err(e) => return Err(e),
            },
            None => return Err(DecodeError::MalformedResponse),
        };
        Ok(OperationResponseData {
            operation,
        })
    }
}

/// An operation on an order.
#[derive(Clone, Debug, PartialEq)]
pub struct Operation {
    pub amount: Decimal,
    pub operation_id: String,
    pub operation_type: OperationType,
    pub order_id: String,
    pub created: Option<Timestamp>,
    pub external_operation_id: Option<String>,
    /// The parameters of the operation, as JSON text.
    pub params: Option<String>,
    pub reason: Option<String>,
    pub status: OperationStatus,
    pub updated: Option<Timestamp>,
}

impl Operation {
    /// `v` is what the JSON object `doc` says, field by field.
    pub open spec fn read_from(doc: Json, v: Operation) -> bool {
        &&& doc is Object
        &&& field_holds(member(doc, "amount"@), |j: Json, x: Decimal| decimal_number_value(j) == Ok::<Decimal, DecodeError>(x), v.amount)
        &&& field_holds(member(doc, "operationId"@), |j: Json, x: String| string_value(j) == Ok::<String, DecodeError>(x), v.operation_id)
        &&& field_holds(member(doc, "operationType"@), |j: Json, x: OperationType| OperationType::read_from(j, x), v.operation_type)
        &&& field_holds(member(doc, "orderId"@), |j: Json, x: String| string_value(j) == Ok::<String, DecodeError>(x), v.order_id)
        &&& opt_field_holds(member(doc, "created"@), |j: Json, x: Timestamp| timestamp_value(j) == Ok::<Timestamp, DecodeError>(x), v.created)
        &&& opt_field_holds(member(doc, "externalOperationId"@), |j: Json, x: String| string_value(j) == Ok::<String, DecodeError>(x), v.external_operation_id)
        &&& match v.params {
            None => is_null_or_absent(member(doc, "params"@)),
            Some(p) => member(doc, "params"@) matches Some(j) && j != Json::Null && p@ == json_text(j),
        }
        &&& opt_field_holds(member(doc, "reason"@), |j: Json, x: String| string_value(j) == Ok::<String, DecodeError>(x), v.reason)
        &&& field_holds(member(doc, "status"@), |j: Json, x: OperationStatus| OperationStatus::read_from(j, x), v.status)
        &&& opt_field_holds(member(doc, "updated"@), |j: Json, x: Timestamp| timestamp_value(j) == Ok::<Timestamp, DecodeError>(x), v.updated)
    }

    /// Whether every field of `doc` can be read: required fields are present,
    /// and every field that is there holds a value of its kind.
    pub open spec fn readable(doc: Json) -> bool {
        &&& doc is Object
        &&& match member(doc, "amount"@) {
            Some(j) => decimal_number_value(j) is Ok,
            None => false,
        }
        &&& match member(doc, "operationId"@) {
            Some(j) => string_value(j) is Ok,
            None => false,
        }
        &&& match member(doc, "operationType"@) {
            Some(j) => OperationType::readable(j),
            None => false,
        }
        &&& match member(doc, "orderId"@) {
            Some(j) => string_value(j) is Ok,
            None => false,
        }
        &&& match member(doc, "created"@) {
            Some(j) => j == Json::Null || timestamp_value(j) is Ok,
            None => true,
        }
        &&& match member(doc, "externalOperationId"@) {
            Some(j) => j == Json::Null || string_value(j) is Ok,
            None => true,
        }
        &&& match member(doc, "reason"@) {
            Some(j) => j == Json::Null || string_value(j) is Ok,
            None => true,
        }
        &&& match member(doc, "status"@) {
            Some(j) => OperationStatus::readable(j),
            None => false,
        }
        &&& match member(doc, "updated"@) {
            Some(j) => j == Json::Null || timestamp_value(j) is Ok,
            None => true,
        }
    }

    /// Reads the value from a JSON object with camelCase keys. A missing or
    /// `null` optional field is unset; members it does not know are ignored.
    #[verifier::rlimit(40)]
    pub fn from_json(doc: &Json) -> (r: Result<Operation, DecodeError>)
        ensures
            !(*doc is Object) ==> r == Err::<Operation, DecodeError>(DecodeError::MalformedResponse),
            r matches Ok(v) ==> Operation::read_from(*doc, v),
            r is Ok <==> Operation::readable(*doc),
    {
        if !is_object(doc) {
            return Err(DecodeError::MalformedResponse);
        }
        let amount = match get_member(doc, "amount") {
            Some(j) => match read_decimal_number(j) {
                Ok(v) => v,
                Err(e) => return Err(e),
            },
            None => return Err(DecodeError::MalformedResponse),
        };
        let operation_id = match get_member(doc, "operationId") {
            Some(j) => match read_string(j) {
                Ok(v) => v,
                Err(e) => return Err(e),
            },
            None => return Err(DecodeError::MalformedResponse),
        };
        let operation_type = match get_member(doc, "operationType") {
            Some(j) => match OperationType::from_json(j) {
                Ok(v) => v,
                Err(e) => return Err(e),
            },
            None => return Err(DecodeError::MalformedResponse),
        };
        let order_id = match get_member(doc, "orderId") {
            Some(j) => match read_string(j) {
                Ok(v) => v,
                Err(e) => return Err(e),
            },
            None => return Err(DecodeError::MalformedResponse),
        };
        let created = match get_member(doc, "created") {
            None => None,
            Some(Json::Null) => None,
            Some(j) => match read_timestamp(j) {
                Ok(v) => Some(v),
                Err(e) => return Err(e),
            },
        };
        let external_operation_id = match get_member(doc, "externalOperationId") {
            None => None,
            Some(Json::Null) => None,
            Some(j) => match read_string(j) {
                Ok(v) => Some(v),
                Err(e) => return Err(e),
            },
        };
        let params = match get_member(doc, "params") {
            None => None,
            Some(Json::Null) => None,
            Some(j) => Some(write_document(j)),
        };
        let reason = match get_member(doc, "reason") {
            None => None,
            Some(Json::Null) => None,
            Some(j) => match read_string(j) {
                Ok(v) => Some(v),
                Err(e) => return Err(e),
            },
        };
        let status = match get_member(doc, "status") {
            Some(j) => match OperationStatus::from_json(j) {
                Ok(v) => v,
                Err(e) => return Err(e),
            },
            None => return Err(DecodeError::MalformedResponse),
        };
        let updated = match get_member(doc, "updated") {
            None => None,
            Some(Json::Null) => None,
            Some(j) => match read_timestamp(j) {
                Ok(v) => Some(v),
                Err(e) => return Err(e),
            },
        };
        Ok(Operation {
            amount,
            operation_id,
            operation_type,
            order_id,
            created,
            external_operation_id,
            params,
            reason,
            status,
            updated,
        })
    }
}

} // verus!
