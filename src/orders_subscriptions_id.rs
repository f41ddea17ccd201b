//! Reading a subscription.
use vstd::prelude::*;

use crate::decimal::DecodeError;
use crate::json::{Json, member, field_holds, opt_field_holds, string_value, bool_value, timestamp_value, read_string, read_bool, read_timestamp, push_field, is_object, get_member, same_text};
use crate::timestamp::Timestamp;

verus! {

/// The body of a request for a subscription.
#[derive(Clone, Debug, PartialEq)]
pub struct GetSubscriptionRequest {
    pub check_card_active: bool,
}

impl GetSubscriptionRequest {
    /// A value with the given fields and every other field at its default:
    /// the optional fields unset.
    pub fn new(check_card_active: bool) -> (r: GetSubscriptionRequest)
        ensures
            r.check_card_active == check_card_active,
    {
        GetSubscriptionRequest {
            check_card_active,
        }
    }

    /// `doc` is what [`Self::to_json`] writes for `v`: each field under its
    /// camelCase key, amounts as strings, nested values as they write
    /// themselves, no member at all for an unset optional field or an empty
    /// list that is left out, and no member under any other key.
    pub open spec fn writes_as(doc: Json, v: GetSubscriptionRequest) -> bool {
        &&& doc is Object
        &&& field_holds(member(doc, "checkCardActive"@), |j: Json, x: bool| bool_value(j) == Ok::<bool, DecodeError>(x), v.check_card_active)
        &&& forall|k: Seq<char>| #[trigger] member(doc, k) is Some ==> k == "checkCardActive"@
    }

    /// The value as a JSON object with camelCase keys. An unset optional field
    /// is left out, not written as `null`; reading the object back gives the
    /// same value.
    pub fn to_json(&self) -> (r: Json)
        ensures
            GetSubscriptionRequest::writes_as(r, *self),
            GetSubscriptionRequest::read_from(r, *self),
    {
        let mut ms: Vec<(String, Json)> = Vec::new();
        proof {
            reveal_strlit("checkCardActive");
            assert("checkCardActive"@.len() == 15);
        }
        push_field(&mut ms, "checkCardActive", Json::Bool(*&self.check_card_active));
        Json::Object(ms)
    }

    /// `v` is what the JSON object `doc` says, field by field.
    pub open spec fn read_from(doc: Json, v: GetSubscriptionRequest) -> bool {
        &&& doc is Object
        &&& field_holds(member(doc, "checkCardActive"@), |j: Json, x: bool| bool_value(j) == Ok::<bool, DecodeError>(x), v.check_card_active)
    }

    /// Whether every field of `doc` can be read: required fields are present,
    /// and every field that is there holds a value of its kind.
    pub open spec fn readable(doc: Json) -> bool {
        &&& doc is Object
        &&& match member(doc, "checkCardActive"@) {
            Some(j) => bool_value(j) is Ok,
            None => false,
        }
    }

    /// Reads the value from a JSON object with camelCase keys. A missing or
    /// `null` optional field is unset; members it does not know are ignored.
    pub fn from_json(doc: &Json) -> (r: Result<GetSubscriptionRequest, DecodeError>)
        ensures
            !(*doc is Object) ==> r == Err::<GetSubscriptionRequest, DecodeError>(DecodeError::MalformedResponse),
            r matches Ok(v) ==> GetSubscriptionRequest::read_from(*doc, v),
            r is Ok <==> GetSubscriptionRequest::readable(*doc),
    {
        if !is_object(doc) {
            return Err(DecodeError::MalformedResponse);
        }
        let check_card_active = match get_member(doc, "checkCardActive") {
            Some(j) => match read_bool(j) {
                Ok(v) => v,
                Err(e) => return Err(e),
            },
            None => return Err(DecodeError::MalformedResponse),
        };
        Ok(GetSubscriptionRequest {
            check_card_active,
        })
    }
}

/// What the gateway returns for a subscription.
#[derive(Clone, Debug, PartialEq)]
pub struct CustomerSubscriptionResponseData {
    pub status: SubscriptionStatus,
    pub subscription_plan_id: String,
    pub cancelled_at: Option<Timestamp>,
    pub customer_subscription_id: String,
    pub is_card_active: bool,
    pub next_write_off: Option<Timestamp>,
}

impl CustomerSubscriptionResponseData {
    /// `v` is what the JSON object `doc` says, field by field.
    pub open spec fn read_from(doc: Json, v: CustomerSubscriptionResponseData) -> bool {
        &&& doc is Object
        &&& field_holds(member(doc, "status"@), |j: Json, x: SubscriptionStatus| SubscriptionStatus::read_from(j, x), v.status)
        &&& field_holds(member(doc, "subscriptionPlanId"@), |j: Json, x: String| string_value(j) == Ok::<String, DecodeError>(x), v.subscription_plan_id)
        &&& opt_field_holds(member(doc, "cancelledAt"@), |j: Json, x: Timestamp| timestamp_value(j) == Ok::<Timestamp, DecodeError>(x), v.cancelled_at)
        &&& field_holds(member(doc, "customerSubscriptionId"@), |j: Json, x: String| string_value(j) == Ok::<String, DecodeError>(x), v.customer_subscription_id)
        &&& field_holds(member(doc, "isCardActive"@), |j: Json, x: bool| bool_value(j) == Ok::<bool, DecodeError>(x), v.is_card_active)
        &&& opt_field_holds(member(doc, "nextWriteOff"@), |j: Json, x: Timestamp| timestamp_value(j) == Ok::<Timestamp, DecodeError>(x), v.next_write_off)
    }

    /// Whether every field of `doc` can be read: required fields are present,
    /// and every field that is there holds a value of its kind.
    pub open spec fn readable(doc: Json) -> bool {
        &&& doc is Object
        &&& match member(doc, "status"@) {
            Some(j) => SubscriptionStatus::readable(j),
            None => false,
        }
        &&& match member(doc, "subscriptionPlanId"@) {
            Some(j) => string_value(j) is Ok,
            None => false,
        }
        &&& match member(doc, "cancelledAt"@) {
            Some(j) => j == Json::Null || timestamp_value(j) is Ok,
            None => true,
        }
        &&& match member(doc, "customerSubscriptionId"@) {
            Some(j) => string_value(j) is Ok,
            None => false,
        }
        &&& match member(doc, "isCardActive"@) {
            Some(j) => bool_value(j) is Ok,
            None => false,
        }
        &&& match member(doc, "nextWriteOff"@) {
            Some(j) => j == Json::Null || timestamp_value(j) is Ok,
            None => true,
        }
    }

    /// Reads the value from a JSON object with camelCase keys. A missing or
    /// `null` optional field is unset; members it does not know are ignored.
    pub fn from_json(doc: &Json) -> (r: Result<CustomerSubscriptionResponseData, DecodeError>)
        ensures
            !(*doc is Object) ==> r == Err::<CustomerSubscriptionResponseData, DecodeError>(DecodeError::MalformedResponse),
            r matches Ok(v) ==> CustomerSubscriptionResponseData::read_from(*doc, v),
            r is Ok <==> CustomerSubscriptionResponseData::readable(*doc),
    {
        if !is_object(doc) {
            return Err(DecodeError::MalformedResponse);
        }
        let status = match get_member(doc, "status") {
            Some(j) => match SubscriptionStatus::from_json(j) {
                Ok(v) => v,
                Err(e) => return Err(e),
            },
            None => return Err(DecodeError::MalformedResponse),
        };
        let subscription_plan_id = match get_member(doc, "subscriptionPlanId") {
            Some(j) => match read_string(j) {
                Ok(v) => v,
                Err(e) => return Err(e),
            },
            None => return Err(DecodeError::MalformedResponse),
        };
        let cancelled_at = match get_member(doc, "cancelledAt") {
            None => None,
            Some(Json::Null) => None,
            Some(j) => match read_timestamp(j) {
                Ok(v) => Some(v),
                Err(e) => return Err(e),
            },
        };
        let customer_subscription_id = match get_member(doc, "customerSubscriptionId") {
            Some(j) => match read_string(j) {
                Ok(v) => v,
                Err(e) => return Err(e),
            },
            None => return Err(DecodeError::MalformedResponse),
        };
        let is_card_active = match get_member(doc, "isCardActive") {
            Some(j) => match read_bool(j) {
                Ok(v) => v,
                Err(e) => return Err(e),
            },
            None => return Err(DecodeError::MalformedResponse),
        };
        let next_write_off = match get_member(doc, "nextWriteOff") {
            None => None,
            Some(Json::Null) => None,
            Some(j) => match read_timestamp(j) {
                Ok(v) => Some(v),
                Err(e) => return Err(e),
            },
        };
        Ok(CustomerSubscriptionResponseData {
            status,
            subscription_plan_id,
            cancelled_at,
            customer_subscription_id,
            is_card_active,
            next_write_off,
        })
    }
}

/// Where a subscription stands.
#[derive(Clone, Copy, Debug, PartialEq, Eq, Hash, Structural)]
pub enum SubscriptionStatus {
    New,
    Active,
    Cancelled,
    Expired,
}

impl SubscriptionStatus {
    /// The name of the value on the wire.
    pub open spec fn spec_wire_name(self) -> Seq<char> {
        match self {
            SubscriptionStatus::New => "NEW"@,
            SubscriptionStatus::Active => "ACTIVE"@,
            SubscriptionStatus::Cancelled => "CANCELLED"@,
            SubscriptionStatus::Expired => "EXPIRED"@,
        }
    }

    pub open spec fn spec_from_wire_name(s: Seq<char>) -> Option<SubscriptionStatus> {
        if s == "NEW"@ {
            Some(SubscriptionStatus::New)
        } else if s == "ACTIVE"@ {
            Some(SubscriptionStatus::Active)
        } else if s == "CANCELLED"@ {
            Some(SubscriptionStatus::Cancelled)
        } else if s == "EXPIRED"@ {
            Some(SubscriptionStatus::Expired)
        } else {
            None
        }
    }

    pub open spec fn spec_from_json(j: Json) -> Result<SubscriptionStatus, DecodeError> {
        match j {
            Json::Str(s) => match SubscriptionStatus::spec_from_wire_name(s@) {
                Some(v) => Ok(v),
                None => Err(DecodeError::MalformedResponse),
            },
            _ => Err(DecodeError::MalformedResponse),
        }
    }

    pub fn wire_name(&self) -> (r: &'static str)
        ensures
            r@ == self.spec_wire_name(),
    {
        match self {
            SubscriptionStatus::New => "NEW",
            SubscriptionStatus::Active => "ACTIVE",
            SubscriptionStatus::Cancelled => "CANCELLED",
            SubscriptionStatus::Expired => "EXPIRED",
        }
    }

    pub fn from_wire_name(s: &str) -> (r: Option<SubscriptionStatus>)
        ensures
            r == SubscriptionStatus::spec_from_wire_name(s@),
    {
        if same_text(s, "NEW") {
            Some(SubscriptionStatus::New)
        } else if same_text(s, "ACTIVE") {
            Some(SubscriptionStatus::Active)
        } else if same_text(s, "CANCELLED") {
            Some(SubscriptionStatus::Cancelled)
        } else if same_text(s, "EXPIRED") {
            Some(SubscriptionStatus::Expired)
        } else {
            None
        }
    }

    /// The value as a JSON string holding its wire name.
    pub fn to_json(&self) -> (r: Json)
        ensures
            r matches Json::Str(s) && s@ == self.spec_wire_name(),
            SubscriptionStatus::read_from(r, *self),
    {
        proof {
            reveal_strlit("NEW");
            reveal_strlit("ACTIVE");
            reveal_strlit("CANCELLED");
            reveal_strlit("EXPIRED");
            assert("NEW"@.len() == 3);
            assert("ACTIVE"@.len() == 6);
            assert("CANCELLED"@.len() == 9);
            assert("EXPIRED"@.len() == 7);
        }
        Json::Str(String::from_str(self.wire_name()))
    }

    pub fn from_json(j: &Json) -> (r: Result<SubscriptionStatus, DecodeError>)
        ensures
            r == SubscriptionStatus::spec_from_json(*j),
    {
        match j {
            Json::Str(s) => match SubscriptionStatus::from_wire_name(s.as_str()) {
                Some(v) => Ok(v),
                None => Err(DecodeError::MalformedResponse),
            },
            _ => Err(DecodeError::MalformedResponse),
        }
    }

    /// Whether the JSON value `j` names a value.
    pub open spec fn readable(j: Json) -> bool {
        SubscriptionStatus::spec_from_json(j) is Ok
    }

    /// `v` is what the JSON value `j` says.
    pub open spec fn read_from(j: Json, v: SubscriptionStatus) -> bool {
        SubscriptionStatus::spec_from_json(j) == Ok::<SubscriptionStatus, DecodeError>(v)
    }

    /// `j` is what [`Self::to_json`] writes for `v`.
    pub open spec fn writes_as(j: Json, v: SubscriptionStatus) -> bool {
        SubscriptionStatus::read_from(j, v)
    }
}

} // verus!
