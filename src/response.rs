//! Unwrapping the gateway's answer. A transport reports whether the call
//! succeeded (an HTTP status in the success class) and the body it got.
//! Success bodies are `{"data": ..., "code": ..., "status": ...}`; failure
//! bodies are `{"code": ..., "status": ..., "message": ...}`. Which shape is
//! read depends on the success flag alone, never on the body.
use vstd::prelude::*;

use crate::decimal::DecodeError;
use crate::json::{
    get_member, is_null_or_absent, is_object, json_reading, member, opt_field_is, read_document, read_string, read_u32,
    string_value, take_member, u32_value, Json,
};

verus! {

/// A success body: the payload and the gateway's diagnostic code and status.
#[derive(Clone, Debug, PartialEq)]
pub struct YandexPayApiResponse<T> {
    pub data: T,
    pub code: Option<u32>,
    pub status: Option<String>,
}

/// A failure body: the gateway's code, status and message. A missing message
/// is read as the empty string.
#[derive(Clone, Debug, PartialEq)]
pub struct YandexPayApiResponseError {
    pub code: Option<u32>,
    pub status: Option<String>,
    pub message: String,
}

/// Why a call did not give its payload.
#[derive(Clone, Debug, PartialEq)]
pub enum YandexPayApiError {
    /// The transport could not complete the exchange; the text says why.
    Transport(String),
    /// A body, or a field in it, could not be read.
    Decode(DecodeError),
    /// The gateway answered with a well-formed failure body.
    Api(YandexPayApiResponseError),
}

/// Whether an optional field is absent, `null`, or readable by `read`.
pub open spec fn opt_readable<T>(m: Option<Json>, read: spec_fn(Json) -> Result<T, DecodeError>) -> bool {
    is_null_or_absent(m) || (m matches Some(j) && read(j) is Ok)
}

/// Whether `doc` has the shape of a success body.
pub open spec fn is_success_envelope(doc: Json) -> bool {
    &&& doc is Object
    &&& member(doc, "data"@) is Some
    &&& opt_readable(member(doc, "code"@), |j: Json| u32_value(j))
    &&& opt_readable(member(doc, "status"@), |j: Json| string_value(j))
}

/// Whether `doc` has the shape of a failure body.
pub open spec fn is_error_envelope(doc: Json) -> bool {
    &&& doc is Object
    &&& opt_readable(member(doc, "code"@), |j: Json| u32_value(j))
    &&& opt_readable(member(doc, "status"@), |j: Json| string_value(j))
    &&& member(doc, "message"@) is None || member(doc, "message"@) matches Some(Json::Str(_))
}

/// `e` is what the failure body `doc` says.
pub open spec fn error_envelope_says(doc: Json, e: YandexPayApiResponseError) -> bool {
    &&& opt_field_is(member(doc, "code"@), |j: Json| u32_value(j), e.code)
    &&& opt_field_is(member(doc, "status"@), |j: Json| string_value(j), e.status)
    &&& match member(doc, "message"@) {
        None => e.message@ == Seq::<char>::empty(),
        Some(j) => j == Json::Str(e.message),
    }
}

fn read_optional_u32(doc: &Json, key: &str) -> (r: Result<Option<u32>, DecodeError>)
    ensures
        r is Ok <==> opt_readable(member(*doc, key@), |j: Json| u32_value(j)),
        r matches Ok(v) ==> opt_field_is(member(*doc, key@), |j: Json| u32_value(j), v),
        r matches Err(e) ==> e == DecodeError::MalformedResponse,
{
    match get_member(doc, key) {
        None => Ok(None),
        Some(Json::Null) => Ok(None),
        Some(j) => match read_u32(j) {
            Ok(v) => Ok(Some(v)),
            Err(_) => Err(DecodeError::MalformedResponse),
        },
    }
}

fn read_optional_string(doc: &Json, key: &str) -> (r: Result<Option<String>, DecodeError>)
    ensures
        r is Ok <==> opt_readable(member(*doc, key@), |j: Json| string_value(j)),
        r matches Ok(v) ==> opt_field_is(member(*doc, key@), |j: Json| string_value(j), v),
        r matches Err(e) ==> e == DecodeError::MalformedResponse,
{
    match get_member(doc, key) {
        None => Ok(None),
        Some(Json::Null) => Ok(None),
        Some(j) => match read_string(j) {
            Ok(v) => Ok(Some(v)),
            Err(_) => Err(DecodeError::MalformedResponse),
        },
    }
}

/// Reads a failure body.
pub fn read_error_envelope(doc: &Json) -> (r: Result<YandexPayApiResponseError, DecodeError>)
    ensures
        r is Ok <==> is_error_envelope(*doc),
        r matches Ok(e) ==> error_envelope_says(*doc, e),
        r matches Err(e) ==> e == DecodeError::MalformedResponse,
{
    if !is_object(doc) {
        return Err(DecodeError::MalformedResponse);
    }
    let code = match read_optional_u32(doc, "code") {
        Ok(c) => c,
        Err(e) => return Err(e),
    };
    let status = match read_optional_string(doc, "status") {
        Ok(s) => s,
        Err(e) => return Err(e),
    };
    let message = match get_member(doc, "message") {
        None => String::new(),
        Some(Json::Str(m)) => m.clone(),
        Some(_) => return Err(DecodeError::MalformedResponse),
    };
    Ok(YandexPayApiResponseError { code, status, message })
}

/// Reads a success body, taking its payload out of it.
pub fn read_success_envelope(doc: Json) -> (r: Result<YandexPayApiResponse<Json>, DecodeError>)
    ensures
        r is Ok <==> is_success_envelope(doc),
        r matches Ok(v) ==> {
            &&& member(doc, "data"@) == Some(v.data)
            &&& opt_field_is(member(doc, "code"@), |j: Json| u32_value(j), v.code)
            &&& opt_field_is(member(doc, "status"@), |j: Json| string_value(j), v.status)
        },
        r matches Err(e) ==> e == DecodeError::MalformedResponse,
{
    if !is_object(&doc) {
        return Err(DecodeError::MalformedResponse);
    }
    let code = match read_optional_u32(&doc, "code") {
        Ok(c) => c,
        Err(e) => return Err(e),
    };
    let status = match read_optional_string(&doc, "status") {
        Ok(s) => s,
        Err(e) => return Err(e),
    };
    match take_member(doc, "data") {
        Some(data) => Ok(YandexPayApiResponse { data, code, status }),
        None => Err(DecodeError::MalformedResponse),
    }
}

/// What [`decode_response`] gives for a transport outcome, when it gives a payload.
pub open spec fn decoded_payload(success: bool, body: Seq<char>) -> Option<Json> {
    match json_reading(body) {
        Some(doc) => if success && is_success_envelope(doc) {
            member(doc, "data"@)
        } else {
            None
        },
        None => None,
    }
}

/// `e` is the error that [`decode_response`] gives for a transport outcome
/// without a payload.
pub open spec fn envelope_error(success: bool, body: Seq<char>, e: YandexPayApiError) -> bool {
    match json_reading(body) {
        None => e == YandexPayApiError::Decode(DecodeError::MalformedResponse),
        Some(doc) => if success {
            !is_success_envelope(doc) && e == YandexPayApiError::Decode(DecodeError::MalformedResponse)
        } else if is_error_envelope(doc) {
            e matches YandexPayApiError::Api(x) && error_envelope_says(doc, x)
        } else {
            e == YandexPayApiError::Decode(DecodeError::MalformedResponse)
        },
    }
}

/// Unwraps a transport outcome into the payload of a success body, or an error.
///
/// With `success`, the body must be a success body and its `data` is
/// returned. Without it, a failure body gives `Api` with what it says.
/// A body that is not JSON, or not of the shape the flag calls for, gives
/// `Decode(MalformedResponse)`.
pub fn decode_response(success: bool, body: &str) -> (r: Result<Json, YandexPayApiError>)
    ensures
        match json_reading(body@) {
            None => r == Err::<Json, YandexPayApiError>(YandexPayApiError::Decode(DecodeError::MalformedResponse)),
            Some(doc) => if success {
                if is_success_envelope(doc) {
                    r matches Ok(data) && member(doc, "data"@) == Some(data)
                } else {
                    r == Err::<Json, YandexPayApiError>(YandexPayApiError::Decode(DecodeError::MalformedResponse))
                }
            } else {
                if is_error_envelope(doc) {
                    r matches Err(YandexPayApiError::Api(e)) && error_envelope_says(doc, e)
                } else {
                    r == Err::<Json, YandexPayApiError>(YandexPayApiError::Decode(DecodeError::MalformedResponse))
                }
            },
        },
        r matches Ok(data) ==> decoded_payload(success, body@) == Some(data),
        r matches Err(e) ==> decoded_payload(success, body@) is None && envelope_error(success, body@, e),
        r is Ok <==> decoded_payload(success, body@) is Some,
{
    let doc = match read_document(body) {
        Some(d) => d,
        None => return Err(YandexPayApiError::Decode(DecodeError::MalformedResponse)),
    };
    if success {
        match read_success_envelope(doc) {
            Ok(envelope) => Ok(envelope.data),
            Err(e) => Err(YandexPayApiError::Decode(e)),
        }
    } else {
        match read_error_envelope(&doc) {
            Ok(e) => Err(YandexPayApiError::Api(e)),
            Err(e) => Err(YandexPayApiError::Decode(e)),
        }
    }
}

} // verus!
