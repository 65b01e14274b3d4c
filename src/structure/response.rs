//! The envelope of a response: the payload asked for, or the error that
//! the API reported.

use crate::json::{
    as_text, copy_value, is_null, is_object, json_is_null, json_is_object, json_member, json_parse,
    json_text, member, parse_json,
};
use crate::openai::RequestError;
use crate::structure::models::{entry_of, entry_ok, listing_of, listing_ok, ModelEntry, Models};
use vstd::prelude::*;
use vstd::string::*;

verus! {

/// A decoded response body: the payload, or the error the API reported.
#[derive(Debug)]
pub enum Response<T> {
    Success(T),
    Error(OuterErrorResponse),
}

/// The body of an error response: `{"error": {...}}`.
#[derive(Debug)]
pub struct OuterErrorResponse {
    pub error: ErrorResponse,
}

/// What the API says of an error. Each part may be missing.
#[derive(Debug)]
pub struct ErrorResponse {
    pub code: Option<serde_json::Value>,
    pub message: Option<String>,
    pub param: Option<serde_json::Value>,
    pub type_: Option<String>,
}

/// The outcome of a request: the decoded body, or why there is none.
pub type RespResult<T, E> = Result<Response<T>, E>;

/// The member under `k`, where it is there and not `null`.
pub open spec fn present_member(v: serde_json::Value, k: Seq<char>) -> Option<serde_json::Value> {
    match json_member(v, k) {
        Some(m) => if json_is_null(m) {
            None
        } else {
            Some(m)
        },
        None => None,
    }
}

/// The member under `k` is missing, `null` or a string.
pub open spec fn optional_text_ok(v: serde_json::Value, k: Seq<char>) -> bool {
    match present_member(v, k) {
        Some(m) => json_text(m) is Some,
        None => true,
    }
}

/// The text of the member under `k`, where it is a string.
pub open spec fn optional_text(v: serde_json::Value, k: Seq<char>) -> Option<Seq<char>> {
    match present_member(v, k) {
        Some(m) => json_text(m),
        None => None,
    }
}

pub open spec fn string_opt_view(s: Option<String>) -> Option<Seq<char>> {
    match s {
        Some(t) => Some(t@),
        None => None,
    }
}

/// A value that reads as an error: an object whose `message` and `type`
/// are each missing, `null` or a string.
pub open spec fn error_ok(v: serde_json::Value) -> bool {
    &&& json_is_object(v)
    &&& optional_text_ok(v, "message"@)
    &&& optional_text_ok(v, "type"@)
}

/// `e` is the error that `v` reads as: a missing or `null` part is `None`.
pub open spec fn error_of(v: serde_json::Value, e: ErrorResponse) -> bool {
    &&& error_ok(v)
    &&& e.code == present_member(v, "code"@)
    &&& e.param == present_member(v, "param"@)
    &&& string_opt_view(e.message) == optional_text(v, "message"@)
    &&& string_opt_view(e.type_) == optional_text(v, "type"@)
}

/// A value that reads as an error body: an object whose `error` reads as
/// an error.
pub open spec fn outer_ok(v: serde_json::Value) -> bool {
    &&& json_is_object(v)
    &&& json_member(v, "error"@) is Some
    &&& error_ok(json_member(v, "error"@)->Some_0)
}

pub open spec fn outer_of(v: serde_json::Value, o: OuterErrorResponse) -> bool {
    outer_ok(v) && error_of(json_member(v, "error"@)->Some_0, o.error)
}

/// The member under `key` where it is there and not `null`.
fn present_field(v: &serde_json::Value, key: &str) -> (r: Option<serde_json::Value>)
    ensures
        r == present_member(*v, key@),
{
    match member(v, key) {
        Some(m) => if is_null(m) {
            None
        } else {
            Some(copy_value(m))
        },
        None => None,
    }
}

/// The member under `key` read as optional text: `Ok(None)` where it is
/// missing or `null`, `Err` where it is there and not a string.
fn optional_text_field(v: &serde_json::Value, key: &str) -> (r: Result<Option<String>, ()>)
    ensures
        r is Ok <==> optional_text_ok(*v, key@),
        r is Ok ==> string_opt_view(r->Ok_0) == optional_text(*v, key@),
{
    match member(v, key) {
        Some(m) => if is_null(m) {
            Ok(None)
        } else {
            match as_text(m) {
                Some(t) => Ok(Some(String::from_str(t))),
                None => Err(()),
            }
        },
        None => Ok(None),
    }
}

impl ErrorResponse {
    /// Reads an error from a JSON value; `None` where the value is not an
    /// object or its `message` or `type` is neither `null` nor a string.
    pub fn from_value(v: &serde_json::Value) -> (r: Option<ErrorResponse>)
        ensures
            r is Some <==> error_ok(*v),
            r is Some ==> error_of(*v, r->Some_0),
    {
        if !is_object(v) {
            return None;
        }
        let message = match optional_text_field(v, "message") {
            Ok(m) => m,
            Err(()) => {
                return None;
            },
        };
        let type_ = match optional_text_field(v, "type") {
            Ok(t) => t,
            Err(()) => {
                return None;
            },
        };
        let code = present_field(v, "code");
        let param = present_field(v, "param");
        Some(ErrorResponse { code, message, param, type_ })
    }
}

impl OuterErrorResponse {
    /// Reads an error body `{"error": {...}}` from a JSON value.
    pub fn from_value(v: &serde_json::Value) -> (r: Option<OuterErrorResponse>)
        ensures
            r is Some <==> outer_ok(*v),
            r is Some ==> outer_of(*v, r->Some_0),
    {
        if !is_object(v) {
            return None;
        }
        match member(v, "error") {
            Some(e) => match ErrorResponse::from_value(e) {
                Some(error) => Some(OuterErrorResponse { error }),
                None => None,
            },
            None => None,
        }
    }
}

/// Decodes the body of a models listing.
///
/// The body is read as a listing first, and only where that fails as an
/// error body. Fails with `Json` where the body is not JSON, and with
/// `Shape` where it is JSON of neither shape.
pub fn decode_models(body: &[u8]) -> (r: RespResult<Models, RequestError>)
    ensures
        r matches Err(RequestError::Json(_)) <==> json_parse(body@) is None,
        r matches Err(RequestError::Shape) <==> (json_parse(body@) is Some && !listing_ok(json_parse(body@)->Some_0)
            && !outer_ok(json_parse(body@)->Some_0)),
        r is Err ==> r matches Err(RequestError::Json(_)) || r matches Err(RequestError::Shape),
        r matches Ok(Response::Success(m)) ==> listing_of(json_parse(body@)->Some_0, m),
        r matches Ok(Response::Error(o)) ==> !listing_ok(json_parse(body@)->Some_0) && outer_of(
            json_parse(body@)->Some_0,
            o,
        ),
{
    let v = match parse_json(body) {
        Ok(v) => v,
        Err(e) => {
            return Err(RequestError::Json(e));
        },
    };
    match Models::from_value(&v) {
        Some(m) => Ok(Response::Success(m)),
        None => match OuterErrorResponse::from_value(&v) {
            Some(o) => Ok(Response::Error(o)),
            None => Err(RequestError::Shape),
        },
    }
}

/// Decodes the body of a single model, as `decode_models` does a listing.
pub fn decode_model(body: &[u8]) -> (r: RespResult<ModelEntry, RequestError>)
    ensures
        r matches Err(RequestError::Json(_)) <==> json_parse(body@) is None,
        r matches Err(RequestError::Shape) <==> (json_parse(body@) is Some && !entry_ok(json_parse(body@)->Some_0)
            && !outer_ok(json_parse(body@)->Some_0)),
        r is Err ==> r matches Err(RequestError::Json(_)) || r matches Err(RequestError::Shape),
        r matches Ok(Response::Success(e)) ==> entry_of(json_parse(body@)->Some_0, e),
        r matches Ok(Response::Error(o)) ==> !entry_ok(json_parse(body@)->Some_0) && outer_of(
            json_parse(body@)->Some_0,
            o,
        ),
{
    let v = match parse_json(body) {
        Ok(v) => v,
        Err(e) => {
            return Err(RequestError::Json(e));
        },
    };
    match ModelEntry::from_value(&v) {
        Some(e) => Ok(Response::Success(e)),
        None => match OuterErrorResponse::from_value(&v) {
            Some(o) => Ok(Response::Error(o)),
            None => Err(RequestError::Shape),
        },
    }
}

} // verus!
