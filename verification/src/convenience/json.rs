use vstd::prelude::*;

verus! {

use crate::RetryType;
use crate::convenience::{check_status_code, status_verdict};

/// Relies on `serde_json::Value`, the decoded form of a JSON document; the
/// library carries such a value through without looking inside it.
#[verifier::external_type_specification]
#[verifier::external_body]
pub struct ExValue(serde_json::Value);

/// Whether `serde_json` parses the text as a JSON document; a function of the
/// text alone.
pub uninterp spec fn json_valid(s: Seq<char>) -> bool;

/// Relies on `serde_json::from_str::<serde_json::Value>`: whether it parses
/// depends on the text alone.
#[verifier::external_body]
fn parse_json(body: &String) -> (r: Option<serde_json::Value>)
    ensures
        r is Some <==> json_valid(body@),
{
    serde_json::from_str(body.as_str()).ok()
}

/// A decoded response: the decoded body together with the status and headers
/// it arrived with.
#[derive(Debug)]
pub struct ResponseSuccess<T> {
    /// The response's status code.
    pub status_code: u16,
    /// The decoded body.
    pub data: T,
    /// The response's headers, as name and value pairs in arrival order.
    pub headers: Vec<(String, String)>,
}

/// What a response held when it could not be accepted: its status, raw body
/// and headers, surfaced to the caller as the error payload.
#[derive(Debug)]
pub struct ResponseData {
    /// The response's status code.
    pub status_code: u16,
    /// The raw body text, empty when it could not be read.
    pub body: String,
    /// The response's headers, as name and value pairs in arrival order.
    pub headers: Vec<(String, String)>,
}

/// The error payload handed back with a retry or stop verdict. It holds the
/// transport failure's description when no response was obtained at all, and
/// otherwise the offending response's data.
#[derive(Debug)]
pub struct ResponseError {
    /// The transport failure's description, when there was no response.
    pub error: Option<String>,
    /// The offending response's status, body and headers, when there was one.
    pub response_data: Option<ResponseData>,
}

/// Classifies a raw send outcome and decodes the body of an acceptable
/// response as JSON.
///
/// A transport failure (`Err`) is retried with its description attached. A
/// response is first held to the status-code classifier; its verdict is
/// propagated with the response's status, body and headers attached. A
/// success-range response has its body decoded: a body that is not a JSON
/// document is retried, with the response data attached, on the theory that
/// transient truncation may resolve on a later attempt; a decoded body is
/// returned with the status and headers.
pub fn check_done(
    response: Result<ResponseData, String>,
    retryable_status_codes: &[u16],
) -> (r: Result<ResponseSuccess<serde_json::Value>, (RetryType, ResponseError)>)
    ensures
        (response matches Err(message) ==> (r matches Err((decision, payload))
            && decision is Retry
            && payload.error == Some(message)
            && payload.response_data is None)),
        (response matches Ok(data) ==> ({
            match status_verdict(data.status_code, retryable_status_codes@) {
                Some(verdict) => (r matches Err((decision, payload))
                    && decision == verdict
                    && payload.error is None
                    && payload.response_data == Some(data)),
                None => {
                    if json_valid(data.body@) {
                        r matches Ok(success)
                            && success.status_code == data.status_code
                            && success.headers == data.headers
                    } else {
                        r matches Err((decision, payload))
                            && decision is Retry
                            && payload.error is None
                            && payload.response_data == Some(data)
                    }
                },
            }
        })),
{
    match response {
        Err(message) => Err(
            (RetryType::Retry, ResponseError { error: Some(message), response_data: None }),
        ),
        Ok(data) => {
            match check_status_code(data.status_code, retryable_status_codes) {
                Some(decision) => Err(
                    (decision, ResponseError { error: None, response_data: Some(data) }),
                ),
                None => {
                    match parse_json(&data.body) {
                        Some(value) => Ok(
                            ResponseSuccess {
                                status_code: data.status_code,
                                data: value,
                                headers: data.headers,
                            },
                        ),
                        None => Err(
                            (
                                RetryType::Retry,
                                ResponseError { error: None, response_data: Some(data) },
                            ),
                        ),
                    }
                },
            }
        },
    }
}

} // verus!
