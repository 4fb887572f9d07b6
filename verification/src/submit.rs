//! Reading the answer of an upload endpoint: a job identifier, or the reason
//! why there is none.

use vstd::prelude::*;
use vstd::string::*;
use crate::errors::RelwarcAPIError;

verus! {

/// `serde_json::Error`: why a text is no JSON of the wanted shape. It is
/// handed on unread.
#[verifier::external_type_specification]
#[verifier::external_body]
pub struct ExJsonError(serde_json::Error);

/// The body of an upload endpoint's answer, decoded.
#[derive(Debug)]
pub struct ServerResponseData {
    pub job_id: Option<u64>,
    pub error: Option<String>,
}

/// Why an upload gave no job identifier.
#[derive(Debug)]
pub enum SubmitError {
    /// The endpoint refused the upload, or accepted it without naming a job.
    Api(RelwarcAPIError),
    /// The endpoint reported success with a body that could not be decoded.
    Decode(serde_json::Error),
}

/// The text that `String::from_utf8_lossy` makes of `bytes`.
pub uninterp spec fn utf8_lossy(bytes: Seq<u8>) -> Seq<char>;

/// `String::from_utf8_lossy`: decodes bytes as UTF-8 and puts the replacement
/// character where they are not; the text depends on the bytes alone.
#[verifier::external_body]
fn lossy_text(bytes: &[u8]) -> (r: String)
    ensures
        r@ == utf8_lossy(bytes@),
{
    String::from_utf8_lossy(bytes).into_owned()
}

/// The message of an API error for an answer with a status other than success.
pub open spec fn refusal_message(
    body: Seq<u8>,
    decoded: Result<ServerResponseData, serde_json::Error>,
) -> Seq<char> {
    match decoded {
        Ok(data) => match data.error {
            Some(message) => message@,
            None => Seq::empty(),
        },
        Err(_) => utf8_lossy(body),
    }
}

/// Whether `r` is the API error with these three parts.
pub open spec fn is_api_error(
    r: Result<u64, SubmitError>,
    endpoint_url: Seq<char>,
    status: u16,
    message: Seq<char>,
) -> bool {
    r matches Err(SubmitError::Api(e)) && e.endpoint_url@ == endpoint_url && e.status == status
        && e.error_message@ == message
}

/// Turns an upload endpoint's answer into a job identifier.
///
/// With status 200 the decoded body must name the job: a body without
/// `job_id` is an API error, and a body that failed to decode fails with the
/// decoder's error. With any other status the result is an API error whose
/// message is the body's `error` field (empty where it has none), or the raw
/// body as text where the body did not decode.
pub fn job_id_from_response(
    endpoint_url: String,
    status: u16,
    body: &[u8],
    decoded: Result<ServerResponseData, serde_json::Error>,
) -> (r: Result<u64, SubmitError>)
    ensures
        status == 200 ==> match decoded {
            Ok(data) => match data.job_id {
                Some(id) => r == Ok::<u64, SubmitError>(id),
                None => is_api_error(r, endpoint_url@, 200, "missing job_id in server response"@),
            },
            Err(e) => r == Err::<u64, SubmitError>(SubmitError::Decode(e)),
        },
        status != 200 ==> is_api_error(r, endpoint_url@, status, refusal_message(body@, decoded)),
{
    if status != 200 {
        let error_message = match decoded {
            Ok(data) => match data.error {
                Some(message) => message,
                None => String::new(),
            },
            Err(_) => lossy_text(body),
        };
        return Err(SubmitError::Api(RelwarcAPIError { endpoint_url, status, error_message }));
    }
    match decoded {
        Ok(data) => match data.job_id {
            Some(id) => Ok(id),
            None => Err(
                SubmitError::Api(
                    RelwarcAPIError {
                        endpoint_url,
                        status,
                        error_message: String::from_str("missing job_id in server response"),
                    },
                ),
            ),
        },
        Err(e) => Err(SubmitError::Decode(e)),
    }
}

} // verus!
