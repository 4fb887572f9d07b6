use relwarc_api_client::submit::{job_id_from_response, ServerResponseData, SubmitError};

const ENDPOINT: &str = "http://localhost:8080/api/analyze-code";

fn decode(body: &[u8]) -> Result<ServerResponseData, serde_json::Error> {
    let value: serde_json::Value = serde_json::from_slice(body)?;
    Ok(ServerResponseData {
        job_id: value.get("job_id").and_then(|id| id.as_u64()),
        error: value.get("error").and_then(|e| e.as_str()).map(|e| e.to_string()),
    })
}

fn submit(status: u16, body: &[u8]) -> Result<u64, SubmitError> {
    job_id_from_response(ENDPOINT.to_string(), status, body, decode(body))
}

fn api_error(r: Result<u64, SubmitError>) -> (String, u16, String) {
    match r {
        Err(SubmitError::Api(e)) => (e.endpoint_url, e.status, e.error_message),
        other => panic!("no API error: {:?}", other),
    }
}

#[test]
fn success_with_job_id_yields_it() {
    assert_eq!(submit(200, b"{\"job_id\": 42}").unwrap(), 42);
}

#[test]
fn success_with_largest_job_id_yields_it() {
    assert_eq!(submit(200, b"{\"job_id\": 18446744073709551615}").unwrap(), u64::MAX);
}

#[test]
fn success_with_job_id_passes_over_error_field() {
    assert_eq!(submit(200, b"{\"job_id\": 7, \"error\": \"odd\"}").unwrap(), 7);
}

#[test]
fn success_without_job_id_is_an_api_error() {
    let (endpoint, status, message) = api_error(submit(200, b"{}"));
    assert_eq!(endpoint, ENDPOINT);
    assert_eq!(status, 200);
    assert_eq!(message, "missing job_id in server response");
}

#[test]
fn success_without_job_id_does_not_report_error_field() {
    let (_, status, message) = api_error(submit(200, b"{\"error\": \"bad input\"}"));
    assert_eq!(status, 200);
    assert_eq!(message, "missing job_id in server response");
}

#[test]
fn success_with_undecodable_body_fails_with_decoder_error() {
    match submit(200, b"<html>") {
        Err(SubmitError::Decode(e)) => assert!(e.is_syntax()),
        other => panic!("no decode error: {:?}", other),
    }
}

#[test]
fn failure_with_error_field_reports_it() {
    let (endpoint, status, message) = api_error(submit(500, b"{\"error\": \"bad input\"}"));
    assert_eq!(endpoint, ENDPOINT);
    assert_eq!(status, 500);
    assert_eq!(message, "bad input");
}

#[test]
fn failure_without_error_field_reports_empty_message() {
    let (_, status, message) = api_error(submit(403, b"{}"));
    assert_eq!(status, 403);
    assert_eq!(message, "");
}

#[test]
fn failure_with_job_id_is_still_an_error() {
    let (_, status, message) = api_error(submit(201, b"{\"job_id\": 42}"));
    assert_eq!(status, 201);
    assert_eq!(message, "");
}

#[test]
fn failure_with_undecodable_body_reports_the_body() {
    let (endpoint, status, message) = api_error(submit(502, b"Bad Gateway"));
    assert_eq!(endpoint, ENDPOINT);
    assert_eq!(status, 502);
    assert_eq!(message, "Bad Gateway");
}

#[test]
fn failure_with_invalid_utf8_replaces_it() {
    let (_, status, message) = api_error(submit(500, &[0x66, 0xff, 0x6f]));
    assert_eq!(status, 500);
    assert_eq!(message, "f\u{fffd}o");
}

#[test]
fn failure_with_empty_body_reports_empty_message() {
    let (_, status, message) = api_error(submit(404, b""));
    assert_eq!(status, 404);
    assert_eq!(message, "");
}
