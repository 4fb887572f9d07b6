//! Status messages of a job, and what becomes of the last one.

use vstd::prelude::*;
use vstd::string::*;
use crate::errors::RelwarcJobError;

verus! {

/// `serde_json::Value`: any JSON value. It is handed on unread.
#[verifier::external_type_specification]
#[verifier::external_body]
pub struct ExJsonValue(serde_json::Value);

/// What an analysis found. The client hands it on as it came.
pub type AnalysisResult = serde_json::Value;

/// One message of the server about a job.
#[derive(Debug)]
pub struct JobStatusMsg {
    /// The message's `type` field: `progress`, `result`, `error` or another word.
    pub msg_type: String,
    pub message: Option<String>,
    pub result: Option<AnalysisResult>,
}

/// Whether a message of this type ends a job: `result` and `error` do.
pub open spec fn is_terminal_type(msg_type: Seq<char>) -> bool {
    msg_type == "result"@ || msg_type == "error"@
}

impl JobStatusMsg {
    /// Whether this message ends its job.
    pub open spec fn is_terminal(&self) -> bool {
        is_terminal_type(self.msg_type@)
    }

    /// Tells whether this message ends its job.
    pub fn is_final(&self) -> (r: bool)
        ensures
            r == self.is_terminal(),
    {
        self.msg_type == String::from_str("result") || self.msg_type == String::from_str("error")
    }
}

/// Whether `r` is the job error with these parts.
pub open spec fn is_job_error<T>(r: Result<T, RelwarcJobError>, job_id: u64, message: Seq<char>) -> bool {
    r matches Err(e) && e.job_id == job_id && e.error_message@ == message
}

/// Records `msg` as the latest message of a job and asks for the next one.
///
/// Used as the handler of a watch that waits for the job to end: it never
/// asks to stop, so only a terminal message ends the watch.
pub fn keep_last(last: &mut Option<JobStatusMsg>, msg: JobStatusMsg) -> (stop: bool)
    ensures
        !stop,
        *final(last) == Some(msg),
{
    *last = Some(msg);
    false
}

/// The message on which a watch ended, or the job error of a watch that saw none.
pub fn last_status(last: Option<JobStatusMsg>, job_id: u64) -> (r: Result<
    JobStatusMsg,
    RelwarcJobError,
>)
    ensures
        match last {
            Some(msg) => r == Ok::<JobStatusMsg, RelwarcJobError>(msg),
            None => is_job_error(r, job_id, "Server sent no messages"@),
        },
{
    match last {
        Some(msg) => Ok(msg),
        None => Err(
            RelwarcJobError { job_id, error_message: String::from_str("Server sent no messages") },
        ),
    }
}

/// The error message of a status message that carries no result to hand out.
pub open spec fn failure_message(msg: JobStatusMsg) -> Seq<char> {
    if msg.msg_type@ == "result"@ {
        "result message lacks a 'result' field"@
    } else if msg.msg_type@ == "error"@ {
        match msg.message {
            Some(text) => text@,
            None => Seq::empty(),
        }
    } else {
        "Unexpected message type: "@ + msg.msg_type@
    }
}

/// The analysis result that the last message of a job carries.
///
/// Only a message of type `result` with a `result` field gives one. Without
/// the field, with type `error`, or with any other type the outcome is a job
/// error.
pub fn job_result(msg: JobStatusMsg, job_id: u64) -> (r: Result<AnalysisResult, RelwarcJobError>)
    ensures
        msg.msg_type@ == "result"@ && msg.result is Some ==> r == Ok::<
            AnalysisResult,
            RelwarcJobError,
        >(msg.result->Some_0),
        !(msg.msg_type@ == "result"@ && msg.result is Some) ==> is_job_error(
            r,
            job_id,
            failure_message(msg),
        ),
{
    if msg.msg_type == String::from_str("result") {
        match msg.result {
            Some(result) => Ok(result),
            None => Err(
                RelwarcJobError {
                    job_id,
                    error_message: String::from_str("result message lacks a 'result' field"),
                },
            ),
        }
    } else if msg.msg_type == String::from_str("error") {
        let error_message = match msg.message {
            Some(text) => text,
            None => String::new(),
        };
        Err(RelwarcJobError { job_id, error_message })
    } else {
        let error_message = String::from_str("Unexpected message type: ").concat(
            msg.msg_type.as_str(),
        );
        Err(RelwarcJobError { job_id, error_message })
    }
}

} // verus!
