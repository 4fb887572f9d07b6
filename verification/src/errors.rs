//! The failures that the client reports, each with the text that describes it.

use vstd::prelude::*;
use vstd::string::*;
use crate::text::{decimal, decimal_string};

verus! {

/// The server address has a scheme for which no streaming counterpart can be set.
#[derive(Debug)]
pub struct BadSchemeError {
    pub scheme: String,
}

impl BadSchemeError {
    /// The text that describes this failure.
    pub open spec fn description(&self) -> Seq<char> {
        "Bad scheme: "@ + self.scheme@
    }

    /// Renders this failure as text.
    pub fn describe(&self) -> (r: String)
        ensures
            r@ == self.description(),
    {
        String::from_str("Bad scheme: ").concat(self.scheme.as_str())
    }
}

/// An upload endpoint answered with something other than a job identifier.
#[derive(Debug)]
pub struct RelwarcAPIError {
    pub endpoint_url: String,
    pub status: u16,
    pub error_message: String,
}

impl RelwarcAPIError {
    /// The text that describes this failure.
    pub open spec fn description(&self) -> Seq<char> {
        "Relwarc API endpoint "@ + self.endpoint_url@ + " responded with status "@ + decimal(
            self.status as nat,
        ) + ": "@ + self.error_message@
    }

    /// Renders this failure as text.
    pub fn describe(&self) -> (r: String)
        ensures
            r@ == self.description(),
    {
        let status = decimal_string(self.status as u64);
        String::from_str("Relwarc API endpoint ").concat(self.endpoint_url.as_str()).concat(
            " responded with status ",
        ).concat(status.as_str()).concat(": ").concat(self.error_message.as_str())
    }
}

/// A job ended without an analysis result.
#[derive(Debug)]
pub struct RelwarcJobError {
    pub job_id: u64,
    pub error_message: String,
}

impl RelwarcJobError {
    /// The text that describes this failure.
    pub open spec fn description(&self) -> Seq<char> {
        "Relwarc failed to execute job "@ + decimal(self.job_id as nat) + ", error msg is: "@
            + self.error_message@
    }

    /// Renders this failure as text.
    pub fn describe(&self) -> (r: String)
        ensures
            r@ == self.description(),
    {
        let job = decimal_string(self.job_id);
        String::from_str("Relwarc failed to execute job ").concat(job.as_str()).concat(
            ", error msg is: ",
        ).concat(self.error_message.as_str())
    }
}

} // verus!
