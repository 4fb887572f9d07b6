//! Client-side protocol logic for the Relwarc source-analysis service.
//!
//! The service analyses source text, pages and archives as jobs: a payload is
//! uploaded, the server names a job, and the job is watched over a streaming
//! connection until it ends. This crate holds the rules of that exchange and
//! leaves the connections to its caller.

pub mod address;
pub mod client;
pub mod errors;
pub mod job_status;
pub mod reader_length;
pub mod submit;
pub mod text;
pub mod watch;

pub use client::{RelwarcAPIClient, DEFAULT_SERVER_ADDR};
pub use job_status::{AnalysisResult, JobStatusMsg};
