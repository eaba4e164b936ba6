//! What the HTTP API answers: its response bodies and status decisions.
use vstd::prelude::*;
use crate::text::cat;

verus! {

/// One representative workflow of a distinct semantic hash.
#[derive(Debug, Clone)]
pub struct UniqueWorkflow {
    pub workflow_id: String,
    pub run_id: String,
    pub workflow_type: String,
}

/// Row counts of one namespace.
#[derive(Debug, Clone, Copy, PartialEq, Eq, Structural)]
pub struct Stats {
    pub workflows_count: i64,
    pub unique_workflows_count: i64,
}

/// A status code and a plain-text body.
#[derive(Debug, Clone)]
pub struct HttpReply {
    pub status: u16,
    pub body: String,
}

/// An error while answering a request, with its message.
#[derive(Debug)]
pub struct AppError(pub String);

impl AppError {
    /// An error with the given message.
    pub fn from_message(message: String) -> (r: AppError)
        ensures
            r.0@ == message@,
    {
        AppError(message)
    }

    /// `500 Internal Server Error` with the body `error: <message>`.
    pub fn into_response(self) -> (r: HttpReply)
        ensures
            r.status == 500,
            r.body@ == "error: "@ + self.0@,
    {
        HttpReply { status: 500, body: cat("error: ", self.0.as_str()) }
    }
}

/// The answer of `/healthz`: `200` with `ok`.
pub fn health_reply() -> (r: HttpReply)
    ensures
        r.status == 200,
        r.body@ == "ok"@,
{
    HttpReply { status: 200, body: String::from_str("ok") }
}

/// The answer of `/readyz`, given the outcome of the readiness check: `200`
/// with an empty body, or `503` with `not ready: <reason>`.
pub fn readiness_reply(check: Result<(), String>) -> (r: HttpReply)
    ensures
        match check {
            Ok(()) => r.status == 200 && r.body@.len() == 0,
            Err(reason) => r.status == 503 && r.body@ == "not ready: "@ + reason@,
        },
{
    match check {
        Ok(()) => HttpReply { status: 200, body: String::new() },
        Err(reason) => HttpReply { status: 503, body: cat("not ready: ", reason.as_str()) },
    }
}

} // verus!
