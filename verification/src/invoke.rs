//! Outcomes of one endpoint invocation, and the exact text each one logs.
//! The invocation itself (the network call, the body read, the file write)
//! happens outside this crate; it reports back one of these outcomes, and
//! the functions here say, character for character, what the log line for
//! each outcome is.

use vstd::prelude::*;
use vstd::string::StringExecFns;
use crate::text::{dec_digits, u16_to_string};

verus! {

/// How the one-time first invocation ended: it only checks reachability, so
/// either a response arrived (with its status code) or transport failed.
#[derive(Debug)]
pub enum FirstOutcome {
    Status(u16),
    Transport(String),
}

/// How a later invocation ended, step by step: transport failed; a response
/// arrived but with a non-success status; the body could not be read; there
/// was no output directory to save to; saving failed; or the body was saved
/// (with the time text it was saved at).
#[derive(Debug)]
pub enum LaterOutcome {
    Transport(String),
    HttpError(u16),
    BodyError(String),
    NoDirectory,
    SaveFailed(String),
    Saved(String),
}

/// The log line for the first invocation's completion.
pub open spec fn first_message(outcome: FirstOutcome) -> Seq<char> {
    match outcome {
        FirstOutcome::Status(code) => "first call completed, status "@ + dec_digits(code as nat),
        FirstOutcome::Transport(e) => "first call failed: "@ + e@,
    }
}

/// The log line for a later invocation's completion.
pub open spec fn later_message(outcome: LaterOutcome) -> Seq<char> {
    match outcome {
        LaterOutcome::Transport(e) => "call failed: "@ + e@,
        LaterOutcome::HttpError(code) => "call returned status "@ + dec_digits(code as nat),
        LaterOutcome::BodyError(e) => "call succeeded, reading the body failed: "@ + e@,
        LaterOutcome::NoDirectory => "call succeeded, no output directory to save to"@,
        LaterOutcome::SaveFailed(e) => "call succeeded, saving the body failed: "@ + e@,
        LaterOutcome::Saved(t) => "call succeeded, body saved at "@ + t@,
    }
}

/// Build the first invocation's log line.
pub fn first_call_message(outcome: &FirstOutcome) -> (r: String)
    ensures
        r@ == first_message(*outcome),
{
    match outcome {
        FirstOutcome::Status(code) => {
            let mut s = "first call completed, status ".to_owned();
            let digits = u16_to_string(*code);
            s.append(digits.as_str());
            s
        },
        FirstOutcome::Transport(e) => {
            let mut s = "first call failed: ".to_owned();
            s.append(e.as_str());
            s
        },
    }
}

/// Build a later invocation's log line.
pub fn later_call_message(outcome: &LaterOutcome) -> (r: String)
    ensures
        r@ == later_message(*outcome),
{
    match outcome {
        LaterOutcome::Transport(e) => {
            let mut s = "call failed: ".to_owned();
            s.append(e.as_str());
            s
        },
        LaterOutcome::HttpError(code) => {
            let mut s = "call returned status ".to_owned();
            let digits = u16_to_string(*code);
            s.append(digits.as_str());
            s
        },
        LaterOutcome::BodyError(e) => {
            let mut s = "call succeeded, reading the body failed: ".to_owned();
            s.append(e.as_str());
            s
        },
        LaterOutcome::NoDirectory => "call succeeded, no output directory to save to".to_owned(),
        LaterOutcome::SaveFailed(e) => {
            let mut s = "call succeeded, saving the body failed: ".to_owned();
            s.append(e.as_str());
            s
        },
        LaterOutcome::Saved(t) => {
            let mut s = "call succeeded, body saved at ".to_owned();
            s.append(t.as_str());
            s
        },
    }
}

/// Whether a status code counts as HTTP success: the 2xx range. A later
/// invocation reads the response body exactly when this holds.
pub fn status_is_success(code: u16) -> (r: bool)
    ensures
        r == (200 <= code < 300),
{
    200 <= code && code < 300
}

} // verus!
