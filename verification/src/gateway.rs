//! The command gateway: three parameterless operations offered to a
//! front-end, each answering with a string. Starting and stopping hold no
//! state and always acknowledge with a fixed message. The world-state query
//! answers with whatever text the external process wrote, unless the launch
//! failed or the text was blank, in which case a fixed fallback payload
//! stands in — silently, as the caller's error channel is never used.

use vstd::prelude::*;
use crate::text::{is_blank, is_space_char, str_is_blank};

verus! {

/// What came of invoking the external world-state process, as the gateway
/// sees it: the process could not be launched; it ran but wrote bytes that
/// are not valid UTF-8; or it ran and wrote the given text to its standard
/// output.
pub enum ProcessOutcome {
    LaunchFailed,
    InvalidUtf8,
    Stdout(String),
}

/// The fixed payload that stands in for the world state when the external
/// process fails or writes nothing but white space.
pub open spec fn fallback_payload() -> Seq<char> {
    "{\n  \"currentDay\": 1,\n  \"currentHour\": 12,\n  \"npcs\": [\n    {\"name\": \"Marcus\",  \"needFood\": 45, \"needSafety\": 80},\n    {\"name\": \"Sarah\",   \"needFood\": 90, \"needSafety\": 95},\n    {\"name\": \"Emma\",    \"needFood\": 70, \"needSafety\": 75}\n  ]\n}"@
}

/// The payload that stands in for output that was not valid UTF-8.
pub open spec fn empty_object() -> Seq<char> {
    "{}"@
}

/// The acknowledgement for a start request.
pub open spec fn start_message() -> Seq<char> {
    "Simulation started"@
}

/// The acknowledgement for a stop request.
pub open spec fn stop_message() -> Seq<char> {
    "Simulation stopped"@
}

/// What the world-state operation answers for each outcome of the external
/// process: text that is not blank passes through verbatim; a failed launch
/// or blank text is answered with the fallback payload; output that was not
/// UTF-8 is answered with an empty object, which passes through as any
/// other non-blank text would.
pub open spec fn world_state_response(outcome: ProcessOutcome) -> Seq<char> {
    match outcome {
        ProcessOutcome::LaunchFailed => fallback_payload(),
        ProcessOutcome::InvalidUtf8 => empty_object(),
        ProcessOutcome::Stdout(s) => if is_blank(s@) {
            fallback_payload()
        } else {
            s@
        },
    }
}

/// The fallback payload as a value.
pub fn fallback_world_state() -> (r: String)
    ensures
        r@ == fallback_payload(),
{
    "{\n  \"currentDay\": 1,\n  \"currentHour\": 12,\n  \"npcs\": [\n    {\"name\": \"Marcus\",  \"needFood\": 45, \"needSafety\": 80},\n    {\"name\": \"Sarah\",   \"needFood\": 90, \"needSafety\": 95},\n    {\"name\": \"Emma\",    \"needFood\": 70, \"needSafety\": 75}\n  ]\n}".to_owned()
}

/// Acknowledges a request to start the simulation. The gateway holds no
/// running flag, so the request succeeds whether or not a simulation was
/// already started, always with the same message; the error channel is
/// never used.
pub fn start_simulation() -> (r: Result<String, String>)
    ensures
        r is Ok,
        r->Ok_0@ == start_message(),
{
    Ok("Simulation started".to_owned())
}

/// Acknowledges a request to stop the simulation, symmetrically to
/// `start_simulation`: stopping an already-stopped simulation succeeds with
/// the same message.
pub fn stop_simulation() -> (r: Result<String, String>)
    ensures
        r is Ok,
        r->Ok_0@ == stop_message(),
{
    Ok("Simulation stopped".to_owned())
}

/// Answers a world-state query from the outcome of the external process.
/// Every outcome is answered successfully: a launch failure or blank output
/// is silently masked by the fallback payload, and anything else passes
/// through verbatim, with no check that it is well-formed data.
pub fn get_world_state(outcome: ProcessOutcome) -> (r: Result<String, String>)
    ensures
        r is Ok,
        r->Ok_0@ == world_state_response(outcome),
{
    match outcome {
        ProcessOutcome::LaunchFailed => Ok(fallback_world_state()),
        ProcessOutcome::InvalidUtf8 => Ok("{}".to_owned()),
        ProcessOutcome::Stdout(s) => {
            if str_is_blank(s.as_str()) {
                Ok(fallback_world_state())
            } else {
                Ok(s)
            }
        },
    }
}

/// Starting the simulation is idempotent: any two answers that meet
/// `start_simulation`'s contract — in particular the answers to two calls
/// in a row — are the same success, with the same message.
pub proof fn lemma_start_idempotent(r1: Result<String, String>, r2: Result<String, String>)
    requires
        r1 is Ok,
        r1->Ok_0@ == start_message(),
        r2 is Ok,
        r2->Ok_0@ == start_message(),
    ensures
        r1->Ok_0@ == r2->Ok_0@,
{
}

/// Stopping the simulation is idempotent, exactly as starting it is.
pub proof fn lemma_stop_idempotent(r1: Result<String, String>, r2: Result<String, String>)
    requires
        r1 is Ok,
        r1->Ok_0@ == stop_message(),
        r2 is Ok,
        r2->Ok_0@ == stop_message(),
    ensures
        r1->Ok_0@ == r2->Ok_0@,
{
}

} // verus!
