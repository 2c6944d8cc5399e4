//! What the scrape endpoint answers.
//!
//! A scrape takes one reading under the sensor's guard and, once the guard is
//! released, hands the outcome to [`respond`]. A reading updates the registry and
//! is answered with the rendered gauges; a failure leaves the registry alone
//! and is answered with a diagnostic.

use vstd::prelude::*;
use vstd::string::*;
use crate::error::{Failure, SensorError};
use crate::channel::Channel;
use crate::exposition::{exposition, sample_line};
use crate::lines::has_line;
use crate::reading::Reading;
use crate::registry::Registry;
use crate::rendering::is_exposition;

verus! {

/// The status of an answer that carries the gauges.
pub const STATUS_OK: u16 = 200;

/// The status of an answer to a scrape whose measurement failed.
pub const STATUS_FAILURE: u16 = 500;

/// The answer to one scrape: an HTTP status and the text of the body.
#[derive(Debug, PartialEq, Eq)]
pub struct Response {
    pub status: u16,
    pub body: String,
}

impl Clone for Response {
    /// A second answer with the same status and body.
    fn clone(&self) -> (copy: Response)
        ensures
            copy.status == self.status,
            copy.body@ == self.body@,
    {
        Response { status: self.status, body: self.body.clone() }
    }
}

/// The body that reports a failure: a fixed marker, then the failure's
/// description.
pub open spec fn failure_body(failure: Failure) -> Seq<char> {
    "kapot: "@ + failure.description()
}

/// The answer to a scrape whose measurement failed with `error`.
pub fn failure_response(error: &SensorError) -> (response: Response)
    ensures
        response.status == STATUS_FAILURE,
        response.body@ == failure_body(error@),
{
    let mut body = String::from_str("kapot: ");
    let description = error.description();
    body.append(description.as_str());
    Response { status: STATUS_FAILURE, body }
}

/// Answers a scrape with the outcome of its measurement.
///
/// A reading is applied to the registry, and the answer is status 200 with the
/// registry rendered after the update: a well-formed text that holds the
/// sample line of every channel of the reading. A failure changes nothing in
/// the registry, and the answer is status 500 with the failure's diagnostic.
pub fn respond(registry: &mut Registry, outcome: Result<Reading, SensorError>) -> (response:
    Response)
    ensures
        outcome matches Ok(reading) ==> final(registry)@ == old(registry)@.union_prefer_right(
            reading@,
        ) && response.status == STATUS_OK && response.body@ == exposition(final(registry)@)
            && is_exposition(response.body@),
        outcome matches Ok(reading) ==> forall|channel: Channel| #[trigger]
            reading@.contains_key(channel) ==> has_line(
                response.body@,
                sample_line(channel, reading@[channel]),
            ),
        outcome matches Err(error) ==> final(registry)@ == old(registry)@ && response.status
            == STATUS_FAILURE && response.body@ == failure_body(error@),
{
    match outcome {
        Ok(reading) => {
            registry.apply(reading);
            Response { status: STATUS_OK, body: registry.render() }
        },
        Err(error) => failure_response(&error),
    }
}

} // verus!
