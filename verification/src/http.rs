//! What the HTTP surface answers.

use vstd::prelude::*;
use vstd::string::*;
use crate::dispatch::WriteOutcome;

verus! {

/// Status code of a request that was served.
pub const OK: u16 = 200;

/// Status code of a request whose write the adapter failed.
pub const INTERNAL_SERVER_ERROR: u16 = 500;

/// Status code of a request that found no connection.
pub const SERVICE_UNAVAILABLE: u16 = 503;

/// The body of a served request.
#[derive(Clone, Debug, PartialEq, Eq)]
pub struct Accepted {
    /// Always `ok`.
    pub status: String,
    /// The message the request asked to send.
    pub message: String,
}

/// A request that was not served.
#[derive(Clone, Debug, PartialEq, Eq)]
pub struct Rejection {
    /// The status code.
    pub code: u16,
    /// The body: a plain text that says why.
    pub text: String,
}

/// An answer, as a value.
pub ghost enum Answer {
    Accepted { status: Seq<char>, message: Seq<char> },
    Rejected { code: u16, text: Seq<char> },
}

/// The value of an answer.
pub open spec fn answer_of(reply: Result<Accepted, Rejection>) -> Answer {
    match reply {
        Ok(accepted) => Answer::Accepted { status: accepted.status@, message: accepted.message@ },
        Err(rejection) => Answer::Rejected { code: rejection.code, text: rejection.text@ },
    }
}

/// The answer to a request to send `message`. `attempt` is `None` where the
/// request found no connection, and otherwise says how the delivery ended.
/// A missing characteristic is answered like a delivery.
pub open spec fn answered(attempt: Option<WriteOutcome>, message: Seq<char>) -> Answer {
    match attempt {
        None => Answer::Rejected { code: SERVICE_UNAVAILABLE, text: "No BLE device connected"@ },
        Some(WriteOutcome::TransportError(error)) => Answer::Rejected {
            code: INTERNAL_SERVER_ERROR,
            text: error@,
        },
        Some(_) => Answer::Accepted { status: "ok"@, message },
    }
}

/// The text served at the root.
pub fn root() -> (text: &'static str)
    ensures
        text@ == "BLE Controller Service\n"@,
{
    "BLE Controller Service\n"
}

/// The message a `GET` on the send route asks to send.
pub fn send_message_handler() -> (message: &'static str)
    ensures
        message@ == "Hello from HTTP GET!"@,
{
    "Hello from HTTP GET!"
}

/// Answers a request to send `message`, given how the attempt went.
pub fn answer(attempt: Option<WriteOutcome>, message: &str) -> (reply: Result<
    Accepted,
    Rejection,
>)
    ensures
        answer_of(reply) == answered(attempt, message@),
{
    match attempt {
        None => Err(
            Rejection {
                code: SERVICE_UNAVAILABLE,
                text: String::from_str("No BLE device connected"),
            },
        ),
        Some(outcome) => match outcome.into_result() {
            Err(error) => Err(Rejection { code: INTERNAL_SERVER_ERROR, text: error }),
            Ok(()) => Ok(Accepted { status: String::from_str("ok"), message: message.to_owned() }),
        },
    }
}

} // verus!
