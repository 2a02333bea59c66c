//! The replies that the handlers give to the original caller, and the sink
//! handler's log line.
use vstd::prelude::*;

verus! {

/// An HTTP reply: a status code and a text body.
#[derive(Debug)]
pub struct Reply {
    pub status: u16,
    pub body: String,
}

pub const STATUS_OK: u16 = 200;

pub const STATUS_INTERNAL_ERROR: u16 = 500;

/// Body of the reply to a successful forward.
pub const FORWARDED_BODY: &'static str = "All OK\n";

/// Label in front of each body that the sink prints.
pub const SINK_LABEL: &'static str = "Received request: ";

/// Status and body of the reply that a forwarding handler gives, from the
/// outcome of the downstream request (`Err` carries its description).
pub open spec fn forward_reply_of(outcome: Result<(), Seq<char>>) -> (u16, Seq<char>) {
    match outcome {
        Ok(()) => (STATUS_OK, FORWARDED_BODY@),
        Err(d) => (STATUS_INTERNAL_ERROR, d),
    }
}

/// The reply of a forwarding handler once the downstream request is over:
/// `200` with the fixed success text, or `500` carrying the failure's
/// description.
pub fn forward_reply(outcome: Result<(), String>) -> (r: Reply)
    ensures
        (r.status, r.body@) == forward_reply_of(match outcome {
            Ok(()) => Ok(()),
            Err(d) => Err(d@),
        }),
{
    match outcome {
        Ok(()) => Reply { status: STATUS_OK, body: String::from_str(FORWARDED_BODY) },
        Err(d) => failure_reply(d),
    }
}

/// The reply to a request whose upload could not be read or forwarded.
pub fn failure_reply(description: String) -> (r: Reply)
    ensures
        r.status == STATUS_INTERNAL_ERROR,
        r.body@ == description@,
{
    Reply { status: STATUS_INTERNAL_ERROR, body: description }
}

/// The sink's reply: `200` with an empty body, whatever was received.
pub fn sink_reply() -> (r: Reply)
    ensures
        r.status == STATUS_OK,
        r.body@ == Seq::<char>::empty(),
{
    Reply { status: STATUS_OK, body: String::new() }
}

/// The line that the sink prints for a received body.
pub fn sink_log_line(body: &str) -> (r: String)
    ensures
        r@ == SINK_LABEL@ + body@,
{
    let line = String::from_str(SINK_LABEL);
    line.concat(body)
}

/// A forward that fails leaves nothing behind: its reply is a `500` whose body
/// is the failure's description (non-empty when the description is), and the
/// reply to a later forward that succeeds is the ordinary success reply.
pub proof fn failed_forward_is_isolated(description: Seq<char>)
    requires
        description.len() > 0,
    ensures
        forward_reply_of(Err(description)).0 == STATUS_INTERNAL_ERROR,
        forward_reply_of(Err(description)).1.len() > 0,
        forward_reply_of(Ok(())) == (STATUS_OK, FORWARDED_BODY@),
{
}

} // verus!
