//! Session protocol: after a command is sent and its status decoded, decide
//! whether the exchange is over or exactly one continuation command must be
//! transmitted.

use vstd::prelude::*;
use crate::capdu;
use crate::capdu::{APDU, ApduView};
use crate::rapdu::Status;

verus! {

/// The standing of one command exchange.
#[derive(Clone, Copy, Debug, PartialEq, Eq, Structural)]
pub enum SessionState {
    /// The command was sent and its status not yet examined.
    Sent,
    /// A GET RESPONSE continuation was issued; its reply is the one to
    /// surface.
    AwaitingMore,
    /// A wrong-length retry was issued; its reply is the one to surface.
    AwaitingRetry,
    /// The exchange is over; the latest reply is the surfaced one.
    Done,
}

/// Decide the next move from the status of the latest reply to `command`.
///
/// From `Sent`, a response-available status demands one GET RESPONSE for the
/// announced length, and a wrong-expected-length status demands one resend
/// of the command with its length corrected; every other status ends the
/// exchange. From any other state the exchange ends with no further
/// command, whatever the status: a continuation is never chained onto a
/// continuation.
pub fn step(state: SessionState, command: &APDU, status: &Status) -> (r: (
    SessionState,
    Option<APDU>,
))
    ensures
        match (state, *status) {
            (SessionState::Sent, Status::ResponseAvailable { length }) => {
                &&& r.0 == SessionState::AwaitingMore
                &&& match r.1 {
                    Some(a) => a@ == (ApduView {
                        name: "GET RESPONSE"@,
                        cla: 0x00,
                        ins: 0xC0,
                        p1: 0x00,
                        p2: 0x00,
                        lc: None,
                        data: None,
                        le: Some(length),
                    }),
                    None => false,
                }
            },
            (SessionState::Sent, Status::WrongLengthLe { length }) => {
                &&& r.0 == SessionState::AwaitingRetry
                &&& match r.1 {
                    Some(a) => a@ == (ApduView {
                        name: command@.name,
                        cla: command@.cla,
                        ins: command@.ins,
                        p1: command@.p1,
                        p2: command@.p2,
                        lc: Some(length),
                        data: None,
                        le: None,
                    }),
                    None => false,
                }
            },
            _ => r.0 == SessionState::Done && r.1 is None,
        },
{
    match state {
        SessionState::Sent => match status {
            Status::ResponseAvailable { length } => (
                SessionState::AwaitingMore,
                Some(capdu::get_response(*length)),
            ),
            Status::WrongLengthLe { length } => (
                SessionState::AwaitingRetry,
                Some(command.with_length(*length)),
            ),
            _ => (SessionState::Done, None),
        },
        _ => (SessionState::Done, None),
    }
}

} // verus!
