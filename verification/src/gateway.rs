//! The gateway's reactions: which URL serves the service, and how each error
//! closes the client connection (which close code, which reason text).

use vstd::prelude::*;
use vstd::string::StringExecFns;
use crate::numfmt::{dec_chars, push_dec_u64};
use crate::request::Error;
use crate::{MAX_REQUEST_SIZE, NORMAL, TOO_LARGE, UNSUPPORTED_DATA, POLICY_VIOLATION,
    INTERNAL_ERROR, WEBSOCKET_BASE};

verus! {

/// The one URL the service answers; anything else is not found.
pub fn route_is_execute(uri: &String) -> (r: bool)
    ensures
        r == (uri@ == "/api/v1/ws/execute"@),
{
    let expected = String::from_str("/api/v1/ws/execute");
    *uri == expected
}

/// How a request's error ends the connection: a client that went away gets
/// no close frame; everything else gets a close code and a reason.
pub enum CloseAction {
    CloseQuietly,
    CloseWith { code: u16, reason: String },
}

/// The reason text for an oversize message.
pub open spec fn too_large_reason(size: int) -> Seq<char> {
    "received message of size "@ + dec_chars(size) + ", greater than size limit "@ + dec_chars(
        MAX_REQUEST_SIZE as int,
    )
}

/// Decides the close frame for an error: the close code is the websocket
/// base plus the error's small code, and the reason names what went wrong.
pub fn close_action(e: &Error) -> (r: CloseAction)
    ensures
        e is ClientWentAway <==> r is CloseQuietly,
        e matches Error::TooLarge(size) ==> (r matches CloseAction::CloseWith { code, reason }
            && code == WEBSOCKET_BASE + TOO_LARGE as u16 && reason@ == too_large_reason(
            size as int,
        )),
        e is UnsupportedData ==> (r matches CloseAction::CloseWith { code, reason } && code
            == WEBSOCKET_BASE + UNSUPPORTED_DATA as u16 && reason@ == "expected a binary message"@),
        e matches Error::PolicyViolation(m) ==> (r matches CloseAction::CloseWith { code, reason }
            && code == WEBSOCKET_BASE + POLICY_VIOLATION as u16 && reason@ == "invalid request: "@
            + m@),
        e matches Error::InternalError(m) ==> (r matches CloseAction::CloseWith { code, reason }
            && code == WEBSOCKET_BASE + INTERNAL_ERROR as u16 && reason@ == m@),
{
    match e {
        Error::ClientWentAway => CloseAction::CloseQuietly,
        Error::TooLarge(size) => {
            let mut reason = String::new();
            reason.append("received message of size ");
            push_dec_u64(&mut reason, *size as u64);
            reason.append(", greater than size limit ");
            push_dec_u64(&mut reason, MAX_REQUEST_SIZE as u64);
            assert(reason@ =~= too_large_reason(*size as int));
            CloseAction::CloseWith { code: WEBSOCKET_BASE + TOO_LARGE as u16, reason }
        },
        Error::UnsupportedData => {
            let mut reason = String::new();
            reason.append("expected a binary message");
            assert(reason@ =~= "expected a binary message"@);
            CloseAction::CloseWith { code: WEBSOCKET_BASE + UNSUPPORTED_DATA as u16, reason }
        },
        Error::PolicyViolation(m) => {
            let mut reason = String::new();
            reason.append("invalid request: ");
            reason.append(m.as_str());
            assert(reason@ =~= "invalid request: "@ + m@);
            CloseAction::CloseWith { code: WEBSOCKET_BASE + POLICY_VIOLATION as u16, reason }
        },
        Error::InternalError(m) => {
            let mut reason = String::new();
            reason.append(m.as_str());
            assert(reason@ =~= m@);
            CloseAction::CloseWith { code: WEBSOCKET_BASE + INTERNAL_ERROR as u16, reason }
        },
    }
}

/// The close code for a connection that ends without error.
pub fn normal_close_code() -> (r: u16)
    ensures
        r == WEBSOCKET_BASE + NORMAL as u16,
{
    WEBSOCKET_BASE + NORMAL as u16
}

} // verus!
