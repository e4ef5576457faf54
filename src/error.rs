use serde_json::Error as JsonError;
use std::io::Error as IoError;
use vstd::prelude::*;

verus! {

#[verifier::external_type_specification]
#[verifier::external_body]
pub struct ExIoError(IoError);

#[verifier::external_type_specification]
#[verifier::external_body]
pub struct ExJsonError(JsonError);

/// Every failure that the client reports.
#[derive(Debug)]
pub enum Error {
    /// Could not find or reliably guess the socket of the compositor.
    SockPathNotFound,
    /// The queue of subscription events could not take an event: its receiver is
    /// gone, the connection has no subscription, or the event code is unknown.
    SubscriptionError,
    /// A connection carries at most one subscription for its whole life.
    AlreadySubscribed,
    /// A read or write on the socket failed, or the peer broke the protocol.
    Io(IoError),
    /// A JSON payload could not be produced or read.
    Json(JsonError),
}

/// Relies on `std::io::Error::from(ErrorKind::InvalidData)`: builds the error
/// that reports a peer which broke the framing rules.
#[verifier::external_body]
pub(crate) fn protocol_violation() -> (r: IoError) {
    IoError::from(std::io::ErrorKind::InvalidData)
}

} // verus!
