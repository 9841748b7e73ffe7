use vstd::prelude::*;

verus! {

/// Every way one remote-console call can fail. All of them end the call.
#[derive(Clone, Copy, Debug, PartialEq, Eq, Structural)]
pub enum RconError {
    /// The host could not be reached, refused the connection or timed out.
    ConnectError,
    /// The server rejected the credentials, or closed the link during login.
    AuthFailed,
    /// Bytes on the wire violate the framing rules.
    MalformedFrame,
    /// The peer closed the connection in the middle of an exchange.
    ConnectionClosed,
    /// A reply carried a request id that no outstanding request has.
    UnexpectedRequestId,
    /// The login exchange did not complete within its bounded packet count.
    ProtocolError,
}

/// The text that each error is shown as.
pub open spec fn error_text(e: RconError) -> Seq<char> {
    match e {
        RconError::ConnectError => "could not connect to the server"@,
        RconError::AuthFailed => "authentication failed"@,
        RconError::MalformedFrame => "the server sent a malformed packet"@,
        RconError::ConnectionClosed => "the connection was closed before the reply was complete"@,
        RconError::UnexpectedRequestId => "the server answered a request that was not sent"@,
        RconError::ProtocolError => "handshake did not complete"@,
    }
}

impl RconError {
    /// A short message for end users; it never holds a secret.
    pub fn message(&self) -> (r: String)
        ensures
            r@ == error_text(*self),
    {
        let s = match self {
            RconError::ConnectError => "could not connect to the server",
            RconError::AuthFailed => "authentication failed",
            RconError::MalformedFrame => "the server sent a malformed packet",
            RconError::ConnectionClosed => "the connection was closed before the reply was complete",
            RconError::UnexpectedRequestId => "the server answered a request that was not sent",
            RconError::ProtocolError => "handshake did not complete",
        };
        s.to_owned()
    }
}

} // verus!
