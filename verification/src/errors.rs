//! The protocol errors a connection can report to its client.
//!
//! Every error is per-connection and recoverable: it is reported back over
//! the offending connection as a plain-text message and the connection keeps
//! processing further frames.

use vstd::prelude::*;

verus! {

use vstd::string::StringExecFns;

/// An error raised while handling one protocol message.
#[derive(Debug)]
pub enum WebSocketError {
    /// The named session does not exist in the store.
    SessionNotFound(String),
    /// The message was malformed or a store write failed.
    InvalidMessage(String),
    /// The connection already has an active subscription.
    AlreadySubscribed,
    /// The action needs a session binding, but none exists yet.
    NotSubscribed,
}

impl WebSocketError {
    /// The human-readable text reported to the client for this error.
    pub open spec fn spec_message(&self) -> Seq<char> {
        match self {
            WebSocketError::SessionNotFound(id) => "Session "@ + id@ + " not found"@,
            WebSocketError::InvalidMessage(detail) => "Invalid message format: "@ + detail@,
            WebSocketError::AlreadySubscribed => "Already subscribed to a session"@,
            WebSocketError::NotSubscribed => "Not subscribed to any session"@,
        }
    }

    /// Renders the error as the plain-text message sent to the client.
    pub fn message(&self) -> (r: String)
        ensures
            r@ == self.spec_message(),
    {
        match self {
            WebSocketError::SessionNotFound(id) => {
                let mut s = String::from_str("Session ");
                s.append(id.as_str());
                s.append(" not found");
                s
            },
            WebSocketError::InvalidMessage(detail) => {
                let mut s = String::from_str("Invalid message format: ");
                s.append(detail.as_str());
                s
            },
            WebSocketError::AlreadySubscribed => String::from_str("Already subscribed to a session"),
            WebSocketError::NotSubscribed => String::from_str("Not subscribed to any session"),
        }
    }
}

} // verus!
