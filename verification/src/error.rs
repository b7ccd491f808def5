//! The client's errors and the messages it shows for them.

use vstd::prelude::*;
use crate::text::{decimal, push_decimal};

verus! {

/// User-facing errors of the client.
#[derive(Debug, Clone)]
pub enum ClientError {
    Connection(String),
    Timeout,
    ServerError(u16, String),
    ParseError(String),
    Unknown(String),
}

/// What the client learns of a failed HTTP request: whether connecting
/// failed, whether it timed out, whether it failed on the response status and
/// which status that was, and the error's own description.
#[derive(Debug, Clone)]
pub struct RequestFailure {
    pub is_connect: bool,
    pub is_timeout: bool,
    pub is_status: bool,
    pub status: Option<u16>,
    pub description: String,
}

/// The text of a connection error.
pub open spec fn connection_text() -> Seq<char> {
    "Cannot reach the server. Make sure it's running:\n→ cargo run -p harmony-server"@
}

/// The text of a failure on the response status.
pub open spec fn status_failure_text() -> Seq<char> {
    "The server returned an error response"@
}

/// `e` is the error that the failed request `f` amounts to: a connection
/// error first, then a timeout, then a server error with the response status
/// (500 where none is known), else an unknown error with the failure's
/// description.
pub open spec fn classifies(f: RequestFailure, e: ClientError) -> bool {
    if f.is_connect {
        e matches ClientError::Connection(m) && m@ == connection_text()
    } else if f.is_timeout {
        e is Timeout
    } else if f.is_status {
        e matches ClientError::ServerError(code, m) && code == (match f.status {
            Some(s) => s,
            None => 500u16,
        }) && m@ == status_failure_text()
    } else {
        e matches ClientError::Unknown(d) && d == f.description
    }
}

/// The message the client shows for an error: a marked title, a blank line,
/// then the error's text.
pub open spec fn message_of(e: ClientError) -> Seq<char> {
    match e {
        ClientError::Connection(msg) => "🔌 Connection Error\n\n"@ + msg@,
        ClientError::Timeout => "⏱️ Request Timeout\n\nThe server took too long to respond.\nPlease try again."@,
        ClientError::ServerError(status, msg) => "⚠️ Server Error ("@ + decimal(status as nat)
            + ")\n\n"@ + msg@,
        ClientError::ParseError(msg) => "⚠️ Parse Error\n\n"@ + msg@,
        ClientError::Unknown(msg) => "❌ Unknown Error\n\n"@ + msg@,
    }
}

impl ClientError {
    /// The user-facing error for a failed request.
    pub fn from_reqwest(error: RequestFailure) -> (e: ClientError)
        ensures
            classifies(error, e),
    {
        if error.is_connect {
            ClientError::Connection(
                String::from_str(
                    "Cannot reach the server. Make sure it's running:\n→ cargo run -p harmony-server",
                ),
            )
        } else if error.is_timeout {
            ClientError::Timeout
        } else if error.is_status {
            let status: u16 = match error.status {
                Some(s) => s,
                None => 500,
            };
            ClientError::ServerError(status, String::from_str("The server returned an error response"))
        } else {
            ClientError::Unknown(error.description)
        }
    }

    /// The message shown for this error.
    pub fn display_message(&self) -> (s: String)
        ensures
            s@ == message_of(*self),
    {
        match self {
            ClientError::Connection(msg) => {
                let mut s = String::from_str("🔌 Connection Error\n\n");
                s.append(msg.as_str());
                s
            },
            ClientError::Timeout => String::from_str(
                "⏱️ Request Timeout\n\nThe server took too long to respond.\nPlease try again.",
            ),
            ClientError::ServerError(status, msg) => {
                let mut s = String::from_str("⚠️ Server Error (");
                push_decimal(&mut s, *status as u64);
                s.append(")\n\n");
                s.append(msg.as_str());
                s
            },
            ClientError::ParseError(msg) => {
                let mut s = String::from_str("⚠️ Parse Error\n\n");
                s.append(msg.as_str());
                s
            },
            ClientError::Unknown(msg) => {
                let mut s = String::from_str("❌ Unknown Error\n\n");
                s.append(msg.as_str());
                s
            },
        }
    }
}

} // verus!
