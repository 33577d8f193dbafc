//! Error kinds of the library.
use vstd::prelude::*;
use crate::text::{decimal, join2, owned, append_radix};
use vstd::string::StringExecFns;

verus! {

/// Every failure that an operation of this library can report.
#[derive(Debug, Clone)]
pub enum OpenFireError {
    AuthenticationFailed { message: String },
    ConnectionError { message: String },
    XmppProtocolError { message: String },
    ConfigError { message: String },
    TlsError { message: String },
    TimeoutError { seconds: u64 },
    SerializationError { message: String },
    JniError { message: String },
    InvalidCredentials { message: String },
    ServerUnreachable { server: String },
    Unknown { message: String },
}

/// The human-readable text of `e`.
pub open spec fn error_text(e: OpenFireError) -> Seq<char> {
    match e {
        OpenFireError::AuthenticationFailed { message } => "Authentication failed: "@ + message@,
        OpenFireError::ConnectionError { message } => "Connection error: "@ + message@,
        OpenFireError::XmppProtocolError { message } => "XMPP protocol error: "@ + message@,
        OpenFireError::ConfigError { message } => "Configuration error: "@ + message@,
        OpenFireError::TlsError { message } => "TLS/SSL error: "@ + message@,
        OpenFireError::TimeoutError { seconds } => "Timeout error: operation timed out after "@
            + decimal(seconds as nat) + " seconds"@,
        OpenFireError::SerializationError { message } => "Serialization error: "@ + message@,
        OpenFireError::JniError { message } => "JNI error: "@ + message@,
        OpenFireError::InvalidCredentials { message } => "Invalid credentials: "@ + message@,
        OpenFireError::ServerUnreachable { server } => "Server not reachable: "@ + server@,
        OpenFireError::Unknown { message } => "Unknown error: "@ + message@,
    }
}

impl OpenFireError {
    /// The human-readable text of this error.
    pub fn describe(&self) -> (r: String)
        ensures
            r@ == error_text(*self),
    {
        match self {
            OpenFireError::AuthenticationFailed { message } => join2(
                "Authentication failed: ",
                message.as_str(),
            ),
            OpenFireError::ConnectionError { message } => join2(
                "Connection error: ",
                message.as_str(),
            ),
            OpenFireError::XmppProtocolError { message } => join2(
                "XMPP protocol error: ",
                message.as_str(),
            ),
            OpenFireError::ConfigError { message } => join2(
                "Configuration error: ",
                message.as_str(),
            ),
            OpenFireError::TlsError { message } => join2("TLS/SSL error: ", message.as_str()),
            OpenFireError::TimeoutError { seconds } => {
                let mut r = owned("Timeout error: operation timed out after ");
                append_radix(&mut r, *seconds as u128, 10);
                r.append(" seconds");
                r
            },
            OpenFireError::SerializationError { message } => join2(
                "Serialization error: ",
                message.as_str(),
            ),
            OpenFireError::JniError { message } => join2("JNI error: ", message.as_str()),
            OpenFireError::InvalidCredentials { message } => join2(
                "Invalid credentials: ",
                message.as_str(),
            ),
            OpenFireError::ServerUnreachable { server } => join2(
                "Server not reachable: ",
                server.as_str(),
            ),
            OpenFireError::Unknown { message } => join2("Unknown error: ", message.as_str()),
        }
    }
}

} // verus!
