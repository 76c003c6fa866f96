use vstd::prelude::*;

verus! {

/// The failure classes of the log-query client. Every fallible operation of
/// the library and of the surrounding process reports one of these.
#[derive(Clone, Copy, PartialEq, Eq, Structural, Debug)]
pub enum LogError {
    /// A required environment input (home directory or username) was absent.
    ConfigError,
    /// A credential file could not be read.
    IoError,
    /// The credential bytes could not be parsed as a certificate/key pair.
    TlsError,
    /// The request could not be sent: connection, handshake or timeout failure.
    NetworkError,
    /// The response body was not a parseable document, or a timestamp in it
    /// was not representable as an unsigned 64-bit integer.
    ParseError,
}

/// What `LogError::message` returns for each failure class.
pub open spec fn message_spec(e: LogError) -> Seq<char> {
    match e {
        LogError::ConfigError => "required environment input is not set"@,
        LogError::IoError => "credential file could not be read"@,
        LogError::TlsError => "credential bytes are not a valid certificate/key pair"@,
        LogError::NetworkError => "request could not be sent"@,
        LogError::ParseError => "response could not be parsed"@,
    }
}

impl LogError {
    /// A human-readable description of the failure, for the caller to print.
    pub fn message(&self) -> (r: &'static str)
        ensures
            r@ == message_spec(*self),
    {
        match self {
            LogError::ConfigError => "required environment input is not set",
            LogError::IoError => "credential file could not be read",
            LogError::TlsError => "credential bytes are not a valid certificate/key pair",
            LogError::NetworkError => "request could not be sent",
            LogError::ParseError => "response could not be parsed",
        }
    }
}

} // verus!
