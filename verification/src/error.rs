//! What can go wrong with a client or a query.

use vstd::prelude::*;
use vstd::string::to_string_from_display_ensures;

verus! {

/// Text of `ClientError::BlockingNotEnabled`.
pub const BLOCKING_NOT_ENABLED: &'static str = "Blocking is not enabled";

/// Text of `ClientError::AddressParse`.
pub const ADDRESS_PARSE_FAILED: &'static str = "Failed to parse IP address";

/// An error of the client. Nothing is retried or logged: each failure goes
/// to the caller as one of these, and no query gives part of a record.
#[derive(Debug)]
pub enum ClientError {
    /// The client could not be built: the proxy URI of the setting is not
    /// valid, or the transport layer could not be set up.
    Construction(reqwest::Error),
    /// A blocking query was made on a client built without blocking. No
    /// request was attempted.
    BlockingNotEnabled,
    /// The exchange with the server failed: name resolution, connection,
    /// timeout, TLS. The transport's error is kept as it came.
    Transport(reqwest::Error),
    /// The body is not the JSON that the query expects. This is also what
    /// comes of an answer in the shape of `ErrorResponse`.
    Deserialize(reqwest::Error),
    /// The answer was well formed, but the address in it is no IP literal.
    AddressParse,
}

/// The error of an exchange that failed with `cause`, given whether the
/// transport calls it a decoding error and whether it goes back to a
/// timeout. A decoding error is a deserialization error, unless a timeout
/// is behind it: a timeout is a transport error wherever it struck, also
/// while the body was read.
pub open spec fn exchange_error(cause: reqwest::Error, decode: bool, timeout: bool) -> ClientError {
    if decode && !timeout {
        ClientError::Deserialize(cause)
    } else {
        ClientError::Transport(cause)
    }
}

impl ClientError {
    /// The error of an exchange that failed with `cause`: `Deserialize`
    /// where `decode` holds and `timeout` does not, `Transport` otherwise.
    pub fn of_exchange(cause: reqwest::Error, decode: bool, timeout: bool) -> (e: ClientError)
        ensures
            e == exchange_error(cause, decode, timeout),
    {
        if decode && !timeout {
            ClientError::Deserialize(cause)
        } else {
            ClientError::Transport(cause)
        }
    }

    /// The text of the error: the transport's own words where it holds a
    /// transport error, and a fixed sentence otherwise.
    pub fn message(&self) -> (text: String)
        ensures
            match *self {
                ClientError::BlockingNotEnabled => text@ == BLOCKING_NOT_ENABLED@,
                ClientError::AddressParse => text@ == ADDRESS_PARSE_FAILED@,
                ClientError::Construction(e)
                | ClientError::Transport(e)
                | ClientError::Deserialize(e) => to_string_from_display_ensures::<reqwest::Error>(
                    &e,
                    text,
                ),
            },
    {
        match self {
            ClientError::BlockingNotEnabled => BLOCKING_NOT_ENABLED.to_string(),
            ClientError::AddressParse => ADDRESS_PARSE_FAILED.to_string(),
            ClientError::Construction(e) => e.to_string(),
            ClientError::Transport(e) => e.to_string(),
            ClientError::Deserialize(e) => e.to_string(),
        }
    }
}

} // verus!
