//! Error types of the server, of sending a response and of reading a request.

use vstd::prelude::*;

verus! {

/// Errors at the server level.
#[derive(Clone, Debug, PartialEq, Eq)]
pub enum ServerError {
    /// The transport could not be bound; carries the system's message.
    UdpBind(String),
    /// An unknown or unexpected error.
    Unknown(String),
    /// A datagram could not be read; carries the system's message.
    UdpRead(String),
    /// Any other error.
    Other(String),
}

/// Errors of sending a response.
#[derive(Clone, Debug, PartialEq, Eq)]
pub enum ResponseError {
    /// The transport refused the write; carries the system's message.
    SendError(String),
    /// The context has no transport to write through.
    SocketNotAvailable,
    /// The context has no peer address to write to.
    AddressNotAvailable,
    /// An unknown or unexpected error.
    Unknown,
}

/// Errors of reading a request.
#[derive(Clone, Debug, PartialEq, Eq)]
pub enum RequestError {
    /// The transport refused the read; carries the system's message.
    ReadError(String),
    /// The receive buffer is too small.
    BufferTooSmall,
    /// An unknown or unexpected error.
    Unknown,
}

/// The result of sending a response.
pub type ResponseResult = Result<(), ResponseError>;

/// `prefix` followed by `detail`.
fn labelled(prefix: &str, detail: &String) -> (r: String)
    ensures
        r@ == prefix@ + detail@,
{
    let mut r = String::from_str(prefix);
    r.append(detail.as_str());
    r
}

impl ServerError {
    /// The text that describes the error.
    pub open spec fn text(&self) -> Seq<char> {
        match self {
            ServerError::UdpBind(m) => "Udp bind error: "@ + m@,
            ServerError::Unknown(m) => "Unknown error: "@ + m@,
            ServerError::UdpRead(m) => "Udp read error: "@ + m@,
            ServerError::Other(m) => "Error: "@ + m@,
        }
    }

    /// Describes the error in words, for an error handler.
    pub fn message(&self) -> (r: String)
        ensures
            r@ == self.text(),
    {
        match self {
            ServerError::UdpBind(m) => labelled("Udp bind error: ", m),
            ServerError::Unknown(m) => labelled("Unknown error: ", m),
            ServerError::UdpRead(m) => labelled("Udp read error: ", m),
            ServerError::Other(m) => labelled("Error: ", m),
        }
    }
}

impl ResponseError {
    /// The text that describes the error.
    pub open spec fn text(&self) -> Seq<char> {
        match self {
            ResponseError::SendError(m) => "Response error: "@ + m@,
            ResponseError::SocketNotAvailable => "Socket not available"@,
            ResponseError::AddressNotAvailable => "Address not available"@,
            ResponseError::Unknown => "Unknown"@,
        }
    }

    /// Describes the error in words.
    pub fn message(&self) -> (r: String)
        ensures
            r@ == self.text(),
    {
        match self {
            ResponseError::SendError(m) => labelled("Response error: ", m),
            ResponseError::SocketNotAvailable => String::from_str("Socket not available"),
            ResponseError::AddressNotAvailable => String::from_str("Address not available"),
            ResponseError::Unknown => String::from_str("Unknown"),
        }
    }

    /// The outcome of a response write: success, or the transport's message
    /// as a `SendError`.
    pub fn from_write(outcome: Result<usize, String>) -> (r: ResponseResult)
        ensures
            outcome is Ok ==> r is Ok,
            outcome matches Err(m) ==> r == Err::<(), ResponseError>(ResponseError::SendError(m)),
    {
        match outcome {
            Ok(_) => Ok(()),
            Err(m) => Err(ResponseError::SendError(m)),
        }
    }
}

} // verus!
