//! The errors that a mocked server reports.

use vstd::prelude::*;

use crate::address::SocketAddress;

verus! {

/// An error raised by a server mocker.
///
/// Fatal errors come from the setup of the socket and stop the mocker; the
/// others come from one instruction and are reported while the mocker goes on.
/// The `String` of a variant is the text of the underlying I/O error.
#[derive(Debug, Clone, PartialEq, Eq)]
pub enum ServerMockerError {
    UnableToBindListener(SocketAddress, String),
    UnableToGetLocalAddress(String),
    UnableToAcceptConnection(SocketAddress, String),
    UnableToSendInstructions,
    UnableToSetReadTimeout(String),
    UnableToReadTcpStream(String),
    UnableToWriteTcpStream(String),
    UnableToReadUdpStream(String),
    GotSendMessageBeforeReceiveMessage,
    FailedToSendUdpMessage(String),
}

impl ServerMockerError {
    /// Whether the error belongs to the setup of the mocker.
    pub open spec fn fatal(&self) -> bool {
        ||| self is UnableToBindListener
        ||| self is UnableToGetLocalAddress
        ||| self is UnableToAcceptConnection
        ||| self is UnableToSetReadTimeout
    }

    /// Indicate if this is a fatal error.
    pub fn is_fatal(&self) -> (r: bool)
        ensures
            r == self.fatal(),
    {
        match self {
            ServerMockerError::UnableToBindListener(_, _)
            | ServerMockerError::UnableToGetLocalAddress(_)
            | ServerMockerError::UnableToAcceptConnection(_, _)
            | ServerMockerError::UnableToSetReadTimeout(_) => true,
            ServerMockerError::UnableToSendInstructions
            | ServerMockerError::UnableToReadTcpStream(_)
            | ServerMockerError::UnableToWriteTcpStream(_)
            | ServerMockerError::UnableToReadUdpStream(_)
            | ServerMockerError::GotSendMessageBeforeReceiveMessage
            | ServerMockerError::FailedToSendUdpMessage(_) => false,
        }
    }

    /// The word that opens the error's message: "Fatal" or "Non fatal".
    pub fn fatal_str(&self) -> (r: &'static str)
        ensures
            self.fatal() ==> r@ == "Fatal"@,
            !self.fatal() ==> r@ == "Non fatal"@,
    {
        if self.is_fatal() {
            "Fatal"
        } else {
            "Non fatal"
        }
    }
}

} // verus!
