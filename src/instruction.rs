//! The instructions that script a mocked server.

use vstd::prelude::*;

verus! {

/// One action of the mocked server, executed by the engine in the order the
/// instructions were submitted.
///
/// `F` is the type of the function that computes a response from the last
/// received message, usually `fn(Option<Vec<u8>>) -> Option<Vec<u8>>`.
#[derive(Debug, Clone, PartialEq)]
pub enum Instruction<F> {
    /// Send the given message to the client.
    SendMessage(Vec<u8>),
    /// Send the message that the function computes from the last received
    /// message (`None` if nothing was received yet); send nothing if it
    /// returns `None`.
    SendMessageDependingOnLastReceivedMessage(F),
    /// Wait for one message from the client and forward it to the controller.
    ReceiveMessage,
    /// Like `ReceiveMessage`, keeping only the first bytes of the message, up
    /// to the given size.
    ReceiveMessageWithMaxSize(usize),
    /// End the exchange; a TCP connection is closed.
    StopExchange,
}

} // verus!
