//! A programmable network endpoint double.
//!
//! The library holds the verified core of a socket server mocker: the
//! instructions a test author scripts, the error taxonomy, the options of the
//! TCP and UDP mockers, and the connection-driving engine, a state machine that
//! decides, event by event, what the worker thread does on the wire.
//! The sockets, threads and channels that carry those decisions out live
//! around the library.

pub mod address;
pub mod engine;
pub mod error;
pub mod instruction;
pub mod laws;
pub mod options;

pub use address::{IpAddress, SocketAddress};
pub use engine::{Action, Engine, Event, Phase, Reaction, Transport};
pub use error::ServerMockerError;
pub use instruction::Instruction;
pub use options::{TcpMocker, UdpMocker, UdpMockerOptions};
