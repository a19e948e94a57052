//! Options of the TCP and UDP mockers.

use vstd::prelude::*;

use crate::address::{IpAddress, SocketAddress, LOOPBACK_V4};

verus! {

/// Default time, in milliseconds, that the mocker waits for data from the client.
pub const DEFAULT_NET_TIMEOUT_MS: u64 = 100;

/// Default time, in milliseconds, that a TCP worker waits for more instructions.
pub const DEFAULT_TCP_RX_TIMEOUT_MS: u64 = 100;

/// Default time, in milliseconds, that a UDP worker waits for more instructions.
pub const DEFAULT_UDP_RX_TIMEOUT_MS: u64 = 100_000;

/// Default size of the chunks in which a TCP message is read.
pub const DEFAULT_READER_BUFFER_SIZE: usize = 1024;

/// Largest payload of a UDP datagram, from RFC 768.
pub const MAX_UDP_PACKET_SIZE: usize = 65507;

/// Options of a TCP mocker.
#[derive(Debug, Clone)]
pub struct TcpMocker {
    /// Address on which the server listens; `127.0.0.1:0` by default.
    pub socket_addr: SocketAddress,
    /// Time, in milliseconds, that the server waits for a message from the client.
    pub net_timeout_ms: u64,
    /// Time, in milliseconds, that the server waits for more instructions
    /// before it stops on its own.
    pub rx_timeout_ms: u64,
    /// Size of the chunks in which a message is read.
    pub reader_buffer_size: usize,
}

/// Options of a UDP mocker.
#[derive(Debug, Clone)]
pub struct UdpMockerOptions {
    /// Address on which the server listens; `127.0.0.1:0` by default.
    pub socket_addr: SocketAddress,
    /// Time, in milliseconds, that the server waits for a datagram from the client.
    pub net_timeout_ms: u64,
    /// Time, in milliseconds, that the server waits for more instructions
    /// before it stops on its own.
    pub rx_timeout_ms: u64,
    /// Largest datagram that the server receives in full.
    pub max_packet_size: usize,
}

/// The options of a UDP mocker, under a shorter name.
pub type UdpMocker = UdpMockerOptions;

impl Default for TcpMocker {
    fn default() -> (r: TcpMocker)
        ensures
            r.socket_addr == (SocketAddress { ip: IpAddress::V4(LOOPBACK_V4), port: 0 }),
            r.net_timeout_ms == DEFAULT_NET_TIMEOUT_MS,
            r.rx_timeout_ms == DEFAULT_TCP_RX_TIMEOUT_MS,
            r.reader_buffer_size == DEFAULT_READER_BUFFER_SIZE,
    {
        TcpMocker {
            socket_addr: SocketAddress::loopback(0),
            net_timeout_ms: DEFAULT_NET_TIMEOUT_MS,
            rx_timeout_ms: DEFAULT_TCP_RX_TIMEOUT_MS,
            reader_buffer_size: DEFAULT_READER_BUFFER_SIZE,
        }
    }
}

impl Default for UdpMockerOptions {
    fn default() -> (r: UdpMockerOptions)
        ensures
            r.socket_addr == (SocketAddress { ip: IpAddress::V4(LOOPBACK_V4), port: 0 }),
            r.net_timeout_ms == DEFAULT_NET_TIMEOUT_MS,
            r.rx_timeout_ms == DEFAULT_UDP_RX_TIMEOUT_MS,
            r.max_packet_size == MAX_UDP_PACKET_SIZE,
    {
        UdpMockerOptions {
            socket_addr: SocketAddress::loopback(0),
            net_timeout_ms: DEFAULT_NET_TIMEOUT_MS,
            rx_timeout_ms: DEFAULT_UDP_RX_TIMEOUT_MS,
            max_packet_size: MAX_UDP_PACKET_SIZE,
        }
    }
}

} // verus!
