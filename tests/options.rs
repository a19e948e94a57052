use socket_server_mocker::{IpAddress, ServerMockerError, SocketAddress, TcpMocker, UdpMockerOptions};

#[test]
fn tcp_defaults() {
    let o = TcpMocker::default();
    assert_eq!(o.socket_addr, SocketAddress { ip: IpAddress::V4(0x7f00_0001), port: 0 });
    assert_eq!(o.net_timeout_ms, 100);
    assert_eq!(o.rx_timeout_ms, 100);
    assert_eq!(o.reader_buffer_size, 1024);
}

#[test]
fn udp_defaults() {
    let o = UdpMockerOptions::default();
    assert_eq!(o.socket_addr, SocketAddress::loopback(0));
    assert_eq!(o.net_timeout_ms, 100);
    assert_eq!(o.rx_timeout_ms, 100_000);
    assert_eq!(o.max_packet_size, 65507);
}

#[test]
fn port_is_replaced() {
    let a = SocketAddress::loopback(0).with_port(35642);
    assert_eq!(a.port, 35642);
    assert_eq!(a.ip, IpAddress::V4(0x7f00_0001));
}

#[test]
fn fatality_of_each_error() {
    let a = SocketAddress::loopback(1234);
    assert!(ServerMockerError::UnableToBindListener(a, String::new()).is_fatal());
    assert!(ServerMockerError::UnableToGetLocalAddress(String::new()).is_fatal());
    assert!(ServerMockerError::UnableToAcceptConnection(a, String::new()).is_fatal());
    assert!(ServerMockerError::UnableToSetReadTimeout(String::new()).is_fatal());
    assert!(!ServerMockerError::UnableToSendInstructions.is_fatal());
    assert!(!ServerMockerError::UnableToReadTcpStream(String::new()).is_fatal());
    assert!(!ServerMockerError::UnableToWriteTcpStream(String::new()).is_fatal());
    assert!(!ServerMockerError::UnableToReadUdpStream(String::new()).is_fatal());
    assert!(!ServerMockerError::GotSendMessageBeforeReceiveMessage.is_fatal());
    assert!(!ServerMockerError::FailedToSendUdpMessage(String::new()).is_fatal());
}
