use socket_server_mocker::{
    Action, Engine, Event, Instruction, IpAddress, Phase, ServerMockerError, SocketAddress,
};

type Respond = fn(Option<Vec<u8>>) -> Option<Vec<u8>>;
type Ins = Instruction<Respond>;

fn started_tcp(chunk: usize) -> Engine<Respond> {
    let mut e = Engine::tcp(chunk);
    let r = e.step(Event::ReadTimeoutSet(Ok(())));
    assert!(matches!(r.action, Action::WaitForInstructions));
    e
}

fn started_udp(max: usize) -> Engine<Respond> {
    let mut e = Engine::udp(max);
    let r = e.step(Event::ReadTimeoutSet(Ok(())));
    assert!(matches!(r.action, Action::WaitForInstructions));
    e
}

fn client() -> SocketAddress {
    SocketAddress { ip: IpAddress::V4(0x7f00_0001), port: 34254 }
}

fn sent_bytes(a: &Action<Respond>) -> Option<(Vec<u8>, Option<SocketAddress>)> {
    match a {
        Action::Send(b, to) => Some((b.clone(), *to)),
        _ => None,
    }
}

fn echo_prefix(last: Option<Vec<u8>>) -> Option<Vec<u8>> {
    let mut s = String::from_utf8(last.unwrap()).unwrap();
    s.truncate(5);
    Some(format!("{s}2 from server").into_bytes())
}

fn nothing(_: Option<Vec<u8>>) -> Option<Vec<u8>> {
    None
}

#[test]
fn tcp_echo_round_trip() {
    let mut e = started_tcp(1024);
    let batch: Vec<Ins> = vec![Instruction::ReceiveMessage, Instruction::SendMessage(b"pong".to_vec())];
    let r = e.step(Event::Instructions(Some(batch)));
    assert!(matches!(r.action, Action::ReadChunk(1024)));
    assert!(r.errors.is_empty());
    let r = e.step(Event::Chunk(Ok(b"ping".to_vec())));
    assert_eq!(r.message, Some(b"ping".to_vec()));
    assert_eq!(sent_bytes(&r.action), Some((b"pong".to_vec(), None)));
    let r = e.step(Event::Sent(Ok(())));
    assert!(matches!(r.action, Action::WaitForInstructions));
    assert_eq!(e.phase(), Phase::AwaitingInstructions);
}

#[test]
fn tcp_simple_exchange_with_max_size_and_computed_reply() {
    let mut e = started_tcp(1024);
    let batch: Vec<Ins> = vec![
        Instruction::ReceiveMessageWithMaxSize(16),
        Instruction::SendMessage(b"hello from server".to_vec()),
    ];
    let r = e.step(Event::Instructions(Some(batch)));
    assert!(matches!(r.action, Action::ReadChunk(1024)));
    let r = e.step(Event::Chunk(Ok(b"hello from client".to_vec())));
    assert_eq!(r.message, Some(b"hello from clien".to_vec()));
    assert_eq!(sent_bytes(&r.action), Some((b"hello from server".to_vec(), None)));
    let r = e.step(Event::Sent(Ok(())));
    assert!(matches!(r.action, Action::WaitForInstructions));

    let batch: Vec<Ins> = vec![
        Instruction::ReceiveMessage,
        Instruction::SendMessageDependingOnLastReceivedMessage(nothing as Respond),
        Instruction::SendMessageDependingOnLastReceivedMessage(echo_prefix as Respond),
        Instruction::StopExchange,
    ];
    let r = e.step(Event::Instructions(Some(batch)));
    assert!(matches!(r.action, Action::ReadChunk(1024)));
    let r = e.step(Event::Chunk(Ok(b"hello2 from client".to_vec())));
    assert_eq!(r.message, Some(b"hello2 from client".to_vec()));
    let (f, input) = match r.action {
        Action::Compute(f, input) => (f, input),
        _ => panic!("expected a computed response"),
    };
    assert_eq!(input, Some(b"hello2 from client".to_vec()));
    let r = e.step(Event::Computed(f(input)));
    assert!(r.errors.is_empty());
    let (g, input) = match r.action {
        Action::Compute(g, input) => (g, input),
        _ => panic!("expected a second computed response"),
    };
    let r = e.step(Event::Computed(g(input)));
    assert_eq!(sent_bytes(&r.action), Some((b"hello2 from server".to_vec(), None)));
    let r = e.step(Event::Sent(Ok(())));
    assert!(matches!(r.action, Action::Terminate));
    assert!(r.errors.is_empty());
    assert_eq!(e.phase(), Phase::Terminated);
}

#[test]
fn tcp_message_spans_full_chunks() {
    let mut e = started_tcp(4);
    let batch: Vec<Ins> = vec![Instruction::ReceiveMessage];
    e.step(Event::Instructions(Some(batch)));
    let r = e.step(Event::Chunk(Ok(vec![1, 2, 3, 4])));
    assert!(matches!(r.action, Action::ReadChunk(4)));
    assert_eq!(r.message, None);
    let r = e.step(Event::Chunk(Ok(vec![5, 6, 7, 8])));
    assert!(matches!(r.action, Action::ReadChunk(4)));
    let r = e.step(Event::Chunk(Ok(vec![9])));
    assert_eq!(r.message, Some(vec![1, 2, 3, 4, 5, 6, 7, 8, 9]));
    assert!(matches!(r.action, Action::WaitForInstructions));
}

#[test]
fn tcp_message_ends_with_empty_read() {
    let mut e = started_tcp(3);
    let batch: Vec<Ins> = vec![Instruction::ReceiveMessageWithMaxSize(4)];
    e.step(Event::Instructions(Some(batch)));
    e.step(Event::Chunk(Ok(vec![1, 2, 3])));
    let r = e.step(Event::Chunk(Ok(vec![])));
    assert_eq!(r.message, Some(vec![1, 2, 3]));
}

#[test]
fn truncation_keeps_first_bytes() {
    let mut e = started_tcp(1024);
    let batch: Vec<Ins> = vec![Instruction::ReceiveMessageWithMaxSize(3)];
    e.step(Event::Instructions(Some(batch)));
    let r = e.step(Event::Chunk(Ok(vec![10, 20, 30, 40, 50])));
    assert_eq!(r.message, Some(vec![10, 20, 30]));

    let mut u = started_udp(65507);
    let batch: Vec<Ins> = vec![Instruction::ReceiveMessageWithMaxSize(3)];
    let r = u.step(Event::Instructions(Some(batch)));
    assert!(matches!(r.action, Action::ReceiveDatagram(3)));
    let r = u.step(Event::Datagram(Ok((client(), vec![10, 20, 30, 40, 50]))));
    assert_eq!(r.message, Some(vec![10, 20, 30]));
}

#[test]
fn order_across_batches() {
    let mut e = started_tcp(1024);
    let first: Vec<Ins> = vec![Instruction::SendMessage(vec![1]), Instruction::ReceiveMessage];
    let r = e.step(Event::Instructions(Some(first)));
    assert_eq!(sent_bytes(&r.action), Some((vec![1], None)));
    let r = e.step(Event::Sent(Ok(())));
    assert!(matches!(r.action, Action::ReadChunk(1024)));
    let r = e.step(Event::Chunk(Ok(vec![2])));
    assert_eq!(r.message, Some(vec![2]));
    assert!(matches!(r.action, Action::WaitForInstructions));
    let second: Vec<Ins> = vec![Instruction::ReceiveMessage, Instruction::SendMessage(vec![3])];
    let r = e.step(Event::Instructions(Some(second)));
    assert!(matches!(r.action, Action::ReadChunk(1024)));
    let r = e.step(Event::Chunk(Ok(vec![4])));
    assert_eq!(r.message, Some(vec![4]));
    assert_eq!(sent_bytes(&r.action), Some((vec![3], None)));
}

#[test]
fn stop_skips_later_instructions() {
    let mut e = started_tcp(1024);
    let batch: Vec<Ins> = vec![Instruction::StopExchange, Instruction::SendMessage(vec![1])];
    let r = e.step(Event::Instructions(Some(batch)));
    assert!(matches!(r.action, Action::Terminate));
    assert_eq!(e.phase(), Phase::Terminated);
    assert!(!e.accepts(&Event::Instructions(Some(vec![Instruction::SendMessage(vec![2])]))));
    assert!(!e.accepts(&Event::Sent(Ok(()))));
}

#[test]
fn udp_send_before_receive_is_reported() {
    let mut u = started_udp(65507);
    let batch: Vec<Ins> = vec![Instruction::SendMessage(b"hello from server".to_vec())];
    let r = u.step(Event::Instructions(Some(batch)));
    assert_eq!(r.errors, vec![ServerMockerError::GotSendMessageBeforeReceiveMessage]);
    assert!(!r.errors[0].is_fatal());
    assert_eq!(r.errors[0].fatal_str(), "Non fatal");
    assert!(matches!(r.action, Action::WaitForInstructions));
}

#[test]
fn udp_sends_go_to_last_sender() {
    let mut u = started_udp(65507);
    let batch: Vec<Ins> = vec![
        Instruction::ReceiveMessageWithMaxSize(32),
        Instruction::SendMessage(b"hello from server".to_vec()),
        Instruction::SendMessageDependingOnLastReceivedMessage(nothing as Respond),
        Instruction::SendMessageDependingOnLastReceivedMessage(echo_prefix as Respond),
    ];
    let r = u.step(Event::Instructions(Some(batch)));
    assert!(matches!(r.action, Action::ReceiveDatagram(32)));
    let r = u.step(Event::Datagram(Ok((client(), b"hello from client".to_vec()))));
    assert_eq!(r.message, Some(b"hello from client".to_vec()));
    assert_eq!(sent_bytes(&r.action), Some((b"hello from server".to_vec(), Some(client()))));
    let r = u.step(Event::Sent(Ok(())));
    let (f, input) = match r.action {
        Action::Compute(f, input) => (f, input),
        _ => panic!("expected a computed response"),
    };
    let r = u.step(Event::Computed(f(input)));
    let (g, input) = match r.action {
        Action::Compute(g, input) => (g, input),
        _ => panic!("expected a second computed response"),
    };
    let r = u.step(Event::Computed(g(input)));
    assert_eq!(sent_bytes(&r.action), Some((b"hello2 from server".to_vec(), Some(client()))));
}

#[test]
fn udp_receive_uses_largest_datagram_buffer() {
    let mut u = started_udp(1000);
    let batch: Vec<Ins> = vec![Instruction::ReceiveMessage];
    let r = u.step(Event::Instructions(Some(batch)));
    assert!(matches!(r.action, Action::ReceiveDatagram(65507)));
    let mut big = started_udp(70000);
    let batch: Vec<Ins> = vec![Instruction::ReceiveMessage];
    let r = big.step(Event::Instructions(Some(batch)));
    assert!(matches!(r.action, Action::ReceiveDatagram(70000)));
}

#[test]
fn receive_timeout_gives_one_non_fatal_error() {
    let mut e = started_tcp(1024);
    let batch: Vec<Ins> = vec![Instruction::ReceiveMessage];
    e.step(Event::Instructions(Some(batch)));
    let r = e.step(Event::Chunk(Err("timed out".to_string())));
    assert_eq!(r.errors, vec![ServerMockerError::UnableToReadTcpStream("timed out".to_string())]);
    assert!(!r.errors[0].is_fatal());
    assert_eq!(r.message, None);
    assert!(matches!(r.action, Action::WaitForInstructions));

    let mut u = started_udp(65507);
    let batch: Vec<Ins> = vec![Instruction::ReceiveMessageWithMaxSize(32)];
    u.step(Event::Instructions(Some(batch)));
    let r = u.step(Event::Datagram(Err("timed out".to_string())));
    assert_eq!(r.errors, vec![ServerMockerError::UnableToReadUdpStream("timed out".to_string())]);
    assert!(!r.errors[0].is_fatal());
}

#[test]
fn conditional_response_sees_last_message() {
    let mut e = started_tcp(1024);
    let batch: Vec<Ins> = vec![Instruction::SendMessageDependingOnLastReceivedMessage(nothing as Respond)];
    let r = e.step(Event::Instructions(Some(batch)));
    match r.action {
        Action::Compute(_, input) => assert_eq!(input, None),
        _ => panic!("expected a computed response"),
    }
    let r = e.step(Event::Computed(None));
    assert!(matches!(r.action, Action::WaitForInstructions));
    assert!(r.errors.is_empty());
}

#[test]
fn write_failure_is_reported_and_run_goes_on() {
    let mut e = started_tcp(1024);
    let batch: Vec<Ins> = vec![Instruction::SendMessage(vec![1]), Instruction::SendMessage(vec![2])];
    e.step(Event::Instructions(Some(batch)));
    let r = e.step(Event::Sent(Err("broken pipe".to_string())));
    assert_eq!(r.errors, vec![ServerMockerError::UnableToWriteTcpStream("broken pipe".to_string())]);
    assert_eq!(sent_bytes(&r.action), Some((vec![2], None)));
}

#[test]
fn failed_read_timeout_is_fatal_and_stops() {
    let mut e: Engine<Respond> = Engine::tcp(1024);
    assert_eq!(e.phase(), Phase::Starting);
    let r = e.step(Event::ReadTimeoutSet(Err("invalid".to_string())));
    assert_eq!(r.errors, vec![ServerMockerError::UnableToSetReadTimeout("invalid".to_string())]);
    assert!(r.errors[0].is_fatal());
    assert_eq!(r.errors[0].fatal_str(), "Fatal");
    assert!(matches!(r.action, Action::Terminate));
}

#[test]
fn starvation_stops_silently() {
    let mut e = started_tcp(1024);
    let r = e.step(Event::Instructions(None));
    assert!(matches!(r.action, Action::Terminate));
    assert!(r.errors.is_empty());
    assert_eq!(e.phase(), Phase::Terminated);
}

#[test]
fn empty_batch_waits_again() {
    let mut e = started_tcp(1024);
    let r = e.step(Event::Instructions(Some(Vec::new())));
    assert!(matches!(r.action, Action::WaitForInstructions));
}

#[test]
fn udp_order_within_batch() {
    let mut u = started_udp(65507);
    let first: Vec<Ins> = vec![Instruction::ReceiveMessage];
    u.step(Event::Instructions(Some(first)));
    u.step(Event::Datagram(Ok((client(), vec![0]))));
    let batch: Vec<Ins> = vec![
        Instruction::SendMessage(vec![1]),
        Instruction::ReceiveMessage,
        Instruction::SendMessage(vec![3]),
    ];
    let r = u.step(Event::Instructions(Some(batch)));
    assert_eq!(sent_bytes(&r.action), Some((vec![1], Some(client()))));
    let r = u.step(Event::Sent(Ok(())));
    assert!(matches!(r.action, Action::ReceiveDatagram(65507)));
    let r = u.step(Event::Datagram(Ok((client(), vec![2]))));
    assert_eq!(r.message, Some(vec![2]));
    assert_eq!(sent_bytes(&r.action), Some((vec![3], Some(client()))));
    let r = u.step(Event::Sent(Ok(())));
    assert!(matches!(r.action, Action::WaitForInstructions));
}
