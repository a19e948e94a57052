//! The connection-driving engine.
//!
//! The worker thread of a mocker owns one `Engine`. The engine never touches
//! the network itself: each call of `step` takes the outcome of the last thing
//! the worker did (an `Event`) and answers with what to do next (an `Action`),
//! together with the message to forward to the controller and the errors to
//! report, if any. A worker starts with `Action::SetReadTimeout` and runs
//! until it is told `Action::Terminate`.

use vstd::prelude::*;

use crate::address::SocketAddress;
use crate::error::ServerMockerError;
use crate::instruction::Instruction;
use crate::options::MAX_UDP_PACKET_SIZE;

verus! {

/// The transport that an engine drives.
#[derive(Debug, Clone, Copy, PartialEq, Eq, Structural)]
pub enum Transport {
    /// One persistent stream; a message is read in chunks.
    Tcp,
    /// Datagrams; replies go to the sender of the last received one.
    Udp,
}

/// What the engine is waiting for.
#[derive(Debug, Clone, Copy, PartialEq, Eq, Structural)]
pub enum Phase {
    /// The outcome of setting the read timeout of the socket.
    Starting,
    /// The next batch of instructions.
    AwaitingInstructions,
    /// The next chunk of a TCP message.
    Reading,
    /// A UDP datagram.
    Receiving,
    /// The outcome of a send.
    Sending,
    /// The response computed from the last received message.
    Computing,
    /// Nothing: the engine has stopped.
    Terminated,
}

/// What the worker does next.
pub enum Action<F> {
    /// Set the read timeout of the socket, then report `Event::ReadTimeoutSet`.
    SetReadTimeout,
    /// Wait for the next batch of instructions, then report `Event::Instructions`.
    WaitForInstructions,
    /// Read once from the stream into a buffer of the given size, then report
    /// `Event::Chunk` with the bytes read.
    ReadChunk(usize),
    /// Receive one datagram into a buffer of the given size, then report
    /// `Event::Datagram`.
    ReceiveDatagram(usize),
    /// Write the bytes, on the stream (no address) or to the given peer, then
    /// report `Event::Sent`.
    Send(Vec<u8>, Option<SocketAddress>),
    /// Call the function on the last received message, then report
    /// `Event::Computed` with its result.
    Compute(F, Option<Vec<u8>>),
    /// Stop the worker; a TCP connection is closed.
    Terminate,
}

/// The outcome of an action.
pub enum Event<F> {
    /// The read timeout was set, or the text of the failure.
    ReadTimeoutSet(Result<(), String>),
    /// The next batch, or `None` if none came in time or the controller is gone.
    Instructions(Option<Vec<Instruction<F>>>),
    /// The bytes of one read from the stream, or the text of the failure.
    Chunk(Result<Vec<u8>, String>),
    /// The sender and the bytes of a datagram, or the text of the failure.
    Datagram(Result<(SocketAddress, Vec<u8>), String>),
    /// The bytes were sent, or the text of the failure.
    Sent(Result<(), String>),
    /// What the response function returned.
    Computed(Option<Vec<u8>>),
}

/// The engine's answer to an event.
pub struct Reaction<F> {
    /// A received message to forward to the controller.
    pub message: Option<Vec<u8>>,
    /// Errors to report to the controller, in order.
    pub errors: Vec<ServerMockerError>,
    /// What the worker does next.
    pub action: Action<F>,
}

/// An action, with byte sequences in place of vectors.
pub enum ActionModel<F> {
    SetReadTimeout,
    WaitForInstructions,
    ReadChunk(nat),
    ReceiveDatagram(nat),
    Send(Seq<u8>, Option<SocketAddress>),
    Compute(F, Option<Seq<u8>>),
    Terminate,
}

/// An event, with byte sequences in place of vectors.
pub enum EventModel<F> {
    ReadTimeoutSet(Result<(), String>),
    Instructions(Option<Seq<Instruction<F>>>),
    Chunk(Result<Seq<u8>, String>),
    Datagram(Result<(SocketAddress, Seq<u8>), String>),
    Sent(Result<(), String>),
    Computed(Option<Seq<u8>>),
}

/// A reaction, with byte sequences in place of vectors.
pub struct ReactionModel<F> {
    pub message: Option<Seq<u8>>,
    pub errors: Seq<ServerMockerError>,
    pub action: ActionModel<F>,
}

/// The state of an engine.
pub struct EngineModel<F> {
    pub transport: Transport,
    /// Size of the chunks in which a TCP message is read.
    pub chunk_size: nat,
    /// Configured largest UDP datagram.
    pub max_datagram: nat,
    pub phase: Phase,
    /// What is left of the current batch, next instruction first.
    pub queue: Seq<Instruction<F>>,
    /// The last received message.
    pub last: Option<Seq<u8>>,
    /// The sender of the last received datagram.
    pub peer: Option<SocketAddress>,
    /// The bytes of the TCP message read so far.
    pub partial: Seq<u8>,
    /// The size to which the message being received is cut.
    pub limit: Option<nat>,
}

pub open spec fn bytes_of(o: Option<Vec<u8>>) -> Option<Seq<u8>> {
    match o {
        Some(v) => Some(v@),
        None => None,
    }
}

impl<F> Action<F> {
    pub open spec fn view(&self) -> ActionModel<F> {
        match self {
            Action::SetReadTimeout => ActionModel::SetReadTimeout,
            Action::WaitForInstructions => ActionModel::WaitForInstructions,
            Action::ReadChunk(n) => ActionModel::ReadChunk(*n as nat),
            Action::ReceiveDatagram(n) => ActionModel::ReceiveDatagram(*n as nat),
            Action::Send(b, a) => ActionModel::Send(b@, *a),
            Action::Compute(f, m) => ActionModel::Compute(*f, bytes_of(*m)),
            Action::Terminate => ActionModel::Terminate,
        }
    }
}

impl<F> Event<F> {
    pub open spec fn view(&self) -> EventModel<F> {
        match self {
            Event::ReadTimeoutSet(r) => EventModel::ReadTimeoutSet(*r),
            Event::Instructions(b) => EventModel::Instructions(
                match b {
                    Some(v) => Some(v@),
                    None => None,
                },
            ),
            Event::Chunk(r) => EventModel::Chunk(
                match r {
                    Ok(v) => Ok(v@),
                    Err(e) => Err(*e),
                },
            ),
            Event::Datagram(r) => EventModel::Datagram(
                match r {
                    Ok((a, v)) => Ok((*a, v@)),
                    Err(e) => Err(*e),
                },
            ),
            Event::Sent(r) => EventModel::Sent(*r),
            Event::Computed(m) => EventModel::Computed(bytes_of(*m)),
        }
    }
}

impl<F> Reaction<F> {
    pub open spec fn view(&self) -> ReactionModel<F> {
        ReactionModel { message: bytes_of(self.message), errors: self.errors@, action: self.action@ }
    }

    /// A reaction that only names the next action.
    pub fn only(action: Action<F>) -> (r: Reaction<F>)
        ensures
            r@ == only(action@),
    {
        Reaction { message: None, errors: Vec::new(), action }
    }
}

/// A reaction that only names the next action.
pub open spec fn only<F>(action: ActionModel<F>) -> ReactionModel<F> {
    ReactionModel { message: None, errors: Seq::empty(), action }
}

/// A message cut to at most `limit` bytes.
pub open spec fn truncated(s: Seq<u8>, limit: Option<nat>) -> Seq<u8> {
    match limit {
        Some(n) => if s.len() > n {
            s.take(n as int)
        } else {
            s
        },
        None => s,
    }
}

/// The size of the buffer into which a datagram is received: the limit of the
/// instruction if it has one, else the larger of the configured size and the
/// largest UDP payload.
pub open spec fn datagram_buffer_size(max_datagram: nat, limit: Option<nat>) -> nat {
    match limit {
        Some(n) => n,
        None => if max_datagram > MAX_UDP_PACKET_SIZE {
            max_datagram
        } else {
            MAX_UDP_PACKET_SIZE as nat
        },
    }
}

/// The error of a failed write on the given transport.
pub open spec fn write_failure(t: Transport, e: String) -> ServerMockerError {
    match t {
        Transport::Tcp => ServerMockerError::UnableToWriteTcpStream(e),
        Transport::Udp => ServerMockerError::FailedToSendUdpMessage(e),
    }
}

impl<F> EngineModel<F> {
    /// A fresh engine, before its socket is set up.
    pub open spec fn initial(t: Transport, chunk_size: nat, max_datagram: nat) -> EngineModel<F> {
        EngineModel {
            transport: t,
            chunk_size,
            max_datagram,
            phase: Phase::Starting,
            queue: Seq::empty(),
            last: None,
            peer: None,
            partial: Seq::empty(),
            limit: None,
        }
    }

    /// Whether the event answers the action the engine waits on.
    pub open spec fn accepts(self, ev: EventModel<F>) -> bool {
        match ev {
            EventModel::ReadTimeoutSet(_) => self.phase == Phase::Starting,
            EventModel::Instructions(_) => self.phase == Phase::AwaitingInstructions,
            EventModel::Chunk(_) => self.phase == Phase::Reading,
            EventModel::Datagram(_) => self.phase == Phase::Receiving,
            EventModel::Sent(_) => self.phase == Phase::Sending,
            EventModel::Computed(_) => self.phase == Phase::Computing,
        }
    }

    /// A send has nowhere to go: UDP, and no datagram received yet.
    pub open spec fn no_destination(self) -> bool {
        self.transport == Transport::Udp && self.peer is None
    }

    /// Where a send goes: the stream for TCP, the last sender for UDP.
    pub open spec fn destination(self) -> Option<SocketAddress> {
        match self.transport {
            Transport::Tcp => None,
            Transport::Udp => self.peer,
        }
    }

    pub open spec fn with_phase(self, p: Phase) -> EngineModel<F> {
        EngineModel { phase: p, ..self }
    }

    /// Start receiving one message, cut to `limit`.
    pub open spec fn begin_receive(self, limit: Option<nat>) -> (EngineModel<F>, ActionModel<F>) {
        match self.transport {
            Transport::Tcp => (
                EngineModel { phase: Phase::Reading, partial: Seq::empty(), limit, ..self },
                ActionModel::ReadChunk(self.chunk_size),
            ),
            Transport::Udp => (
                EngineModel { phase: Phase::Receiving, limit, ..self },
                ActionModel::ReceiveDatagram(datagram_buffer_size(self.max_datagram, limit)),
            ),
        }
    }

    /// Take instructions from the front of the queue until one needs the
    /// worker: the new state, the errors met on the way, and the action.
    /// A UDP send with no destination is reported and skipped; an empty queue
    /// waits for the next batch.
    pub open spec fn advance(self) -> (EngineModel<F>, Seq<ServerMockerError>, ActionModel<F>)
        decreases self.queue.len(),
    {
        if self.queue.len() == 0 {
            let m = self.with_phase(Phase::AwaitingInstructions);
            (m, Seq::empty(), ActionModel::WaitForInstructions)
        } else {
            let rest = EngineModel { queue: self.queue.drop_first(), ..self };
            match self.queue[0] {
                Instruction::SendMessage(b) => if self.no_destination() {
                    let (m, e, a) = rest.advance();
                    (m, seq![ServerMockerError::GotSendMessageBeforeReceiveMessage] + e, a)
                } else {
                    let a = ActionModel::Send(b@, self.destination());
                    (rest.with_phase(Phase::Sending), Seq::empty(), a)
                },
                Instruction::SendMessageDependingOnLastReceivedMessage(f) => (
                    rest.with_phase(Phase::Computing),
                    Seq::empty(),
                    ActionModel::Compute(f, self.last),
                ),
                Instruction::ReceiveMessage => {
                    let (m, a) = rest.begin_receive(None);
                    (m, Seq::empty(), a)
                },
                Instruction::ReceiveMessageWithMaxSize(n) => {
                    let (m, a) = rest.begin_receive(Some(n as nat));
                    (m, Seq::empty(), a)
                },
                Instruction::StopExchange => (
                    rest.with_phase(Phase::Terminated),
                    Seq::empty(),
                    ActionModel::Terminate,
                ),
            }
        }
    }

    /// Report `message` and `errors`, then go on with the queue.
    pub open spec fn go_on(self, message: Option<Seq<u8>>, errors: Seq<ServerMockerError>) -> (
        EngineModel<F>,
        ReactionModel<F>,
    ) {
        let (m, e, a) = self.advance();
        (m, ReactionModel { message, errors: errors + e, action: a })
    }

    /// The engine's answer to an event that it accepts.
    pub open spec fn step(self, ev: EventModel<F>) -> (EngineModel<F>, ReactionModel<F>) {
        match ev {
            EventModel::ReadTimeoutSet(Ok(_)) => (
                self.with_phase(Phase::AwaitingInstructions),
                only(ActionModel::WaitForInstructions),
            ),
            EventModel::ReadTimeoutSet(Err(e)) => (
                self.with_phase(Phase::Terminated),
                ReactionModel {
                    message: None,
                    errors: seq![ServerMockerError::UnableToSetReadTimeout(e)],
                    action: ActionModel::Terminate,
                },
            ),
            EventModel::Instructions(None) => (
                self.with_phase(Phase::Terminated),
                only(ActionModel::Terminate),
            ),
            EventModel::Instructions(Some(b)) => {
                EngineModel { queue: b, ..self }.go_on(None, Seq::empty())
            },
            EventModel::Chunk(Err(e)) => {
                self.go_on(None, seq![ServerMockerError::UnableToReadTcpStream(e)])
            },
            EventModel::Chunk(Ok(c)) => if c.len() >= self.chunk_size {
                (
                    EngineModel { partial: self.partial + c, ..self },
                    only(ActionModel::ReadChunk(self.chunk_size)),
                )
            } else {
                let msg = truncated(self.partial + c, self.limit);
                let m = EngineModel { last: Some(msg), partial: Seq::empty(), ..self };
                m.go_on(Some(msg), Seq::empty())
            },
            EventModel::Datagram(Err(e)) => {
                self.go_on(None, seq![ServerMockerError::UnableToReadUdpStream(e)])
            },
            EventModel::Datagram(Ok((from, d))) => {
                let msg = truncated(d, self.limit);
                let m = EngineModel { last: Some(msg), peer: Some(from), ..self };
                m.go_on(Some(msg), Seq::empty())
            },
            EventModel::Sent(Ok(_)) => self.go_on(None, Seq::empty()),
            EventModel::Sent(Err(e)) => self.go_on(None, seq![write_failure(self.transport, e)]),
            EventModel::Computed(None) => self.go_on(None, Seq::empty()),
            EventModel::Computed(Some(b)) => if self.no_destination() {
                self.go_on(None, seq![ServerMockerError::GotSendMessageBeforeReceiveMessage])
            } else {
                (
                    self.with_phase(Phase::Sending),
                    only(ActionModel::Send(b, self.destination())),
                )
            },
        }
    }
}

/// A copy of a byte vector.
fn copy_bytes(v: &Vec<u8>) -> (r: Vec<u8>)
    ensures
        r@ == v@,
{
    let r = v.clone();
    assert(r@ =~= v@);
    r
}

/// A vector that holds one error.
fn one_error(e: ServerMockerError) -> (r: Vec<ServerMockerError>)
    ensures
        r@ == seq![e],
{
    let mut r = Vec::new();
    r.push(e);
    assert(r@ =~= seq![e]);
    r
}

/// The state machine that drives one mocked connection.
pub struct Engine<F> {
    transport: Transport,
    chunk_size: usize,
    max_datagram: usize,
    phase: Phase,
    queue: Vec<Instruction<F>>,
    last: Option<Vec<u8>>,
    peer: Option<SocketAddress>,
    partial: Vec<u8>,
    limit: Option<usize>,
}

impl<F> Engine<F> {
    pub closed spec fn view(&self) -> EngineModel<F> {
        EngineModel {
            transport: self.transport,
            chunk_size: self.chunk_size as nat,
            max_datagram: self.max_datagram as nat,
            phase: self.phase,
            queue: self.queue@,
            last: bytes_of(self.last),
            peer: self.peer,
            partial: self.partial@,
            limit: match self.limit {
                Some(n) => Some(n as nat),
                None => None,
            },
        }
    }

    /// An engine for one TCP connection, reading messages in chunks of
    /// `chunk_size` bytes.
    pub fn tcp(chunk_size: usize) -> (r: Engine<F>)
        ensures
            r@ == EngineModel::<F>::initial(Transport::Tcp, chunk_size as nat, 0),
    {
        Engine {
            transport: Transport::Tcp,
            chunk_size,
            max_datagram: 0,
            phase: Phase::Starting,
            queue: Vec::new(),
            last: None,
            peer: None,
            partial: Vec::new(),
            limit: None,
        }
    }

    /// An engine for one UDP socket, whose datagrams are received whole up to
    /// `max_datagram` bytes, and at least up to the largest UDP payload.
    pub fn udp(max_datagram: usize) -> (r: Engine<F>)
        ensures
            r@ == EngineModel::<F>::initial(Transport::Udp, 0, max_datagram as nat),
    {
        Engine {
            transport: Transport::Udp,
            chunk_size: 0,
            max_datagram,
            phase: Phase::Starting,
            queue: Vec::new(),
            last: None,
            peer: None,
            partial: Vec::new(),
            limit: None,
        }
    }

    /// What the engine waits for.
    pub fn phase(&self) -> (r: Phase)
        ensures
            r == self@.phase,
    {
        self.phase
    }

    /// Whether `step` takes this event now.
    pub fn accepts(&self, ev: &Event<F>) -> (r: bool)
        ensures
            r == self@.accepts(ev@),
    {
        match ev {
            Event::ReadTimeoutSet(_) => self.phase == Phase::Starting,
            Event::Instructions(_) => self.phase == Phase::AwaitingInstructions,
            Event::Chunk(_) => self.phase == Phase::Reading,
            Event::Datagram(_) => self.phase == Phase::Receiving,
            Event::Sent(_) => self.phase == Phase::Sending,
            Event::Computed(_) => self.phase == Phase::Computing,
        }
    }

    fn begin_receive(&mut self, limit: Option<usize>) -> (r: Action<F>)
        ensures
            ({
                let lim = match limit {
                    Some(n) => Some(n as nat),
                    None => None,
                };
                (final(self)@, r@) == old(self)@.begin_receive(lim)
            }),
    {
        self.limit = limit;
        match self.transport {
            Transport::Tcp => {
                self.phase = Phase::Reading;
                self.partial = Vec::new();
                Action::ReadChunk(self.chunk_size)
            },
            Transport::Udp => {
                self.phase = Phase::Receiving;
                let size = match limit {
                    Some(n) => n,
                    None => if self.max_datagram > MAX_UDP_PACKET_SIZE {
                        self.max_datagram
                    } else {
                        MAX_UDP_PACKET_SIZE
                    },
                };
                Action::ReceiveDatagram(size)
            },
        }
    }

    /// Run the queue until an instruction needs the worker.
    fn advance(&mut self, errors: &mut Vec<ServerMockerError>) -> (r: Action<F>)
        ensures
            ({
                let (m, e, a) = old(self)@.advance();
                &&& final(self)@ == m
                &&& final(errors)@ == old(errors)@ + e
                &&& r@ == a
            }),
    {
        loop
            invariant
                ({
                    let (m, e, a) = self@.advance();
                    let (m0, e0, a0) = old(self)@.advance();
                    &&& m == m0
                    &&& a == a0
                    &&& old(errors)@ + e0 == errors@ + e
                }),
            decreases self.queue.len(),
        {
            if self.queue.len() == 0 {
                self.phase = Phase::AwaitingInstructions;
                return Action::WaitForInstructions;
            }
            let ghost before = self@;
            let ghost errs = errors@;
            let instruction = self.queue.remove(0);
            assert(self@.queue =~= before.queue.drop_first());
            match instruction {
                Instruction::SendMessage(b) => {
                    if self.transport == Transport::Udp && self.peer.is_none() {
                        errors.push(ServerMockerError::GotSendMessageBeforeReceiveMessage);
                        let ghost (m, e, a) = self@.advance();
                        let ghost skipped = seq![ServerMockerError::GotSendMessageBeforeReceiveMessage];
                        assert(errors@ + e =~= errs + (skipped + e));
                    } else {
                        self.phase = Phase::Sending;
                        let to = match self.transport {
                            Transport::Tcp => None,
                            Transport::Udp => self.peer,
                        };
                        return Action::Send(b, to);
                    }
                },
                Instruction::SendMessageDependingOnLastReceivedMessage(f) => {
                    self.phase = Phase::Computing;
                    let input = match &self.last {
                        Some(m) => Some(copy_bytes(m)),
                        None => None,
                    };
                    return Action::Compute(f, input);
                },
                Instruction::ReceiveMessage => {
                    return self.begin_receive(None);
                },
                Instruction::ReceiveMessageWithMaxSize(n) => {
                    return self.begin_receive(Some(n));
                },
                Instruction::StopExchange => {
                    self.phase = Phase::Terminated;
                    return Action::Terminate;
                },
            }
        }
    }

    /// Report `message` and `errors`, then go on with the queue.
    fn go_on(&mut self, message: Option<Vec<u8>>, errors: Vec<ServerMockerError>) -> (r: Reaction<F>)
        ensures
            (final(self)@, r@) == old(self)@.go_on(bytes_of(message), errors@),
    {
        let mut errors = errors;
        let action = self.advance(&mut errors);
        Reaction { message, errors, action }
    }

    /// Take the outcome of the last action and decide the next one.
    pub fn step(&mut self, ev: Event<F>) -> (r: Reaction<F>)
        requires
            old(self)@.accepts(ev@),
        ensures
            (final(self)@, r@) == old(self)@.step(ev@),
    {
        match ev {
            Event::ReadTimeoutSet(Ok(())) => {
                self.phase = Phase::AwaitingInstructions;
                Reaction::only(Action::WaitForInstructions)
            },
            Event::ReadTimeoutSet(Err(e)) => {
                self.phase = Phase::Terminated;
                let errors = one_error(ServerMockerError::UnableToSetReadTimeout(e));
                Reaction { message: None, errors, action: Action::Terminate }
            },
            Event::Instructions(None) => {
                self.phase = Phase::Terminated;
                Reaction::only(Action::Terminate)
            },
            Event::Instructions(Some(b)) => {
                self.queue = b;
                self.go_on(None, Vec::new())
            },
            Event::Chunk(Err(e)) => {
                self.go_on(None, one_error(ServerMockerError::UnableToReadTcpStream(e)))
            },
            Event::Chunk(Ok(c)) => {
                let mut c = c;
                if c.len() >= self.chunk_size {
                    self.partial.append(&mut c);
                    Reaction::only(Action::ReadChunk(self.chunk_size))
                } else {
                    let ghost whole = self.partial@ + c@;
                    let mut msg: Vec<u8> = Vec::new();
                    msg.append(&mut self.partial);
                    msg.append(&mut c);
                    assert(msg@ =~= whole);
                    if let Some(n) = self.limit {
                        msg.truncate(n);
                    }
                    assert(msg@ =~= truncated(whole, old(self)@.limit));
                    self.last = Some(copy_bytes(&msg));
                    self.go_on(Some(msg), Vec::new())
                }
            },
            Event::Datagram(Err(e)) => {
                self.go_on(None, one_error(ServerMockerError::UnableToReadUdpStream(e)))
            },
            Event::Datagram(Ok((from, d))) => {
                let ghost whole = d@;
                let mut msg = d;
                if let Some(n) = self.limit {
                    msg.truncate(n);
                }
                assert(msg@ =~= truncated(whole, old(self)@.limit));
                self.last = Some(copy_bytes(&msg));
                self.peer = Some(from);
                self.go_on(Some(msg), Vec::new())
            },
            Event::Sent(Ok(())) => {
                self.go_on(None, Vec::new())
            },
            Event::Sent(Err(e)) => {
                let err = match self.transport {
                    Transport::Tcp => ServerMockerError::UnableToWriteTcpStream(e),
                    Transport::Udp => ServerMockerError::FailedToSendUdpMessage(e),
                };
                self.go_on(None, one_error(err))
            },
            Event::Computed(None) => {
                self.go_on(None, Vec::new())
            },
            Event::Computed(Some(b)) => {
                if self.transport == Transport::Udp && self.peer.is_none() {
                    self.go_on(None, one_error(ServerMockerError::GotSendMessageBeforeReceiveMessage))
                } else {
                    self.phase = Phase::Sending;
                    let to = match self.transport {
                        Transport::Tcp => None,
                        Transport::Udp => self.peer,
                    };
                    Reaction::only(Action::Send(b, to))
                }
            },
        }
    }
}

} // verus!
