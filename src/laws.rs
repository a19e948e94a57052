//! Properties of the engine that span several events.

use vstd::prelude::*;

use crate::address::SocketAddress;
use crate::engine::{
    datagram_buffer_size, ActionModel, EngineModel, EventModel, Phase, ReactionModel, Transport,
};
use crate::error::ServerMockerError;
use crate::instruction::Instruction;

verus! {

/// With the batch `[ReceiveMessage, SendMessage(x)]` on TCP, a client message
/// `y` that arrives in one short read is forwarded to the controller as it is,
/// and the engine then writes exactly `x` on the stream.
pub proof fn tcp_round_trip_echo<F>(m: EngineModel<F>, x: Vec<u8>, y: Seq<u8>)
    requires
        m.transport == Transport::Tcp,
        m.phase == Phase::AwaitingInstructions,
        y.len() < m.chunk_size,
    ensures
        ({
            let batch = seq![Instruction::<F>::ReceiveMessage, Instruction::SendMessage(x)];
            let (m1, r1) = m.step(EventModel::Instructions(Some(batch)));
            let (m2, r2) = m1.step(EventModel::Chunk(Ok(y)));
            &&& r1.action == ActionModel::<F>::ReadChunk(m.chunk_size)
            &&& r1.errors.len() == 0
            &&& m1.accepts(EventModel::Chunk(Ok(y)))
            &&& r2.message == Some(y)
            &&& r2.errors.len() == 0
            &&& r2.action == ActionModel::<F>::Send(x@, None)
            &&& m2.last == Some(y)
        }),
{
    let batch = seq![Instruction::<F>::ReceiveMessage, Instruction::SendMessage(x)];
    let m0 = EngineModel { queue: batch, ..m };
    assert(m0.queue[0] == Instruction::<F>::ReceiveMessage);
    let (m1, r1) = m.step(EventModel::Instructions(Some(batch)));
    assert(m1.queue =~= seq![Instruction::<F>::SendMessage(x)]);
    assert(Seq::<u8>::empty() + y =~= y);
    let (m2, r2) = m1.step(EventModel::Chunk(Ok(y)));
    let m3 = EngineModel { last: Some(y), partial: Seq::empty(), ..m1 };
    assert(m3.queue[0] == Instruction::<F>::SendMessage(x));
    assert(r2.errors =~= Seq::<ServerMockerError>::empty() + Seq::empty());
}

/// After `ReceiveMessageWithMaxSize(n)`, a message longer than `n` bytes is
/// forwarded, and remembered, as its first `n` bytes: over TCP (one short
/// read) and over UDP (one datagram, received into a buffer of `n` bytes).
pub proof fn receive_with_max_size_truncates<F>(
    m: EngineModel<F>,
    n: usize,
    y: Seq<u8>,
    from: SocketAddress,
)
    requires
        m.phase == Phase::AwaitingInstructions,
        y.len() > n,
        m.transport == Transport::Tcp ==> y.len() < m.chunk_size,
    ensures
        ({
            let batch = seq![Instruction::<F>::ReceiveMessageWithMaxSize(n)];
            let (m1, r1) = m.step(EventModel::Instructions(Some(batch)));
            let ev = match m.transport {
                Transport::Tcp => EventModel::<F>::Chunk(Ok(y)),
                Transport::Udp => EventModel::<F>::Datagram(Ok((from, y))),
            };
            let (m2, r2) = m1.step(ev);
            &&& m.transport == Transport::Udp ==> r1.action
                == ActionModel::<F>::ReceiveDatagram(n as nat)
            &&& m1.accepts(ev)
            &&& r2.message == Some(y.take(n as int))
            &&& m2.last == Some(y.take(n as int))
        }),
{
    let batch = seq![Instruction::<F>::ReceiveMessageWithMaxSize(n)];
    let m0 = EngineModel { queue: batch, ..m };
    assert(m0.queue[0] == Instruction::<F>::ReceiveMessageWithMaxSize(n));
    assert(Seq::<u8>::empty() + y =~= y);
}

/// `StopExchange` at the head of the queue ends the run, and an engine that
/// has stopped takes no further event, so no later instruction runs.
pub proof fn stop_ends_the_run<F>(m: EngineModel<F>, ev: EventModel<F>)
    requires
        m.queue.len() > 0,
        m.queue[0] is StopExchange,
    ensures
        m.advance().2 == ActionModel::<F>::Terminate,
        m.advance().1.len() == 0,
        m.advance().0.phase == Phase::Terminated,
        !m.advance().0.accepts(ev),
{
}

/// A batch that opens with `StopExchange` terminates the engine at once: the
/// instructions after it, and any later batch, are never executed.
pub proof fn stop_in_batch<F>(m: EngineModel<F>, rest: Seq<Instruction<F>>, ev: EventModel<F>)
    requires
        m.phase == Phase::AwaitingInstructions,
    ensures
        ({
            let b = seq![Instruction::StopExchange] + rest;
            let (m1, r1) = m.step(EventModel::Instructions(Some(b)));
            &&& r1.action == ActionModel::<F>::Terminate
            &&& r1.errors.len() == 0
            &&& r1.message is None
            &&& m1.phase == Phase::Terminated
            &&& !m1.accepts(ev)
        }),
{
    let b = seq![Instruction::<F>::StopExchange] + rest;
    assert(b[0] == Instruction::<F>::StopExchange);
    let m0 = EngineModel { queue: b, ..m };
    stop_ends_the_run(m0, ev);
}

/// Over UDP, with no datagram received yet, `SendMessage(x)` is reported once,
/// as the non-fatal `GotSendMessageBeforeReceiveMessage`, and nothing is sent.
pub proof fn udp_send_before_receive<F>(m: EngineModel<F>, x: Vec<u8>)
    requires
        m.transport == Transport::Udp,
        m.phase == Phase::AwaitingInstructions,
        m.peer is None,
    ensures
        ({
            let (m1, r1) = m.step(EventModel::Instructions(Some(seq![Instruction::SendMessage(x)])));
            &&& r1.errors == seq![ServerMockerError::GotSendMessageBeforeReceiveMessage]
            &&& !r1.errors[0].fatal()
            &&& r1.action == ActionModel::<F>::WaitForInstructions
            &&& r1.message is None
            &&& m1.phase == Phase::AwaitingInstructions
        }),
{
    let b = seq![Instruction::<F>::SendMessage(x)];
    let m0 = EngineModel { queue: b, ..m };
    assert(b[0] == Instruction::<F>::SendMessage(x));
    let rest = EngineModel { queue: m0.queue.drop_first(), ..m0 };
    assert(rest.queue.len() == 0);
    assert(rest.advance().1 == Seq::<ServerMockerError>::empty());
    let skipped = seq![ServerMockerError::GotSendMessageBeforeReceiveMessage];
    assert(m0.advance().1 == skipped + rest.advance().1);
    assert(skipped + Seq::<ServerMockerError>::empty() =~= skipped);
    assert(Seq::<ServerMockerError>::empty() + skipped =~= skipped);
}

/// When the only instruction is a receive and the read fails (the client
/// sent nothing before the timeout), exactly one non-fatal read error is
/// reported, no message is forwarded, the last received message stays, and
/// the engine waits for more instructions.
pub proof fn receive_failure_reported_once<F>(m: EngineModel<F>, e: String)
    requires
        m.phase == Phase::AwaitingInstructions,
    ensures
        ({
            let (m1, r1) = m.step(EventModel::Instructions(Some(seq![Instruction::ReceiveMessage])));
            let ev = match m.transport {
                Transport::Tcp => EventModel::<F>::Chunk(Err(e)),
                Transport::Udp => EventModel::<F>::Datagram(Err(e)),
            };
            let err = match m.transport {
                Transport::Tcp => ServerMockerError::UnableToReadTcpStream(e),
                Transport::Udp => ServerMockerError::UnableToReadUdpStream(e),
            };
            let (m2, r2) = m1.step(ev);
            &&& m1.accepts(ev)
            &&& r2.errors == seq![err]
            &&& !err.fatal()
            &&& r2.message is None
            &&& r2.action == ActionModel::<F>::WaitForInstructions
            &&& m2.last == m.last
        }),
{
    let b = seq![Instruction::<F>::ReceiveMessage];
    let m0 = EngineModel { queue: b, ..m };
    assert(b[0] == Instruction::<F>::ReceiveMessage);
    let (m1, r1) = m.step(EventModel::Instructions(Some(b)));
    assert(m1.queue.len() == 0);
    let err = match m.transport {
        Transport::Tcp => ServerMockerError::UnableToReadTcpStream(e),
        Transport::Udp => ServerMockerError::UnableToReadUdpStream(e),
    };
    assert(seq![err] + Seq::<ServerMockerError>::empty() =~= seq![err]);
}

/// `SendMessageDependingOnLastReceivedMessage(f)` hands `f` the last received
/// message; when `f` returns nothing, nothing is sent, and when it returns
/// `v`, exactly `v` is sent to the peer.
pub proof fn conditional_response<F>(m: EngineModel<F>, f: F, v: Seq<u8>)
    requires
        m.phase == Phase::AwaitingInstructions,
        !m.no_destination(),
    ensures
        ({
            let b = seq![Instruction::SendMessageDependingOnLastReceivedMessage(f)];
            let (m1, r1) = m.step(EventModel::Instructions(Some(b)));
            let (m2, r2) = m1.step(EventModel::Computed(None));
            let (m3, r3) = m1.step(EventModel::Computed(Some(v)));
            &&& r1.action == ActionModel::Compute(f, m.last)
            &&& m1.accepts(EventModel::Computed(None))
            &&& r2.action == ActionModel::<F>::WaitForInstructions
            &&& r2.errors.len() == 0
            &&& r3.action == ActionModel::<F>::Send(v, m.destination())
            &&& r3.errors.len() == 0
        }),
{
    let b = seq![Instruction::SendMessageDependingOnLastReceivedMessage(f)];
    let m0 = EngineModel { queue: b, ..m };
    assert(b[0] == Instruction::SendMessageDependingOnLastReceivedMessage(f));
    let (m1, r1) = m.step(EventModel::Instructions(Some(b)));
    assert(m1.queue.len() == 0);
}

/// The engine's answers to a sequence of events, in order, and its state after them.
pub open spec fn run<F>(m: EngineModel<F>, evs: Seq<EventModel<F>>) -> (
    EngineModel<F>,
    Seq<ReactionModel<F>>,
)
    decreases evs.len(),
{
    if evs.len() == 0 {
        (m, Seq::empty())
    } else {
        let (m1, r) = m.step(evs[0]);
        let (m2, rs) = run(m1, evs.drop_first());
        (m2, seq![r] + rs)
    }
}

/// Each event of the sequence answers the action that the engine waits on.
pub open spec fn all_accepted<F>(m: EngineModel<F>, evs: Seq<EventModel<F>>) -> bool
    decreases evs.len(),
{
    evs.len() == 0 || (m.accepts(evs[0]) && all_accepted(m.step(evs[0]).0, evs.drop_first()))
}

/// An instruction that exchanges bytes with the client.
pub open spec fn is_exchange<F>(i: Instruction<F>) -> bool {
    i is SendMessage || i is ReceiveMessage
}

/// What the engine `m` asks of the worker for an exchange instruction.
pub open spec fn exchange_action<F>(m: EngineModel<F>, i: Instruction<F>) -> ActionModel<F> {
    match i {
        Instruction::SendMessage(b) => ActionModel::Send(b@, m.destination()),
        _ => match m.transport {
            Transport::Tcp => ActionModel::ReadChunk(m.chunk_size),
            Transport::Udp => ActionModel::ReceiveDatagram(datagram_buffer_size(m.max_datagram, None)),
        },
    }
}

/// The event that completes an exchange instruction: the send went through,
/// or the client's message `reply` came, in one short read (TCP) or in one
/// datagram from `client` (UDP).
pub open spec fn completion<F>(
    t: Transport,
    i: Instruction<F>,
    reply: Seq<u8>,
    client: SocketAddress,
) -> EventModel<F> {
    match i {
        Instruction::SendMessage(_) => EventModel::Sent(Ok(())),
        _ => match t {
            Transport::Tcp => EventModel::Chunk(Ok(reply)),
            Transport::Udp => EventModel::Datagram(Ok((client, reply))),
        },
    }
}

/// The completions of a batch of exchange instructions.
pub open spec fn completions<F>(
    t: Transport,
    b: Seq<Instruction<F>>,
    replies: Seq<Seq<u8>>,
    client: SocketAddress,
) -> Seq<EventModel<F>> {
    Seq::new(b.len(), |k: int| completion(t, b[k], replies[k], client))
}

/// The message forwarded to the controller when an exchange instruction completes.
pub open spec fn forwarded<F>(i: Instruction<F>, reply: Seq<u8>) -> Option<Seq<u8>> {
    if i is ReceiveMessage {
        Some(reply)
    } else {
        None
    }
}

/// The engine talks to one client: over UDP, it has heard from `client`.
pub open spec fn talks_to<F>(m: EngineModel<F>, client: SocketAddress) -> bool {
    m.transport == Transport::Udp ==> m.peer == Some(client)
}

/// The engine has just started the exchange instruction `i`.
pub open spec fn started<F>(s: EngineModel<F>, i: Instruction<F>) -> bool {
    &&& i is SendMessage ==> s.phase == Phase::Sending
    &&& i is ReceiveMessage ==> s.limit is None && match s.transport {
        Transport::Tcp => s.phase == Phase::Reading && s.partial.len() == 0,
        Transport::Udp => s.phase == Phase::Receiving,
    }
}

/// An engine that starts the next instruction of its queue, an exchange.
proof fn lemma_advance_exchange<F>(s: EngineModel<F>, client: SocketAddress)
    requires
        talks_to(s, client),
        s.queue.len() > 0,
        is_exchange(s.queue[0]),
    ensures
        s.advance().1.len() == 0,
        s.advance().2 == exchange_action(s, s.queue[0]),
        started(s.advance().0, s.queue[0]),
        talks_to(s.advance().0, client),
        s.advance().0.queue == s.queue.drop_first(),
        s.advance().0.transport == s.transport,
        s.advance().0.chunk_size == s.chunk_size,
        s.advance().0.max_datagram == s.max_datagram,
{
}

proof fn lemma_exchanges_from<F>(
    s: EngineModel<F>,
    i: Instruction<F>,
    replies: Seq<Seq<u8>>,
    client: SocketAddress,
)
    requires
        started(s, i),
        talks_to(s, client),
        is_exchange(i),
        forall|k: int| 0 <= k < s.queue.len() ==> is_exchange(#[trigger] s.queue[k]),
        replies.len() == s.queue.len() + 1,
        s.transport == Transport::Tcp ==> forall|k: int|
            0 <= k < replies.len() ==> (#[trigger] replies[k]).len() < s.chunk_size,
    ensures
        ({
            let b = seq![i] + s.queue;
            let evs = completions(s.transport, b, replies, client);
            let (mf, rs) = run(s, evs);
            &&& all_accepted(s, evs)
            &&& rs.len() == b.len()
            &&& forall|k: int|
                0 <= k < s.queue.len() ==> (#[trigger] rs[k]).action == exchange_action(s, s.queue[k])
            &&& rs[s.queue.len() as int].action == ActionModel::<F>::WaitForInstructions
            &&& forall|k: int|
                0 <= k < b.len() ==> (#[trigger] rs[k]).message == forwarded(b[k], replies[k])
            &&& forall|k: int| 0 <= k < b.len() ==> (#[trigger] rs[k]).errors.len() == 0
            &&& mf.phase == Phase::AwaitingInstructions
        }),
    decreases s.queue.len(),
{
    let t = s.transport;
    let b = seq![i] + s.queue;
    let evs = completions(t, b, replies, client);
    let ev0 = completion(t, i, replies[0], client);
    assert(b[0] == i);
    assert(evs[0] == ev0);
    let (s1, r0) = s.step(ev0);
    let mid = if i is ReceiveMessage {
        match t {
            Transport::Tcp => {
                assert(Seq::<u8>::empty() + replies[0] =~= replies[0]);
                EngineModel { last: Some(replies[0]), partial: Seq::empty(), ..s }
            },
            Transport::Udp => EngineModel { last: Some(replies[0]), peer: Some(client), ..s },
        }
    } else {
        s
    };
    assert(s.step(ev0) == mid.go_on(forwarded(i, replies[0]), Seq::empty()));
    assert(r0.message == forwarded(i, replies[0]));
    let rest = evs.drop_first();
    let (mf, rs) = run(s, evs);
    let (mf1, rs1) = run(s1, rest);
    assert(rs == seq![r0] + rs1);
    if s.queue.len() == 0 {
        assert(rest.len() == 0);
        assert(r0.errors =~= Seq::<ServerMockerError>::empty());
        assert(all_accepted(s1, rest));
    } else {
        lemma_advance_exchange(mid, client);
        assert(r0.errors =~= Seq::<ServerMockerError>::empty());
        let i1 = s.queue[0];
        let r1 = replies.drop_first();
        assert forall|k: int| 0 <= k < s1.queue.len() implies is_exchange(#[trigger] s1.queue[k]) by {
            assert(s1.queue[k] == s.queue[k + 1]);
        }
        if t == Transport::Tcp {
            assert forall|k: int| 0 <= k < r1.len() implies (#[trigger] r1[k]).len() < s1.chunk_size by {
                assert(r1[k] == replies[k + 1]);
            }
        }
        lemma_exchanges_from(s1, i1, r1, client);
        let b1 = seq![i1] + s1.queue;
        assert(b1 =~= s.queue);
        assert(rest =~= completions(t, b1, r1, client));
        assert forall|k: int| 0 <= k < s.queue.len() implies
            (#[trigger] rs[k]).action == exchange_action(s, s.queue[k]) by {
            if k > 0 {
                assert(rs[k] == rs1[k - 1]);
            }
        }
        assert(rs[s.queue.len() as int] == rs1[s1.queue.len() as int]);
        assert forall|k: int| 0 <= k < b.len() implies
            (#[trigger] rs[k]).message == forwarded(b[k], replies[k]) by {
            if k > 0 {
                assert(rs[k] == rs1[k - 1]);
                assert(b[k] == b1[k - 1]);
                assert(replies[k] == r1[k - 1]);
            }
        }
        assert forall|k: int| 0 <= k < b.len() implies (#[trigger] rs[k]).errors.len() == 0 by {
            if k > 0 {
                assert(rs[k] == rs1[k - 1]);
            }
        }
    }
}

/// A batch of sends and receives runs in the order scripted. Answer each
/// action as the one client would (each send goes through; each of the
/// client's messages comes in one short read over TCP, or in one datagram over
/// UDP, where the client has been heard from before): the engine asks for the
/// `k`-th send or receive exactly at the `k`-th instruction, forwards the
/// client's messages in the order they came, and then waits for the next
/// batch, where the same holds again.
pub proof fn exchanges_in_order<F>(
    m: EngineModel<F>,
    b: Seq<Instruction<F>>,
    replies: Seq<Seq<u8>>,
    client: SocketAddress,
)
    requires
        m.phase == Phase::AwaitingInstructions,
        talks_to(m, client),
        b.len() > 0,
        forall|k: int| 0 <= k < b.len() ==> is_exchange(#[trigger] b[k]),
        replies.len() == b.len(),
        m.transport == Transport::Tcp ==> forall|k: int|
            0 <= k < replies.len() ==> (#[trigger] replies[k]).len() < m.chunk_size,
    ensures
        ({
            let evs = seq![EventModel::Instructions(Some(b))] + completions(m.transport, b, replies, client);
            let (mf, rs) = run(m, evs);
            &&& all_accepted(m, evs)
            &&& rs.len() == b.len() + 1
            &&& forall|k: int| 0 <= k < b.len() ==> (#[trigger] rs[k]).action == exchange_action(m, b[k])
            &&& rs[b.len() as int].action == ActionModel::<F>::WaitForInstructions
            &&& forall|k: int|
                0 <= k < b.len() ==> (#[trigger] rs[k + 1]).message == forwarded(b[k], replies[k])
            &&& forall|k: int| 0 <= k <= b.len() ==> (#[trigger] rs[k]).errors.len() == 0
            &&& mf.phase == Phase::AwaitingInstructions
        }),
{
    let t = m.transport;
    let evs = seq![EventModel::Instructions(Some(b))] + completions(t, b, replies, client);
    let m0 = EngineModel { queue: b, ..m };
    lemma_advance_exchange(m0, client);
    let (s, r0) = m.step(evs[0]);
    assert(r0.errors =~= Seq::<ServerMockerError>::empty());
    assert forall|k: int| 0 <= k < s.queue.len() implies is_exchange(#[trigger] s.queue[k]) by {
        assert(s.queue[k] == b[k + 1]);
    }
    lemma_exchanges_from(s, b[0], replies, client);
    assert(seq![b[0]] + s.queue =~= b);
    assert(evs.drop_first() =~= completions(t, b, replies, client));
    let (mf, rs) = run(m, evs);
    let (mf1, rs1) = run(s, evs.drop_first());
    assert(rs == seq![r0] + rs1);
    assert forall|k: int| 0 <= k < b.len() implies
        (#[trigger] rs[k]).action == exchange_action(m, b[k]) by {
        if k > 0 {
            assert(rs[k] == rs1[k - 1]);
            assert(b[k] == s.queue[k - 1]);
        }
    }
    assert(rs[b.len() as int] == rs1[b.len() - 1]);
    assert forall|k: int| 0 <= k < b.len() implies
        (#[trigger] rs[k + 1]).message == forwarded(b[k], replies[k]) by {
        assert(rs[k + 1] == rs1[k]);
    }
    assert forall|k: int| 0 <= k <= b.len() implies (#[trigger] rs[k]).errors.len() == 0 by {
        if k > 0 {
            assert(rs[k] == rs1[k - 1]);
        }
    }
}

} // verus!
