use vstd::prelude::*;
use crate::fifo::ByteFifo;

verus! {

/// The lifecycle of one direction of a connection.
#[derive(Clone, Copy, Debug, PartialEq, Eq, Structural)]
pub enum TcpSocketState {
    /// Open and flowing.
    Normal,
    /// The handle asked for this half to close; the driver has not seen it
    /// yet.
    Close,
    /// The driver told the engine to close; the engine is still draining.
    Closing,
    /// Terminal.
    Closed,
}

/// How far along the lifecycle a state is.
pub open spec fn state_rank(s: TcpSocketState) -> int {
    match s {
        TcpSocketState::Normal => 0,
        TcpSocketState::Close => 1,
        TcpSocketState::Closing => 2,
        TcpSocketState::Closed => 3,
    }
}

/// The permitted lifecycle movement: states only ever advance.
pub open spec fn half_step_ok(pre: TcpSocketState, post: TcpSocketState) -> bool {
    state_rank(pre) <= state_rank(post)
}

/// Law (terminal convergence): `Closed` is terminal; no permitted movement
/// leaves it.
pub proof fn lemma_closed_is_terminal(pre: TcpSocketState, post: TcpSocketState)
    requires
        half_step_ok(pre, post),
        pre == TcpSocketState::Closed,
    ensures
        post == TcpSocketState::Closed,
{
}

/// The engine's TCP state, as the driver reads it each tick.
#[derive(Clone, Copy, Debug, PartialEq, Eq, Structural)]
pub enum EngineTcpState {
    Closed,
    Listen,
    SynSent,
    SynReceived,
    Established,
    FinWait1,
    FinWait2,
    CloseWait,
    Closing,
    LastAck,
    TimeWait,
}

impl EngineTcpState {
    /// States in which nothing about the peer's send direction has been
    /// decided yet: no end-of-stream may be signalled to the reader.
    pub open spec fn spec_keeps_recv_open(self) -> bool {
        match self {
            EngineTcpState::Listen => true,
            EngineTcpState::SynReceived => true,
            EngineTcpState::Established => true,
            EngineTcpState::FinWait1 => true,
            EngineTcpState::FinWait2 => true,
            _ => false,
        }
    }
}

/// What a read attempt found.
pub enum ReadOutcome {
    /// Bytes were waiting; they were removed from the buffer.
    Data(Vec<u8>),
    /// Nothing waiting and the half still open: store the waker and
    /// suspend.
    WouldBlock,
    /// Nothing waiting and the half closed: end of stream.
    Eof,
}

/// What a write attempt did.
pub enum WriteOutcome {
    /// This many leading bytes entered the send buffer.
    Accepted(usize),
    /// The buffer is full and the half open: store the waker and suspend.
    WouldBlock,
    /// The send half is no longer open.
    BrokenPipe,
}

/// What a shutdown request found.
pub enum ShutdownOutcome {
    /// The send half already reached its terminal state.
    Done,
    /// The close was requested; suspend until the driver reports terminal.
    Pending,
}

/// The per-connection record both the engine driver and the connection
/// handle act on, each under the connection's lock. It holds the two
/// bounded byte buffers, the two half-states, and — as ghost history — every
/// byte that ever crossed each boundary, so that byte preservation is an
/// invariant and not a hope.
pub struct TcpSocketControl {
    send_buffer: ByteFifo,
    recv_buffer: ByteFifo,
    send_state: TcpSocketState,
    recv_state: TcpSocketState,
    /// Every byte the driver delivered from the engine to the receive
    /// buffer.
    recv_in: Ghost<Seq<u8>>,
    /// Every byte a reader took out of the receive buffer.
    recv_out: Ghost<Seq<u8>>,
    /// Every byte a writer put into the send buffer.
    send_in: Ghost<Seq<u8>>,
    /// Every byte the driver handed from the send buffer to the engine.
    send_out: Ghost<Seq<u8>>,
}

impl TcpSocketControl {
    pub closed spec fn recv_contents(self) -> Seq<u8> {
        self.recv_buffer.contents()
    }

    pub closed spec fn send_contents(self) -> Seq<u8> {
        self.send_buffer.contents()
    }

    pub closed spec fn recv_capacity(self) -> int {
        self.recv_buffer.capacity()
    }

    pub closed spec fn send_capacity(self) -> int {
        self.send_buffer.capacity()
    }

    pub closed spec fn spec_recv_state(self) -> TcpSocketState {
        self.recv_state
    }

    pub closed spec fn spec_send_state(self) -> TcpSocketState {
        self.send_state
    }

    /// All bytes the engine ever delivered to the reader side.
    pub closed spec fn delivered(self) -> Seq<u8> {
        self.recv_in@
    }

    /// All bytes readers ever took.
    pub closed spec fn reads(self) -> Seq<u8> {
        self.recv_out@
    }

    /// All bytes writers ever put in.
    pub closed spec fn writes(self) -> Seq<u8> {
        self.send_in@
    }

    /// All bytes handed on to the engine.
    pub closed spec fn sent(self) -> Seq<u8> {
        self.send_out@
    }

    pub closed spec fn wf(self) -> bool {
        &&& self.send_buffer.wf()
        &&& self.recv_buffer.wf()
        &&& self.recv_out@ + self.recv_buffer.contents() == self.recv_in@
        &&& self.send_out@ + self.send_buffer.contents() == self.send_in@
        &&& self.recv_state != TcpSocketState::Closing
    }

    /// Everything of the send side is as it was.
    pub open spec fn send_side_unchanged(pre: TcpSocketControl, post: TcpSocketControl) -> bool {
        &&& post.spec_send_state() == pre.spec_send_state()
        &&& post.send_contents() == pre.send_contents()
        &&& post.writes() == pre.writes()
        &&& post.sent() == pre.sent()
        &&& post.send_capacity() == pre.send_capacity()
    }

    /// Everything of the receive side is as it was.
    pub open spec fn recv_side_unchanged(pre: TcpSocketControl, post: TcpSocketControl) -> bool {
        &&& post.spec_recv_state() == pre.spec_recv_state()
        &&& post.recv_contents() == pre.recv_contents()
        &&& post.delivered() == pre.delivered()
        &&& post.reads() == pre.reads()
        &&& post.recv_capacity() == pre.recv_capacity()
    }

    /// Both capacities and both histories' prefixes move as permitted.
    pub open spec fn frame_ok(pre: TcpSocketControl, post: TcpSocketControl) -> bool {
        &&& post.send_capacity() == pre.send_capacity()
        &&& post.recv_capacity() == pre.recv_capacity()
        &&& half_step_ok(pre.spec_send_state(), post.spec_send_state())
        &&& half_step_ok(pre.spec_recv_state(), post.spec_recv_state())
    }

    /// A fresh record: both halves open, both buffers empty.
    pub fn new(send_cap: usize, recv_cap: usize) -> (r: TcpSocketControl)
        requires
            send_cap >= 1,
            recv_cap >= 1,
        ensures
            r.wf(),
            r.send_capacity() == send_cap,
            r.recv_capacity() == recv_cap,
            r.spec_send_state() == TcpSocketState::Normal,
            r.spec_recv_state() == TcpSocketState::Normal,
            r.send_contents().len() == 0,
            r.recv_contents().len() == 0,
            r.delivered().len() == 0,
            r.reads().len() == 0,
            r.writes().len() == 0,
            r.sent().len() == 0,
    {
        TcpSocketControl {
            send_buffer: ByteFifo::new(send_cap),
            recv_buffer: ByteFifo::new(recv_cap),
            send_state: TcpSocketState::Normal,
            recv_state: TcpSocketState::Normal,
            recv_in: Ghost(Seq::empty()),
            recv_out: Ghost(Seq::empty()),
            send_in: Ghost(Seq::empty()),
            send_out: Ghost(Seq::empty()),
        }
    }

    /// A reader's poll: bytes if any wait, end-of-stream if the half is
    /// closed and drained, else would-block. The caller notifies the driver
    /// when bytes came out, for the freed window.
    pub fn read(&mut self, max: usize) -> (r: ReadOutcome)
        requires
            old(self).wf(),
        ensures
            final(self).wf(),
            Self::frame_ok(*old(self), *final(self)),
            Self::send_side_unchanged(*old(self), *final(self)),
            final(self).spec_recv_state() == old(self).spec_recv_state(),
            final(self).delivered() == old(self).delivered(),
            r is Eof <==> old(self).recv_contents().len() == 0 && old(self).spec_recv_state()
                == TcpSocketState::Closed,
            r is WouldBlock <==> old(self).reader_blocked(),
            r is Data <==> old(self).recv_contents().len() > 0,
            r !is Data ==> Self::recv_side_unchanged(*old(self), *final(self)),
            r matches ReadOutcome::Data(v) ==> {
                &&& v@ == old(self).recv_contents().take(
                    vstd::math::min(max as int, old(self).recv_contents().len() as int),
                )
                &&& final(self).recv_contents() == old(self).recv_contents().skip(
                    vstd::math::min(max as int, old(self).recv_contents().len() as int),
                )
                &&& final(self).reads() == old(self).reads() + v@
            },
    {
        if self.recv_buffer.is_empty() {
            if self.recv_state == TcpSocketState::Closed {
                ReadOutcome::Eof
            } else {
                ReadOutcome::WouldBlock
            }
        } else {
            let v = self.recv_buffer.dequeue(max);
            proof {
                let m = vstd::math::min(max as int, old(self).recv_contents().len() as int);
                assert(
                    (self.recv_out@ + v@) + self.recv_buffer.contents() =~= self.recv_out@ + (
                    old(self).recv_contents().take(m) + old(self).recv_contents().skip(m))
                );
                assert(
                    old(self).recv_contents().take(m) + old(self).recv_contents().skip(m) =~= old(
                    self).recv_contents()
                );
            }
            self.recv_out = Ghost(self.recv_out@ + v@);
            ReadOutcome::Data(v)
        }
    }

    /// A writer's poll: fails when the send half is no longer open, blocks
    /// when the buffer is full, else accepts a non-empty prefix. The caller
    /// notifies the driver when bytes entered.
    pub fn write(&mut self, data: &[u8]) -> (r: WriteOutcome)
        requires
            old(self).wf(),
        ensures
            final(self).wf(),
            Self::frame_ok(*old(self), *final(self)),
            Self::recv_side_unchanged(*old(self), *final(self)),
            final(self).spec_send_state() == old(self).spec_send_state(),
            final(self).sent() == old(self).sent(),
            r is BrokenPipe <==> old(self).spec_send_state() != TcpSocketState::Normal,
            r is WouldBlock <==> old(self).writer_blocked(),
            r is Accepted <==> old(self).spec_send_state() == TcpSocketState::Normal && old(
                self,
            ).send_contents().len() < old(self).send_capacity(),
            r !is Accepted ==> Self::send_side_unchanged(*old(self), *final(self)),
            r matches WriteOutcome::Accepted(n) ==> {
                &&& n == vstd::math::min(
                    data@.len() as int,
                    old(self).send_capacity() - old(self).send_contents().len(),
                )
                &&& data@.len() > 0 ==> n >= 1
                &&& final(self).send_contents() == old(self).send_contents() + data@.take(n as int)
                &&& final(self).writes() == old(self).writes() + data@.take(n as int)
            },
    {
        if self.send_state != TcpSocketState::Normal {
            return WriteOutcome::BrokenPipe;
        }
        if self.send_buffer.is_full() {
            return WriteOutcome::WouldBlock;
        }
        let n = self.send_buffer.enqueue_slice(data);
        proof {
            assert(
                self.send_out@ + (old(self).send_contents() + data@.take(n as int)) =~= (self.send_out@
                    + old(self).send_contents()) + data@.take(n as int)
            );
        }
        self.send_in = Ghost(self.send_in@ + data@.take(n as int));
        WriteOutcome::Accepted(n)
    }

    /// A shutdown of the write half: done once the driver reports terminal,
    /// else request the close and suspend. The caller notifies the driver.
    pub fn shutdown(&mut self) -> (r: ShutdownOutcome)
        requires
            old(self).wf(),
        ensures
            final(self).wf(),
            Self::frame_ok(*old(self), *final(self)),
            Self::recv_side_unchanged(*old(self), *final(self)),
            final(self).send_contents() == old(self).send_contents(),
            final(self).writes() == old(self).writes(),
            final(self).sent() == old(self).sent(),
            r is Done <==> old(self).spec_send_state() == TcpSocketState::Closed,
            old(self).spec_send_state() == TcpSocketState::Normal ==> final(self).spec_send_state()
                == TcpSocketState::Close,
            old(self).spec_send_state() != TcpSocketState::Normal ==> final(self).spec_send_state()
                == old(self).spec_send_state(),
    {
        if self.send_state == TcpSocketState::Closed {
            return ShutdownOutcome::Done;
        }
        if self.send_state == TcpSocketState::Normal {
            self.send_state = TcpSocketState::Close;
        }
        ShutdownOutcome::Pending
    }

    /// What dropping the handle does: ask both open halves to close. The
    /// caller notifies the driver, which closes via the engine.
    pub fn close_both(&mut self)
        requires
            old(self).wf(),
        ensures
            final(self).wf(),
            Self::frame_ok(*old(self), *final(self)),
            final(self).send_contents() == old(self).send_contents(),
            final(self).recv_contents() == old(self).recv_contents(),
            final(self).writes() == old(self).writes(),
            final(self).sent() == old(self).sent(),
            final(self).delivered() == old(self).delivered(),
            final(self).reads() == old(self).reads(),
            old(self).spec_send_state() == TcpSocketState::Normal ==> final(self).spec_send_state()
                == TcpSocketState::Close,
            old(self).spec_send_state() != TcpSocketState::Normal ==> final(self).spec_send_state()
                == old(self).spec_send_state(),
            old(self).spec_recv_state() == TcpSocketState::Normal ==> final(self).spec_recv_state()
                == TcpSocketState::Close,
            old(self).spec_recv_state() != TcpSocketState::Normal ==> final(self).spec_recv_state()
                == old(self).spec_recv_state(),
    {
        if self.recv_state == TcpSocketState::Normal {
            self.recv_state = TcpSocketState::Close;
        }
        if self.send_state == TcpSocketState::Normal {
            self.send_state = TcpSocketState::Close;
        }
    }

    /// The driver observed the engine in its terminal state: both halves
    /// are closed at once, and the caller wakes both a suspended reader and
    /// a suspended writer.
    pub fn on_engine_closed(&mut self)
        requires
            old(self).wf(),
        ensures
            final(self).wf(),
            Self::frame_ok(*old(self), *final(self)),
            final(self).spec_send_state() == TcpSocketState::Closed,
            final(self).spec_recv_state() == TcpSocketState::Closed,
            final(self).send_contents() == old(self).send_contents(),
            final(self).recv_contents() == old(self).recv_contents(),
            final(self).writes() == old(self).writes(),
            final(self).sent() == old(self).sent(),
            final(self).delivered() == old(self).delivered(),
            final(self).reads() == old(self).reads(),
    {
        self.send_state = TcpSocketState::Closed;
        self.recv_state = TcpSocketState::Closed;
    }

    /// The driver acts on a requested half-close: exactly when the handle
    /// asked (`Close`), the engine is told to close and the half moves to
    /// `Closing`; buffered bytes stay and keep draining.
    pub fn request_engine_close(&mut self) -> (r: bool)
        requires
            old(self).wf(),
        ensures
            final(self).wf(),
            Self::frame_ok(*old(self), *final(self)),
            Self::recv_side_unchanged(*old(self), *final(self)),
            final(self).send_contents() == old(self).send_contents(),
            final(self).writes() == old(self).writes(),
            final(self).sent() == old(self).sent(),
            r <==> old(self).spec_send_state() == TcpSocketState::Close,
            r ==> final(self).spec_send_state() == TcpSocketState::Closing,
            !r ==> final(self).spec_send_state() == old(self).spec_send_state(),
    {
        if self.send_state == TcpSocketState::Close {
            self.send_state = TcpSocketState::Closing;
            return true;
        }
        false
    }

    /// The driver delivers bytes the engine received: the longest prefix
    /// that fits enters the buffer, and the engine keeps the rest — nothing
    /// is dropped. The caller wakes a suspended reader when `n > 0`.
    pub fn accept_recv(&mut self, data: &[u8]) -> (n: usize)
        requires
            old(self).wf(),
        ensures
            final(self).wf(),
            Self::frame_ok(*old(self), *final(self)),
            Self::send_side_unchanged(*old(self), *final(self)),
            final(self).spec_recv_state() == old(self).spec_recv_state(),
            final(self).reads() == old(self).reads(),
            n == vstd::math::min(
                data@.len() as int,
                old(self).recv_capacity() - old(self).recv_contents().len(),
            ),
            final(self).recv_contents() == old(self).recv_contents() + data@.take(n as int),
            final(self).delivered() == old(self).delivered() + data@.take(n as int),
    {
        let n = self.recv_buffer.enqueue_slice(data);
        proof {
            assert(
                self.recv_out@ + (old(self).recv_contents() + data@.take(n as int))
                    =~= (self.recv_out@ + old(self).recv_contents()) + data@.take(n as int)
            );
        }
        self.recv_in = Ghost(self.recv_in@ + data@.take(n as int));
        n
    }

    /// The driver takes bytes for the engine to transmit: the oldest
    /// `min(max, len)` leave the buffer, in order. The caller wakes a
    /// suspended writer when bytes left.
    pub fn take_send(&mut self, max: usize) -> (out: Vec<u8>)
        requires
            old(self).wf(),
        ensures
            final(self).wf(),
            Self::frame_ok(*old(self), *final(self)),
            Self::recv_side_unchanged(*old(self), *final(self)),
            final(self).spec_send_state() == old(self).spec_send_state(),
            final(self).writes() == old(self).writes(),
            out@ == old(self).send_contents().take(
                vstd::math::min(max as int, old(self).send_contents().len() as int),
            ),
            final(self).send_contents() == old(self).send_contents().skip(
                vstd::math::min(max as int, old(self).send_contents().len() as int),
            ),
            final(self).sent() == old(self).sent() + out@,
    {
        let out = self.send_buffer.dequeue(max);
        proof {
            let m = vstd::math::min(max as int, old(self).send_contents().len() as int);
            assert(
                (self.send_out@ + out@) + self.send_buffer.contents() =~= self.send_out@ + (old(
                self).send_contents().take(m) + old(self).send_contents().skip(m))
            );
            assert(
                old(self).send_contents().take(m) + old(self).send_contents().skip(m) =~= old(
                self).send_contents()
            );
        }
        self.send_out = Ghost(self.send_out@ + out@);
        out
    }

    /// The driver saw an engine error while receiving: the engine is
    /// aborted by the caller, an open read half closes, and a suspended
    /// reader is woken.
    pub fn on_recv_error(&mut self)
        requires
            old(self).wf(),
        ensures
            final(self).wf(),
            Self::frame_ok(*old(self), *final(self)),
            Self::send_side_unchanged(*old(self), *final(self)),
            final(self).recv_contents() == old(self).recv_contents(),
            final(self).delivered() == old(self).delivered(),
            final(self).reads() == old(self).reads(),
            old(self).spec_recv_state() == TcpSocketState::Normal ==> final(self).spec_recv_state()
                == TcpSocketState::Closed,
            old(self).spec_recv_state() != TcpSocketState::Normal ==> final(self).spec_recv_state()
                == old(self).spec_recv_state(),
    {
        if self.recv_state == TcpSocketState::Normal {
            self.recv_state = TcpSocketState::Closed;
        }
    }

    /// The driver saw an engine error while sending: symmetric to
    /// `on_recv_error`, for the write half and a suspended writer.
    pub fn on_send_error(&mut self)
        requires
            old(self).wf(),
        ensures
            final(self).wf(),
            Self::frame_ok(*old(self), *final(self)),
            Self::recv_side_unchanged(*old(self), *final(self)),
            final(self).send_contents() == old(self).send_contents(),
            final(self).writes() == old(self).writes(),
            final(self).sent() == old(self).sent(),
            old(self).spec_send_state() == TcpSocketState::Normal ==> final(self).spec_send_state()
                == TcpSocketState::Closed,
            old(self).spec_send_state() != TcpSocketState::Normal ==> final(self).spec_send_state()
                == old(self).spec_send_state(),
    {
        if self.send_state == TcpSocketState::Normal {
            self.send_state = TcpSocketState::Closed;
        }
    }

    /// The driver's end-of-stream decision: exactly when the read half is
    /// still `Normal`, the engine can no longer receive, and the engine's
    /// state says the peer is done sending, the read half closes so the
    /// reader sees end-of-stream; the caller then wakes a suspended reader.
    pub fn mark_recv_eof(&mut self, may_recv: bool, engine_state: EngineTcpState) -> (r: bool)
        requires
            old(self).wf(),
        ensures
            final(self).wf(),
            Self::frame_ok(*old(self), *final(self)),
            Self::send_side_unchanged(*old(self), *final(self)),
            final(self).recv_contents() == old(self).recv_contents(),
            final(self).delivered() == old(self).delivered(),
            final(self).reads() == old(self).reads(),
            r <==> old(self).spec_recv_state() == TcpSocketState::Normal && !may_recv
                && !engine_state.spec_keeps_recv_open(),
            r ==> final(self).spec_recv_state() == TcpSocketState::Closed,
            !r ==> final(self).spec_recv_state() == old(self).spec_recv_state(),
    {
        let done_state: bool = match engine_state {
            EngineTcpState::Listen => false,
            EngineTcpState::SynReceived => false,
            EngineTcpState::Established => false,
            EngineTcpState::FinWait1 => false,
            EngineTcpState::FinWait2 => false,
            _ => true,
        };
        if self.recv_state == TcpSocketState::Normal && !may_recv && done_state {
            self.recv_state = TcpSocketState::Closed;
            return true;
        }
        false
    }

    /// The condition under which a reader suspends and stores its waker:
    /// nothing to read, and no end-of-stream to report.
    pub open spec fn reader_blocked(self) -> bool {
        self.recv_contents().len() == 0 && self.spec_recv_state() != TcpSocketState::Closed
    }

    /// The condition under which a writer suspends and stores its waker:
    /// the half open but the buffer full.
    pub open spec fn writer_blocked(self) -> bool {
        self.spec_send_state() == TcpSocketState::Normal && self.send_contents().len()
            == self.send_capacity()
    }

    /// Law (waker liveness, reader side): delivering bytes — on which the
    /// driver wakes the stored reader within the same tick — removes the
    /// reader's blocking condition, so its next poll returns data.
    pub proof fn lemma_delivery_unblocks_reader(
        pre: TcpSocketControl,
        post: TcpSocketControl,
        data: Seq<u8>,
        n: int,
    )
        requires
            1 <= n <= data.len(),
            post.recv_contents() == pre.recv_contents() + data.take(n),
        ensures
            !post.reader_blocked(),
    {
    }

    /// Law (waker liveness, writer side): draining bytes to the engine — on
    /// which the driver wakes the stored writer within the same tick —
    /// removes the writer's blocking condition, so its next poll accepts
    /// bytes.
    pub proof fn lemma_drain_unblocks_writer(pre: TcpSocketControl, post: TcpSocketControl, m: int)
        requires
            pre.wf(),
            1 <= m <= pre.send_contents().len(),
            post.send_contents() == pre.send_contents().skip(m),
            post.send_capacity() == pre.send_capacity(),
        ensures
            !post.writer_blocked(),
    {
    }

    /// Law (waker liveness, terminal side): once both halves are closed —
    /// on which the driver wakes both stored wakers — neither a reader nor
    /// a writer can block again: they see end-of-stream and broken-pipe.
    pub proof fn lemma_closed_unblocks_both(c: TcpSocketControl)
        requires
            c.spec_recv_state() == TcpSocketState::Closed,
            c.spec_send_state() == TcpSocketState::Closed,
        ensures
            !c.reader_blocked(),
            !c.writer_blocked(),
    {
    }

    /// Law (byte preservation, reader side): what readers took is a prefix
    /// of what the engine delivered, the difference still waits in the
    /// buffer, and at end-of-stream with a drained buffer the two are
    /// equal.
    pub proof fn lemma_recv_byte_preservation(self)
        requires
            self.wf(),
        ensures
            self.reads() + self.recv_contents() == self.delivered(),
            self.reads() == self.delivered().take(self.reads().len() as int),
            self.recv_contents().len() == 0 ==> self.reads() == self.delivered(),
    {
        assert(self.reads() =~= self.delivered().take(self.reads().len() as int));
        if self.recv_contents().len() == 0 {
            assert(self.reads() =~= self.delivered());
        }
    }

    /// Law (no silent drops, writer side): every byte a writer ever put in
    /// was either handed to the engine or still waits in the buffer — none
    /// vanish, however often the buffer fills.
    pub proof fn lemma_send_byte_preservation(self)
        requires
            self.wf(),
        ensures
            self.sent() + self.send_contents() == self.writes(),
            self.sent() == self.writes().take(self.sent().len() as int),
            self.send_contents().len() == 0 ==> self.sent() == self.writes(),
    {
        assert(self.sent() =~= self.writes().take(self.sent().len() as int));
        if self.send_contents().len() == 0 {
            assert(self.sent() =~= self.writes());
        }
    }
}

} // verus!
