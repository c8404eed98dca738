//! The read bridge: chunks arrive over a channel, callers take bytes out with
//! buffers of any size.

use crate::buffer::copy_from;
use crate::buffer::fitting;
use crate::channel::send_blocking;
use crate::channel::try_receive;
use crate::channel::ChannelEvent;
use crate::channel::ChannelPoll;
use crate::channel::MAX_QUEUE;
use crate::channel::WAKER_ID;
use crate::poll::ErrorKind;
use crate::poll::PollResult;
use futures::executor::NotifyHandle;
use futures::executor::Spawn;
use futures::sync::mpsc::Receiver;
use futures::sync::mpsc::Sender;
use vstd::prelude::*;
use vstd::slice::slice_subrange;
use vstd::slice::slice_to_vec;

verus! {

/// The chunk that a reader thread sends after one blocking read into
/// `scratch`, where `read` is the number of bytes the read reported, or
/// `None` if it failed. No chunk means that the thread ends: the read failed,
/// or it reported the end of the input by reading nothing.
pub open spec fn chunk_of(read: Option<usize>, scratch: Seq<u8>) -> Option<Seq<u8>> {
    match read {
        Some(n) => if 0 < n <= scratch.len() {
            Some(scratch.take(n as int))
        } else {
            None
        },
        None => None,
    }
}

/// What a reader thread does after one blocking read: the chunk to send, or
/// `None` to end. A chunk holds exactly the bytes that the read put into
/// `scratch`, so the chunks sent are, end to end, the bytes read.
pub fn next_chunk(read: Option<usize>, scratch: &[u8]) -> (r: Option<Vec<u8>>)
    ensures
        match r {
            Some(chunk) => chunk_of(read, scratch@) == Some(chunk@),
            None => chunk_of(read, scratch@) is None,
        },
{
    match read {
        Some(n) => if 0 < n && n <= scratch.len() {
            Some(slice_to_vec(slice_subrange(scratch, 0, n)))
        } else {
            None
        },
        None => None,
    }
}

/// What a read bridge is, seen from outside.
pub struct ReadModel {
    /// Bytes of the last chunk that no caller has taken yet.
    pub debt: Seq<u8>,
    /// The error that ended the bridge, once one has.
    pub terminal: Option<ErrorKind>,
    /// Every byte that came out of the channel, in order.
    pub received: Seq<u8>,
    /// Every byte that was put into a caller's buffer, in order.
    pub delivered: Seq<u8>,
}

/// One step of a read bridge: the bridge afterwards, what the caller is told,
/// and the bytes that go to the front of the caller's buffer.
pub struct ReadStep {
    pub next: ReadModel,
    pub result: PollResult<usize>,
    pub given: Seq<u8>,
}

/// What a caller can tell from a poll without knowing what the channel held.
/// The bridge went from `before` to `after`, the caller was told `result`, and
/// the buffer went from `old_buf` to `new_buf`. Bytes that the caller is given
/// are the next bytes delivered, in the front of the buffer; the rest of the
/// buffer is untouched; and a poll that gives nothing delivers nothing.
pub open spec fn read_told(
    before: ReadModel,
    after: ReadModel,
    result: PollResult<usize>,
    old_buf: Seq<u8>,
    new_buf: Seq<u8>,
) -> bool {
    &&& new_buf.len() == old_buf.len()
    &&& match result {
        PollResult::Ready(n) => {
            &&& n <= old_buf.len()
            &&& after.delivered == before.delivered + new_buf.take(n as int)
            &&& new_buf.skip(n as int) == old_buf.skip(n as int)
        },
        PollResult::Pending => after == before && new_buf == old_buf,
        PollResult::Error(kind) => {
            &&& after.terminal == Some(kind)
            &&& after.delivered == before.delivered
            &&& after.debt == before.debt
            &&& after.received == before.received
            &&& new_buf == old_buf
        },
    }
}

impl ReadStep {
    /// Whether this step is what happened: the bridge became `next`, the
    /// caller was told `result`, and the buffer went from `before` to `after`,
    /// its front overwritten by `given` and the rest left alone.
    pub open spec fn yields(
        self,
        next: ReadModel,
        result: PollResult<usize>,
        before: Seq<u8>,
        after: Seq<u8>,
    ) -> bool {
        &&& next == self.next
        &&& result == self.result
        &&& after == self.given + before.skip(self.given.len() as int)
    }
}

impl ReadModel {
    /// A bridge that has seen nothing yet.
    pub open spec fn fresh() -> ReadModel {
        ReadModel {
            debt: Seq::empty(),
            terminal: None,
            received: Seq::empty(),
            delivered: Seq::empty(),
        }
    }

    /// No byte is lost, doubled or reordered: what came in is what went out,
    /// followed by what is still owed.
    pub open spec fn wf(self) -> bool {
        self.received == self.delivered + self.debt
    }

    /// The bridge ends with `kind`, and nothing moves.
    pub open spec fn fail(self, kind: ErrorKind) -> ReadStep {
        ReadStep {
            next: ReadModel { terminal: Some(kind), ..self },
            result: PollResult::Error(kind),
            given: Seq::empty(),
        }
    }

    /// Nothing moves and nothing changes.
    pub open spec fn stay(self, result: PollResult<usize>) -> ReadStep {
        ReadStep { next: self, result, given: Seq::empty() }
    }

    /// The caller gets as much of `bytes` as fits into `room`; the rest is
    /// owed. `fresh` says whether `bytes` just came out of the channel.
    pub open spec fn hand_out(self, bytes: Seq<u8>, room: nat, fresh: bool) -> ReadStep {
        let n = fitting(bytes.len(), room);
        ReadStep {
            next: ReadModel {
                debt: bytes.skip(n as int),
                terminal: self.terminal,
                received: if fresh { self.received + bytes } else { self.received },
                delivered: self.delivered + bytes.take(n as int),
            },
            result: PollResult::Ready(n as usize),
            given: bytes.take(n as int),
        }
    }

    /// Whether the next step looks at the channel at all.
    pub open spec fn asks_channel(self) -> bool {
        self.terminal is None && self.debt.len() == 0
    }

    /// What a poll with `room` bytes of buffer does, where `event` is what the
    /// channel says if it is asked.
    pub open spec fn step(self, event: ChannelEvent, room: nat) -> ReadStep {
        if let Some(kind) = self.terminal {
            self.stay(PollResult::Error(kind))
        } else if self.debt.len() > 0 {
            self.hand_out(self.debt, room, false)
        } else {
            match event {
                ChannelEvent::Ready(chunk) => self.hand_out(chunk, room, true),
                ChannelEvent::Pending => self.stay(PollResult::Pending),
                ChannelEvent::Closed => self.fail(ErrorKind::BrokenPipe),
                ChannelEvent::Errored => self.fail(ErrorKind::Other),
            }
        }
    }
}

/// The reader thread's end of a read bridge: it takes what the thread has
/// read and sends it down the channel, one chunk for each read.
pub struct Feeder {
    /// The sending end, until the thread has to end.
    snd: Option<Sender<Box<[u8]>>>,
    /// Every byte that the channel has taken, in order.
    fed: Ghost<Seq<u8>>,
}

impl Feeder {
    /// Every byte that this end has handed to the channel, in order.
    pub closed spec fn fed(&self) -> Seq<u8> {
        self.fed@
    }

    /// Whether the channel is still open at this end.
    pub closed spec fn open(&self) -> bool {
        self.snd is Some
    }

    /// Whether the channel is still open at this end.
    pub fn is_open(&self) -> (b: bool)
        ensures
            b == self.open(),
    {
        self.snd.is_some()
    }

    /// Deals with the outcome of one blocking read into `scratch`, where
    /// `read` is the number of bytes that the read reported, or `None` if it
    /// failed. Blocks while the channel is full.
    ///
    /// Returns whether the thread goes on reading. If so, the channel has
    /// taken exactly the bytes read. If not, this end of the channel is
    /// closed, for good: the read failed or found the end of the input, or the
    /// bridge is gone.
    pub fn feed(&mut self, read: Option<usize>, scratch: &[u8]) -> (go_on: bool)
        ensures
            go_on == final(self).open(),
            go_on ==> old(self).open() && chunk_of(read, scratch@) is Some && final(self).fed()
                == old(self).fed() + chunk_of(read, scratch@).unwrap(),
            !go_on ==> final(self).fed() == old(self).fed(),
            !old(self).open() || chunk_of(read, scratch@) is None ==> !go_on,
    {
        let snd = self.snd.take();
        match snd {
            None => false,
            Some(snd) => match next_chunk(read, scratch) {
                None => false,
                Some(chunk) => {
                    let ghost bytes = chunk@;
                    self.snd = send_blocking(snd, chunk);
                    if self.snd.is_some() {
                        proof {
                            self.fed@ = self.fed@ + bytes;
                        }
                        true
                    } else {
                        false
                    }
                },
            },
        }
    }
}

/// A read bridge over a new channel that queues `queue_size` chunks, and the
/// end of that channel for the reader thread.
pub fn read_bridge(queue_size: usize) -> (r: (ThreadedStdin, Feeder))
    requires
        queue_size < MAX_QUEUE,
    ensures
        r.0@ == ReadModel::fresh(),
        r.1.open(),
        r.1.fed() == Seq::<u8>::empty(),
{
    let (snd, rcv) = futures::sync::mpsc::channel::<Box<[u8]>>(queue_size);
    (ThreadedStdin::new(rcv), Feeder { snd: Some(snd), fed: Ghost(Seq::empty()) })
}

/// One poll of a run: what the channel would answer if asked, and how much
/// room the caller's buffer has.
pub struct ReadPoll {
    pub event: ChannelEvent,
    pub room: nat,
}

/// What a run of polls amounts to.
pub struct ReadTrace {
    /// The bridge after the last poll.
    pub end: ReadModel,
    /// The bytes taken out of the channel during the run, in order.
    pub fed: Seq<u8>,
    /// The bytes put into the callers' buffers during the run, in order.
    pub out: Seq<u8>,
}

impl ReadModel {
    /// The bytes that a poll takes out of the channel: the chunk that the
    /// channel offers, if the bridge asks the channel at all.
    pub open spec fn fed_by(self, event: ChannelEvent) -> Seq<u8> {
        match event {
            ChannelEvent::Ready(chunk) => if self.asks_channel() {
                chunk
            } else {
                Seq::empty()
            },
            _ => Seq::empty(),
        }
    }

    /// A run of polls, one after the other.
    pub open spec fn run(self, polls: Seq<ReadPoll>) -> ReadTrace
        decreases polls.len(),
    {
        if polls.len() == 0 {
            ReadTrace { end: self, fed: Seq::empty(), out: Seq::empty() }
        } else {
            let first = self.step(polls[0].event, polls[0].room);
            let rest = first.next.run(polls.skip(1));
            ReadTrace {
                end: rest.end,
                fed: self.fed_by(polls[0].event) + rest.fed,
                out: first.given + rest.out,
            }
        }
    }
}

/// One poll loses nothing: what was owed before, followed by what the poll
/// took out of the channel, is what the poll handed to the caller, followed
/// by what is owed after. The caller gets no more than the buffer has room
/// for, and the histories grow by exactly these bytes.
pub proof fn lemma_step_preserves_bytes(m: ReadModel, event: ChannelEvent, room: nat)
    ensures
        m.debt + m.fed_by(event) == m.step(event, room).given + m.step(event, room).next.debt,
        m.step(event, room).given.len() <= room,
        m.step(event, room).next.received == m.received + m.fed_by(event),
        m.step(event, room).next.delivered == m.delivered + m.step(event, room).given,
        m.wf() ==> m.step(event, room).next.wf(),
{
    let step = m.step(event, room);
    let fed = m.fed_by(event);
    assert(m.debt + fed =~= step.given + step.next.debt);
    assert(step.next.received =~= m.received + fed);
    assert(step.next.delivered =~= m.delivered + step.given);
    if m.wf() {
        assert(step.next.received =~= step.next.delivered + step.next.debt) by {
            assert(m.received + fed =~= m.delivered + (m.debt + fed));
            assert(m.delivered + (step.given + step.next.debt) =~= (m.delivered + step.given)
                + step.next.debt);
        }
    }
}

/// Byte preservation. Over any run of polls, with buffers of any sizes and
/// chunks cut anywhere: the bytes handed to the callers, followed by what is
/// still owed at the end, are exactly what was owed at the start followed by
/// the bytes taken out of the channel. Nothing is lost, doubled or reordered.
pub proof fn lemma_byte_preservation(m: ReadModel, polls: Seq<ReadPoll>)
    ensures
        m.debt + m.run(polls).fed == m.run(polls).out + m.run(polls).end.debt,
        m.run(polls).end.received == m.received + m.run(polls).fed,
        m.run(polls).end.delivered == m.delivered + m.run(polls).out,
        m.wf() ==> m.run(polls).end.wf(),
    decreases polls.len(),
{
    let trace = m.run(polls);
    if polls.len() == 0 {
        assert(m.debt + trace.fed =~= trace.out + trace.end.debt);
        assert(trace.end.received =~= m.received + trace.fed);
        assert(trace.end.delivered =~= m.delivered + trace.out);
    } else {
        let first = m.step(polls[0].event, polls[0].room);
        let fed = m.fed_by(polls[0].event);
        let rest = first.next.run(polls.skip(1));
        lemma_step_preserves_bytes(m, polls[0].event, polls[0].room);
        lemma_byte_preservation(first.next, polls.skip(1));
        assert(m.debt + trace.fed =~= trace.out + trace.end.debt) by {
            assert(m.debt + (fed + rest.fed) =~= (m.debt + fed) + rest.fed);
            assert((first.given + first.next.debt) + rest.fed =~= first.given + (first.next.debt
                + rest.fed));
            assert(first.given + (rest.out + rest.end.debt) =~= (first.given + rest.out)
                + rest.end.debt);
        }
        assert(trace.end.received =~= m.received + trace.fed) by {
            assert((m.received + fed) + rest.fed =~= m.received + (fed + rest.fed));
        }
        assert(trace.end.delivered =~= m.delivered + trace.out) by {
            assert((m.delivered + first.given) + rest.out =~= m.delivered + (first.given
                + rest.out));
        }
    }
}

/// For a bridge that starts with nothing, whenever nothing is owed the
/// callers have been given exactly the bytes that came out of the channel.
pub proof fn lemma_drained_means_all_delivered(polls: Seq<ReadPoll>)
    ensures
        ReadModel::fresh().run(polls).end.debt.len() == 0 ==> ReadModel::fresh().run(polls).out
            == ReadModel::fresh().run(polls).fed,
{
    let trace = ReadModel::fresh().run(polls);
    lemma_byte_preservation(ReadModel::fresh(), polls);
    if trace.end.debt.len() == 0 {
        assert(ReadModel::fresh().debt + trace.fed =~= trace.fed);
        assert(trace.out + trace.end.debt =~= trace.out);
    }
}

/// Debt goes first, and draining it makes progress: while bytes are owed, a
/// poll with room for at least one byte hands out at least one, takes nothing
/// out of the channel, and what it hands out is the front of the debt.
pub proof fn lemma_debt_is_drained_first(m: ReadModel, event: ChannelEvent, room: nat)
    requires
        m.terminal is None,
        m.debt.len() > 0,
    ensures
        m.fed_by(event).len() == 0,
        m.step(event, room).result == PollResult::Ready(fitting(m.debt.len(), room) as usize),
        m.step(event, room).given == m.debt.take(fitting(m.debt.len(), room) as int),
        m.step(event, room).next.debt == m.debt.skip(fitting(m.debt.len(), room) as int),
        room > 0 ==> m.step(event, room).given.len() > 0,
{
}

/// A bridge that has failed stays failed: every later poll reports the same
/// error, moves no byte and leaves the bridge as it is.
pub proof fn lemma_terminal_is_final(m: ReadModel, kind: ErrorKind, event: ChannelEvent, room: nat)
    requires
        m.terminal == Some(kind),
    ensures
        m.step(event, room).result == PollResult::<usize>::Error(kind),
        m.step(event, room).next == m,
        m.step(event, room).given.len() == 0,
{
}

/// What a read bridge remembers between polls: the chunk received last, and
/// how far callers have got with it.
struct Backlog {
    /// The chunk received last.
    chunk: Vec<u8>,
    /// How much of `chunk` callers have taken.
    taken: usize,
    terminal: Option<ErrorKind>,
    /// All chunks before `chunk`, concatenated.
    earlier: Ghost<Seq<u8>>,
}

impl View for Backlog {
    type V = ReadModel;

    closed spec fn view(&self) -> ReadModel {
        ReadModel {
            debt: self.chunk@.skip(self.taken as int),
            terminal: self.terminal,
            received: self.earlier@ + self.chunk@,
            delivered: self.earlier@ + self.chunk@.take(self.taken as int),
        }
    }
}

impl Backlog {
    #[verifier::type_invariant]
    spec fn inv(self) -> bool {
        self.taken <= self.chunk@.len()
    }

    fn new() -> (r: Self)
        ensures
            r@ == ReadModel::fresh(),
    {
        let r = Backlog {
            chunk: Vec::new(),
            taken: 0,
            terminal: None,
            earlier: Ghost(Seq::empty()),
        };
        assert(r@.debt =~= Seq::<u8>::empty());
        assert(r@.received =~= Seq::<u8>::empty());
        assert(r@.delivered =~= Seq::<u8>::empty());
        r
    }

    fn asks_channel(&self) -> (b: bool)
        ensures
            b == self@.asks_channel(),
    {
        proof {
            use_type_invariant(self);
            self.lemma_view();
        }
        self.terminal.is_none() && self.taken == self.chunk.len()
    }

    fn deliver(&mut self, event: ChannelPoll, buf: &mut [u8]) -> (r: PollResult<usize>)
        ensures
            old(self)@.step(event@, old(buf)@.len()).yields(
                final(self)@,
                r,
                old(buf)@,
                final(buf)@,
            ),
            read_told(old(self)@, final(self)@, r, old(buf)@, final(buf)@),
            final(self)@.wf(),
    {
        proof {
            use_type_invariant(&*self);
            self.lemma_view();
        }
        let ghost step = self@.step(event@, buf@.len());
        if let Some(kind) = self.terminal {
            assert(buf@ =~= step.given + buf@.skip(0));
            return PollResult::Error(kind);
        }
        if self.taken < self.chunk.len() {
            let n: usize = copy_from(buf, self.chunk.as_slice(), self.taken);
            self.taken = self.taken + n;
            proof {
                self.lemma_view();
                assert(self@.debt =~= step.next.debt);
                assert(self@.delivered =~= step.next.delivered);
                assert(buf@ =~= step.given + old(buf)@.skip(n as int));
                assert(buf@.take(n as int) =~= step.given);
                assert(buf@.skip(n as int) =~= old(buf)@.skip(n as int));
            }
            return PollResult::Ready(n);
        }
        match event {
            ChannelPoll::Ready(chunk) => {
                proof {
                    self.earlier@ = self.earlier@ + self.chunk@;
                }
                self.taken = 0;
                self.chunk = chunk;
                let n: usize = copy_from(buf, self.chunk.as_slice(), 0);
                self.taken = n;
                proof {
                    self.lemma_view();
                    assert(old(self)@.received =~= old(self)@.delivered);
                    assert(self@.debt =~= step.next.debt);
                    assert(self@.delivered =~= step.next.delivered);
                    assert(buf@ =~= step.given + old(buf)@.skip(n as int));
                    assert(buf@.take(n as int) =~= step.given);
                    assert(buf@.skip(n as int) =~= old(buf)@.skip(n as int));
                }
                PollResult::Ready(n)
            },
            ChannelPoll::Pending => {
                assert(buf@ =~= step.given + buf@.skip(0));
                PollResult::Pending
            },
            ChannelPoll::Closed => {
                self.terminal = Some(ErrorKind::BrokenPipe);
                assert(buf@ =~= step.given + buf@.skip(0));
                PollResult::Error(ErrorKind::BrokenPipe)
            },
            ChannelPoll::Errored => {
                self.terminal = Some(ErrorKind::Other);
                assert(buf@ =~= step.given + buf@.skip(0));
                PollResult::Error(ErrorKind::Other)
            },
        }
    }

    /// The view of a backlog whose cursor lies inside its chunk loses no byte.
    proof fn lemma_view(&self)
        requires
            self.taken <= self.chunk@.len(),
        ensures
            self@.wf(),
            self@.debt.len() == self.chunk@.len() - self.taken,
    {
        let t = self.taken as int;
        assert(self.chunk@ =~= self.chunk@.take(t) + self.chunk@.skip(t));
        assert(self@.received =~= self@.delivered + self@.debt);
    }
}

/// Asynchronous stdin: the polling half of a read bridge.
pub struct ThreadedStdin {
    backlog: Backlog,
    rcv: Spawn<Receiver<Box<[u8]>>>,
    /// The receiving end that `rcv` was made of.
    origin: Ghost<Receiver<Box<[u8]>>>,
}

impl View for ThreadedStdin {
    type V = ReadModel;

    closed spec fn view(&self) -> ReadModel {
        self.backlog@
    }
}

impl ThreadedStdin {
    /// The receiving end of the channel that the bridge was made over: the
    /// one that every poll of the bridge asks for chunks.
    pub closed spec fn source(&self) -> Receiver<Box<[u8]>> {
        self.origin@
    }

    /// A bridge that takes its chunks from `rcv`.
    pub fn new(rcv: Receiver<Box<[u8]>>) -> (r: Self)
        ensures
            r@ == ReadModel::fresh(),
            r.source() == rcv,
    {
        let ghost origin = rcv;
        ThreadedStdin {
            backlog: Backlog::new(),
            rcv: futures::executor::spawn(rcv),
            origin: Ghost(origin),
        }
    }

    /// Whether the next poll looks at the channel: nothing is owed and the
    /// bridge has not failed.
    pub fn asks_channel(&self) -> (b: bool)
        ensures
            b == self@.asks_channel(),
    {
        self.backlog.asks_channel()
    }

    /// Tries to fill `buf`, without blocking.
    ///
    /// Bytes owed from an earlier chunk go first, and while any are owed the
    /// channel is not touched. Otherwise the channel is asked once, and
    /// `waker` is invoked later if it had nothing.
    pub fn poll_read(&mut self, buf: &mut [u8], waker: &NotifyHandle) -> (r: PollResult<usize>)
        ensures
            !old(self)@.asks_channel() ==> old(self)@.step(
                ChannelEvent::Pending,
                old(buf)@.len(),
            ).yields(final(self)@, r, old(buf)@, final(buf)@),
            old(self)@.asks_channel() ==> exists|event: ChannelEvent| #[trigger]
                old(self)@.step(event, old(buf)@.len()).yields(
                    final(self)@,
                    r,
                    old(buf)@,
                    final(buf)@,
                ),
            read_told(old(self)@, final(self)@, r, old(buf)@, final(buf)@),
            final(self)@.wf(),
            final(self).source() == old(self).source(),
    {
        let ghost before = self@;
        let event = if self.backlog.asks_channel() {
            try_receive(&mut self.rcv, waker, WAKER_ID)
        } else {
            ChannelPoll::Pending
        };
        let r = self.deliver(event, buf);
        assert(before.step(event@, old(buf)@.len()).yields(self@, r, old(buf)@, buf@));
        r
    }

    /// The step of [`ThreadedStdin::poll_read`] for a given answer of the
    /// channel. `event` is ignored unless `self@.asks_channel()`.
    pub fn deliver(&mut self, event: ChannelPoll, buf: &mut [u8]) -> (r: PollResult<usize>)
        ensures
            old(self)@.step(event@, old(buf)@.len()).yields(
                final(self)@,
                r,
                old(buf)@,
                final(buf)@,
            ),
            read_told(old(self)@, final(self)@, r, old(buf)@, final(buf)@),
            final(self)@.wf(),
            final(self).source() == old(self).source(),
    {
        self.backlog.deliver(event, buf)
    }
}

} // verus!
