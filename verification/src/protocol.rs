//! The two paths as wholes: a bridge, what lies between it and its thread,
//! and the thread, taking turns.
//!
//! Every access to the channel or to the mailbox is one indivisible step, so
//! that a run of a path is a sequence of such steps. This file states what
//! holds of every such run. Its steps are made of the same functions by which
//! the bridges, the request and the threads are specified. What it adds is a
//! picture of what lies between: a channel that hands out the chunks in the
//! order in which it took them, and a mailbox that holds what was put there
//! last. No function of the crate relies on that picture; it serves to say
//! what the functions achieve together.

use crate::buffer::fitting;
use crate::channel::ChannelEvent;
use crate::poll::ErrorKind;
use crate::poll::PollResult;
use crate::request::RequestModel;
use crate::request::WriterAction;
use crate::stdin::chunk_of;
use crate::stdin::lemma_step_preserves_bytes;
use crate::stdin::ReadModel;
use crate::stdin::ReadStep;
use crate::stdout::Phase;
use crate::stdout::ShutdownStep;
use crate::stdout::WriteState;
use futures::executor::NotifyHandle;
use vstd::prelude::*;

verus! {

/// The read path between two steps.
pub struct ReadPath {
    /// Whether the reader thread still holds its end of the channel.
    pub feeding: bool,
    /// Every byte that the reader thread has read from the device and handed
    /// to the channel, in order.
    pub fed: Seq<u8>,
    /// The chunks that are in the channel, oldest first.
    pub queue: Seq<Seq<u8>>,
    /// The bridge.
    pub bridge: ReadModel,
}

impl ReadPath {
    /// The read path of a bridge that has just been made.
    pub open spec fn fresh() -> ReadPath {
        ReadPath {
            feeding: true,
            fed: Seq::empty(),
            queue: Seq::empty(),
            bridge: ReadModel::fresh(),
        }
    }

    /// What holds between any two steps. Every byte read from the device is
    /// in one place, and the places are in order: first what the callers have
    /// got, then what the bridge owes, then what is in the channel. The bridge
    /// has reported the end of the input only if the reader thread has ended
    /// and nothing is left on the way.
    pub open spec fn wf(self) -> bool {
        &&& self.fed == self.bridge.delivered + self.bridge.debt + self.queue.flatten()
        &&& self.bridge.wf()
        &&& self.bridge.terminal matches Some(kind) ==> kind == ErrorKind::BrokenPipe
            && !self.feeding && self.queue.len() == 0 && self.bridge.debt.len() == 0
    }

    /// What the channel says when it is asked.
    pub open spec fn event(self) -> ChannelEvent {
        if self.queue.len() > 0 {
            ChannelEvent::Ready(self.queue[0])
        } else if self.feeding {
            ChannelEvent::Pending
        } else {
            ChannelEvent::Closed
        }
    }

    /// The reader thread deals with the outcome of one blocking read into
    /// `scratch`: it sends what was read, or ends.
    pub open spec fn feed(self, read: Option<usize>, scratch: Seq<u8>) -> ReadPath {
        if !self.feeding {
            self
        } else {
            match chunk_of(read, scratch) {
                Some(chunk) => ReadPath {
                    fed: self.fed + chunk,
                    queue: self.queue.push(chunk),
                    ..self
                },
                None => ReadPath { feeding: false, ..self },
            }
        }
    }

    /// The bridge polls a read into a buffer with room for `room` bytes.
    pub open spec fn poll_read(self, room: nat) -> (ReadPath, ReadStep) {
        let step = self.bridge.step(self.event(), room);
        (
            ReadPath {
                queue: if self.bridge.asks_channel() && self.queue.len() > 0 {
                    self.queue.skip(1)
                } else {
                    self.queue
                },
                bridge: step.next,
                ..self
            },
            step,
        )
    }
}

/// A path that has just been made is well formed.
pub proof fn lemma_fresh_read_path_is_wf()
    ensures
        ReadPath::fresh().wf(),
{
    let path = ReadPath::fresh();
    assert(path.queue.flatten() =~= Seq::<u8>::empty());
    assert(path.fed =~= path.bridge.delivered + path.bridge.debt + path.queue.flatten());
    assert(path.bridge.received =~= path.bridge.delivered + path.bridge.debt);
}

/// Byte preservation, for the path as a whole. Every step keeps the path
/// well formed: whatever the reader thread reads, wherever it cuts its chunks
/// and whatever room the callers' buffers have, every byte read from the
/// device is with the callers, owed by the bridge or in the channel, in this
/// order, once. A poll gives the caller the bytes that follow on those given
/// before, and takes nothing from the device.
pub proof fn lemma_read_path_keeps_bytes(
    path: ReadPath,
    read: Option<usize>,
    scratch: Seq<u8>,
    room: nat,
)
    requires
        path.wf(),
    ensures
        path.feed(read, scratch).wf(),
        path.feed(read, scratch).bridge == path.bridge,
        path.feeding && chunk_of(read, scratch) is Some ==> path.feed(read, scratch).fed
            == path.fed + scratch.take(read.unwrap() as int),
        path.poll_read(room).0.wf(),
        path.poll_read(room).0.fed == path.fed,
        path.poll_read(room).0.bridge.delivered == path.bridge.delivered + path.poll_read(
            room,
        ).1.given,
        path.poll_read(room).1.given.len() <= room,
{
    broadcast use Seq::lemma_flatten_push;

    let fed = path.feed(read, scratch);
    if path.feeding {
        if let Some(chunk) = chunk_of(read, scratch) {
            assert(fed.fed =~= fed.bridge.delivered + fed.bridge.debt + fed.queue.flatten());
        }
    }
    let event = path.event();
    let (polled, step) = path.poll_read(room);
    lemma_step_preserves_bytes(path.bridge, event, room);
    if path.bridge.asks_channel() {
        assert(path.bridge.delivered + path.bridge.debt =~= path.bridge.delivered);
        if path.queue.len() > 0 {
            let chunk = path.queue[0];
            assert(path.queue.skip(1) =~= path.queue.drop_first());
            assert(path.queue.flatten() =~= chunk + path.queue.skip(1).flatten());
            assert(chunk =~= step.given + step.next.debt);
            assert(polled.fed =~= polled.bridge.delivered + polled.bridge.debt
                + polled.queue.flatten());
        } else {
            assert(polled.bridge.debt =~= path.bridge.debt);
            assert(polled.bridge.delivered =~= path.bridge.delivered);
        }
    } else if path.bridge.terminal is None {
        assert(path.bridge.debt =~= step.given + step.next.debt);
        assert(polled.fed =~= polled.bridge.delivered + polled.bridge.debt
            + polled.queue.flatten());
    }
}

/// The end of the input is reported when, and only when, the reader thread
/// has ended and every byte that it read has been given to the callers: none
/// is owed, none is in the channel, and what the callers have got is what was
/// read from the device.
pub proof fn lemma_end_of_input_means_all_delivered(path: ReadPath, room: nat)
    requires
        path.wf(),
    ensures
        path.poll_read(room).1.result is Error <==> !path.feeding && path.queue.len() == 0
            && path.bridge.debt.len() == 0,
        path.poll_read(room).1.result is Error ==> {
            &&& path.poll_read(room).1.result == PollResult::<usize>::Error(ErrorKind::BrokenPipe)
            &&& path.poll_read(room).0.bridge.delivered == path.fed
            &&& path.poll_read(room).1.given.len() == 0
        },
{
    if path.poll_read(room).1.result is Error {
        assert(path.queue.flatten() =~= Seq::<u8>::empty());
        assert(path.fed =~= path.bridge.delivered);
    }
}

/// A read is told to wait when, and only when, there is nothing to give and
/// more may come: nothing is owed, nothing is in the channel, and the reader
/// thread has not ended. Then the poll changes nothing. In every other case
/// the caller gets bytes, as many as fit of the oldest that are on the way.
pub proof fn lemma_read_waits_only_for_the_reader(path: ReadPath, room: nat)
    requires
        path.wf(),
    ensures
        path.poll_read(room).1.result is Pending <==> path.feeding && path.queue.len() == 0
            && path.bridge.debt.len() == 0,
        path.poll_read(room).1.result is Pending ==> path.poll_read(room).0 == path,
        path.bridge.debt.len() > 0 ==> path.poll_read(room).1.given == path.bridge.debt.take(
            fitting(path.bridge.debt.len(), room) as int,
        ),
        path.bridge.debt.len() == 0 && path.queue.len() > 0 ==> path.poll_read(room).1.given
            == path.queue[0].take(fitting(path.queue[0].len(), room) as int),
{
}

/// The write path between two steps.
pub struct WritePath {
    /// The bridge.
    pub bridge: WriteState,
    /// What the mailbox holds.
    pub mailbox: Option<RequestModel>,
    /// Whether a poll of the bridge is under way, and if so, what it has
    /// taken out of the mailbox and not yet put back.
    pub polling: Option<Option<RequestModel>>,
    /// What the writer thread has taken out of the mailbox and not yet put
    /// back.
    pub held: Option<RequestModel>,
    /// Whether the writer thread sleeps at the mailbox, until it is woken.
    pub asleep: bool,
    /// Every byte that the writer thread has written to the device, in order.
    pub device: Seq<u8>,
    /// Every waker that the writer thread has invoked, in order.
    pub woken: Seq<NotifyHandle>,
}

/// `wakers` with `due` added at the end, if there is one.
pub open spec fn with_woken(wakers: Seq<NotifyHandle>, due: Option<NotifyHandle>) -> Seq<
    NotifyHandle,
> {
    match due {
        Some(waker) => wakers.push(waker),
        None => wakers,
    }
}

/// Whether the writer thread waits for what this mailbox holds.
pub open spec fn wanted(mailbox: Option<RequestModel>) -> bool {
    mailbox matches Some(request) && request.action() != WriterAction::Idle
}

impl WritePath {
    /// The write path of a bridge that has just been made, with a request of
    /// the given capacity.
    pub open spec fn fresh(capacity: nat) -> WritePath {
        WritePath {
            bridge: WriteState::fresh(),
            mailbox: Some(RequestModel::empty(capacity)),
            polling: None,
            held: None,
            asleep: false,
            device: Seq::empty(),
            woken: Seq::empty(),
        }
    }

    /// What the bridge has in its hands.
    pub open spec fn in_hand(self) -> Option<RequestModel> {
        match self.polling {
            Some(taken) => taken,
            None => None,
        }
    }

    /// The one request of the path, wherever it is.
    pub open spec fn request(self) -> RequestModel {
        match self.mailbox {
            Some(request) => request,
            None => match self.held {
                Some(request) => request,
                None => match self.in_hand() {
                    Some(request) => request,
                    None => arbitrary(),
                },
            },
        }
    }

    /// What holds between any two steps. There is one request, and it is in
    /// one place: in the mailbox, with the bridge or with the writer thread.
    /// The writer thread holds it only while it has something to do with it,
    /// and sleeps only while the mailbox holds nothing for it. The end of the
    /// stream is marked only while the bridge waits for the answer, and once
    /// the answer is there the writer thread leaves the request alone.
    pub open spec fn wf(self) -> bool {
        let places = (if self.mailbox is Some { 1int } else { 0int })
            + (if self.held is Some { 1int } else { 0int })
            + (if self.in_hand() is Some { 1int } else { 0int });
        &&& places == 1
        &&& self.request().wf()
        &&& self.held is Some ==> self.request().action() != WriterAction::Idle && !self.asleep
        &&& self.asleep ==> !wanted(self.mailbox)
        &&& self.request().closing ==> self.bridge.phase == Phase::Closing
        &&& self.bridge.phase == Phase::Joining || self.bridge.phase == Phase::Closed
            ==> self.held is None && self.request().pending.len() == 0
    }

    /// Whether the bridge is between polls.
    pub open spec fn resting(self) -> bool {
        self.polling is None
    }

    /// A poll of the bridge begins: it takes out of the mailbox what is
    /// there.
    pub open spec fn begin_poll(self) -> WritePath {
        WritePath { mailbox: None, polling: Some(self.mailbox), ..self }
    }

    /// A poll of the bridge ends: what it took goes back as the step of the
    /// bridge left it, and the writer thread is woken if the step says so.
    pub open spec fn end_poll(
        self,
        next: WriteState,
        back: Option<RequestModel>,
        notify: bool,
    ) -> WritePath {
        WritePath {
            bridge: next,
            mailbox: if self.in_hand() is Some {
                back
            } else {
                self.mailbox
            },
            polling: None,
            asleep: self.asleep && !(self.in_hand() is Some && notify),
            ..self
        }
    }

    /// A write of `data` that is under way comes to its end.
    pub open spec fn end_write(self, data: Seq<u8>, waker: NotifyHandle) -> (
        WritePath,
        PollResult<usize>,
    ) {
        let outcome = self.bridge.write(self.in_hand(), data, waker);
        (self.end_poll(outcome.next, outcome.back, outcome.notify), outcome.result)
    }

    /// A flush that is under way comes to its end.
    pub open spec fn end_flush(self) -> (WritePath, PollResult<()>) {
        let outcome = self.bridge.flush(self.in_hand());
        (self.end_poll(outcome.next, outcome.back, outcome.notify), outcome.result)
    }

    /// A poll of the shutdown that is under way comes to its end.
    pub open spec fn end_shutdown(self, waker: NotifyHandle) -> (WritePath, ShutdownStep) {
        let outcome = self.bridge.shutdown(self.in_hand(), waker);
        (self.end_poll(outcome.next, outcome.back, outcome.notify), outcome.result)
    }

    /// The bridge polls a write of `data`, from beginning to end with nothing
    /// in between.
    pub open spec fn poll_write(self, data: Seq<u8>, waker: NotifyHandle) -> (
        WritePath,
        PollResult<usize>,
    ) {
        if self.bridge.write_asks_mailbox(data.len()) {
            self.begin_poll().end_write(data, waker)
        } else {
            (self, self.bridge.write(None, data, waker).result)
        }
    }

    /// The bridge polls a flush, from beginning to end with nothing in
    /// between.
    pub open spec fn poll_flush(self) -> (WritePath, PollResult<()>) {
        if self.bridge.flush_asks_mailbox() {
            self.begin_poll().end_flush()
        } else {
            (self, self.bridge.flush(None).result)
        }
    }

    /// The bridge polls the shutdown, from beginning to end with nothing in
    /// between.
    pub open spec fn poll_shutdown(self, waker: NotifyHandle) -> (WritePath, ShutdownStep) {
        if self.bridge.shutdown_asks_mailbox() {
            self.begin_poll().end_shutdown(waker)
        } else {
            (self, self.bridge.shutdown(None, waker).result)
        }
    }

    /// The caller reports how the join of the writer thread went.
    pub open spec fn joined(self, ok: bool) -> (WritePath, PollResult<()>) {
        (WritePath { bridge: self.bridge.joined(ok).0, ..self }, self.bridge.joined(ok).1)
    }

    /// The writer thread, awake and with empty hands, looks into the mailbox:
    /// it takes the request if it waits for such a one, and goes to sleep if
    /// not.
    pub open spec fn writer_checks(self) -> WritePath {
        if wanted(self.mailbox) {
            WritePath { mailbox: None, held: self.mailbox, asleep: false, ..self }
        } else {
            WritePath { asleep: true, ..self }
        }
    }

    /// The writer thread has done what the request asked for, and puts the
    /// request back. For a write, `ok` says whether the device took the
    /// bytes.
    pub open spec fn writer_reports(self, ok: bool) -> WritePath {
        let request = self.request();
        match request.action() {
            WriterAction::Write => WritePath {
                mailbox: Some(request.complete(ok).0),
                held: None,
                device: if ok {
                    self.device + request.pending
                } else {
                    self.device
                },
                woken: with_woken(self.woken, request.complete(ok).1),
                ..self
            },
            WriterAction::Finish => WritePath {
                mailbox: Some(request.end_close().0),
                held: None,
                woken: with_woken(self.woken, request.end_close().1),
                ..self
            },
            WriterAction::Idle => WritePath { mailbox: Some(request), held: None, ..self },
        }
    }

    /// The path after a caller has written all of `data`: the bridge offers
    /// what is left after each `Ready`, and between two offers the writer
    /// thread takes the request, writes with success and reports.
    pub open spec fn write_all(self, data: Seq<u8>, waker: NotifyHandle) -> WritePath
        decreases data.len(),
    {
        if data.len() == 0 {
            self
        } else {
            let (accepted, result) = self.poll_write(data, waker);
            match result {
                PollResult::Ready(n) => if 0 < n <= data.len() {
                    accepted.writer_checks().writer_reports(true).write_all(
                        data.skip(n as int),
                        waker,
                    )
                } else {
                    accepted
                },
                _ => accepted,
            }
        }
    }

    /// Bytes `bytes`, at least one, have been accepted and not yet written.
    pub open spec fn in_flight(self, bytes: Seq<u8>) -> bool {
        bytes.len() > 0 && self.request().pending == bytes
    }
}

/// A path that has just been made is well formed.
pub proof fn lemma_fresh_path_is_wf(capacity: nat)
    ensures
        WritePath::fresh(capacity).wf(),
        WritePath::fresh(capacity).resting(),
        WritePath::fresh(capacity).request().idle(),
{
}

/// Every step keeps the path well formed, whatever the other side does
/// between the beginning and the end of a poll. A poll has a beginning and an
/// end only if it looks into the mailbox.
pub proof fn lemma_steps_keep_path_wf(path: WritePath, data: Seq<u8>, waker: NotifyHandle, ok: bool)
    requires
        path.wf(),
    ensures
        path.resting() ==> path.begin_poll().wf() && !path.begin_poll().resting(),
        !path.resting() && path.bridge.write_asks_mailbox(data.len()) ==> path.end_write(
            data,
            waker,
        ).0.wf() && path.end_write(data, waker).0.resting(),
        !path.resting() && path.bridge.flush_asks_mailbox() ==> path.end_flush().0.wf()
            && path.end_flush().0.resting(),
        !path.resting() && path.bridge.shutdown_asks_mailbox() ==> path.end_shutdown(waker).0.wf()
            && path.end_shutdown(waker).0.resting(),
        path.resting() ==> path.poll_write(data, waker).0.wf() && path.poll_write(
            data,
            waker,
        ).0.resting(),
        path.resting() ==> path.poll_flush().0.wf() && path.poll_flush().0.resting(),
        path.resting() ==> path.poll_shutdown(waker).0.wf() && path.poll_shutdown(
            waker,
        ).0.resting(),
        path.resting() ==> path.joined(ok).0.wf(),
        path.held is None ==> path.writer_checks().wf(),
        path.held is Some ==> path.writer_reports(ok).wf(),
{
}

/// No wake-up is lost. The writer thread never sleeps while the mailbox
/// holds a request that it waits for: if it looked into the mailbox while a
/// poll had the request, and went to sleep, the end of that poll wakes it.
/// So whenever such a request is in the mailbox, the writer thread is awake
/// and takes it at its next look.
pub proof fn lemma_no_lost_wake_up(path: WritePath, data: Seq<u8>, waker: NotifyHandle)
    requires
        path.wf(),
    ensures
        wanted(path.mailbox) ==> !path.asleep,
        wanted(path.mailbox) && path.held is None ==> path.writer_checks().held == path.mailbox,
        !path.resting() && path.bridge.write_asks_mailbox(data.len()) ==> (wanted(
            path.end_write(data, waker).0.mailbox,
        ) ==> !path.end_write(data, waker).0.asleep),
        !path.resting() && path.bridge.flush_asks_mailbox() ==> (wanted(
            path.end_flush().0.mailbox,
        ) ==> !path.end_flush().0.asleep),
        !path.resting() && path.bridge.shutdown_asks_mailbox() ==> (wanted(
            path.end_shutdown(waker).0.mailbox,
        ) ==> !path.end_shutdown(waker).0.asleep),
{
    lemma_steps_keep_path_wf(path, data, waker, true);
}

/// Backpressure, for the path as a whole. A write that is told `Ready(n)`
/// with `n > 0` puts the first `n` bytes of its data in flight. While bytes
/// are in flight, nothing that the bridge does and no look of the writer
/// thread into the mailbox changes them, and every write of at least one byte
/// is `Pending`. Only the report of the writer thread ends this; with it these
/// very bytes, and no others, reach the device if the write succeeded.
pub proof fn lemma_path_backpressure(
    path: WritePath,
    bytes: Seq<u8>,
    data: Seq<u8>,
    waker: NotifyHandle,
    ok: bool,
)
    requires
        path.wf(),
        data.len() <= usize::MAX,
    ensures
        path.resting() ==> (path.poll_write(data, waker).1 matches PollResult::Ready(n) ==> (n > 0
            ==> path.poll_write(data, waker).0.in_flight(data.take(n as int)))),
        path.resting() && path.in_flight(bytes) && data.len() > 0 && path.bridge.phase
            == Phase::Open && !path.bridge.failed ==> path.poll_write(data, waker).1
            == PollResult::<usize>::Pending,
        path.resting() && path.in_flight(bytes) ==> {
            &&& path.poll_write(data, waker).0.in_flight(bytes)
            &&& path.poll_flush().0.in_flight(bytes)
            &&& path.poll_shutdown(waker).0.in_flight(bytes)
            &&& path.begin_poll().in_flight(bytes)
        },
        !path.resting() && path.in_flight(bytes) ==> {
            &&& path.bridge.write_asks_mailbox(data.len()) ==> path.end_write(
                data,
                waker,
            ).0.in_flight(bytes)
            &&& path.bridge.flush_asks_mailbox() ==> path.end_flush().0.in_flight(bytes)
            &&& path.bridge.shutdown_asks_mailbox() ==> path.end_shutdown(waker).0.in_flight(
                bytes,
            )
        },
        path.in_flight(bytes) && path.held is None ==> path.writer_checks().in_flight(bytes),
        path.in_flight(bytes) && path.held is Some ==> {
            &&& !path.writer_reports(ok).in_flight(bytes)
            &&& path.writer_reports(ok).request().pending.len() == 0
            &&& path.writer_reports(true).device == path.device + bytes
            &&& path.writer_reports(false).device == path.device
        },
{
}

/// Wake liveness, for the path as a whole. If a write is told `Pending`,
/// then bytes are in flight and a waker is stored with them. The request is
/// with the writer thread, or the writer thread is awake and takes it at its
/// next look. The report of the writer thread then invokes the stored waker,
/// once, and afterwards the same write is accepted, or refused for good if the
/// device failed.
pub proof fn lemma_path_pending_is_woken(path: WritePath, data: Seq<u8>, waker: NotifyHandle)
    requires
        path.wf(),
        path.resting(),
        data.len() <= usize::MAX,
        path.poll_write(data, waker).1 == PollResult::<usize>::Pending,
    ensures
        path.poll_write(data, waker).0.request() == path.request(),
        path.poll_write(data, waker).0.held == path.held,
        path.request().pending.len() > 0,
        path.request().waker is Some,
        ({
            let polled = path.poll_write(data, waker).0;
            let serving = if polled.held is Some {
                polled
            } else {
                polled.writer_checks()
            };
            &&& !polled.asleep
            &&& serving.held == Some(path.request())
            &&& serving.writer_reports(true).woken == path.woken.push(path.request().waker.unwrap())
            &&& serving.writer_reports(false).woken == path.woken.push(
                path.request().waker.unwrap(),
            )
            &&& serving.writer_reports(true).poll_write(data, waker).1 matches PollResult::Ready(n)
                && n > 0
            &&& serving.writer_reports(false).poll_write(data, waker).1 == PollResult::<
                usize,
            >::Error(ErrorKind::Other)
        }),
{
}

/// One whole turn of the write path: an idle request in the mailbox takes
/// from a write what fits, the writer thread takes the request, writes and
/// reports. Then the device has got exactly the bytes that the write was told
/// it had got rid of, the waker of the write has been invoked, and the request
/// is idle in the mailbox again.
pub proof fn lemma_path_turn(path: WritePath, data: Seq<u8>, waker: NotifyHandle)
    requires
        path.wf(),
        path.resting(),
        path.bridge == WriteState::fresh(),
        path.mailbox is Some,
        path.request().idle(),
        path.request().capacity > 0,
        0 < data.len() <= usize::MAX,
    ensures
        ({
            let n = fitting(data.len(), path.request().capacity);
            let accepted = path.poll_write(data, waker);
            let served = accepted.0.writer_checks().writer_reports(true);
            &&& accepted.1 == PollResult::Ready(n as usize)
            &&& wanted(accepted.0.mailbox)
            &&& !accepted.0.asleep
            &&& served.wf()
            &&& served.resting()
            &&& served.device == path.device + data.take(n as int)
            &&& served.woken == path.woken.push(waker)
            &&& served.bridge == WriteState::fresh()
            &&& served.mailbox is Some
            &&& served.request().idle()
            &&& served.request().capacity == path.request().capacity
        }),
{
}

/// No lost writes, for the path as a whole. When a caller writes all of its
/// data through an idle path, however the capacity of the request cuts the
/// data up, the device gets the bytes of the caller, in order, each once, and
/// the path is idle again.
pub proof fn lemma_path_write_all(path: WritePath, data: Seq<u8>, waker: NotifyHandle)
    requires
        path.wf(),
        path.resting(),
        path.bridge == WriteState::fresh(),
        path.mailbox is Some,
        path.request().idle(),
        path.request().capacity > 0,
        data.len() <= usize::MAX,
    ensures
        path.write_all(data, waker).device == path.device + data,
        path.write_all(data, waker).wf(),
        path.write_all(data, waker).resting(),
        path.write_all(data, waker).bridge == WriteState::fresh(),
        path.write_all(data, waker).mailbox is Some,
        path.write_all(data, waker).request().idle(),
    decreases data.len(),
{
    if data.len() == 0 {
        assert(path.device + data =~= path.device);
    } else {
        let n = fitting(data.len(), path.request().capacity);
        let served = path.poll_write(data, waker).0.writer_checks().writer_reports(true);
        lemma_path_turn(path, data, waker);
        lemma_path_write_all(served, data.skip(n as int), waker);
        assert((path.device + data.take(n as int)) + data.skip(n as int) =~= path.device + data);
    }
}

/// The shutdown of an idle path, from beginning to end: the first poll marks
/// the end of the stream and is `Pending`; the writer thread takes the
/// request, acknowledges and invokes the waker of that poll; the next poll
/// asks for the join; the report of a successful join is `Ready`; and from
/// then on every poll is `Ready` and changes nothing.
pub proof fn lemma_path_shutdown(path: WritePath, waker: NotifyHandle, later: NotifyHandle)
    requires
        path.wf(),
        path.resting(),
        path.bridge.phase == Phase::Open,
        path.mailbox is Some,
        path.request().pending.len() == 0,
    ensures
        ({
            let asked = path.poll_shutdown(waker);
            let answered = asked.0.writer_checks().writer_reports(true);
            let joining = answered.poll_shutdown(later);
            let closed = joining.0.joined(true);
            let again = closed.0.poll_shutdown(later);
            &&& asked.1 == ShutdownStep::Report(PollResult::Pending)
            &&& wanted(asked.0.mailbox)
            &&& !asked.0.asleep
            &&& answered.woken == path.woken.push(waker)
            &&& answered.device == path.device
            &&& joining.1 == ShutdownStep::Join
            &&& closed.1 == PollResult::Ready(())
            &&& again.1 == ShutdownStep::Report(PollResult::Ready(()))
            &&& again.0 == closed.0
            &&& closed.0.wf()
        }),
{
}

} // verus!
