//! The write bridge: callers offer bytes, a writer thread takes them to the
//! device one request at a time.

use crate::poll::ErrorKind;
use crate::poll::PollResult;
use crate::rendezvous::Rendezvous;
use crate::request::model_of;
use crate::request::RequestModel;
use crate::request::WriteRequest;
use crate::request::WriterAction;
use crate::sync::share;
use futures::executor::NotifyHandle;
use std::sync::Arc;
use vstd::prelude::*;

verus! {

/// How far a write bridge is on its way to the end.
#[derive(Debug, Clone, Copy, PartialEq, Eq)]
pub enum Phase {
    /// Writes are accepted.
    Open,
    /// The writer thread has been asked to end and has not answered yet.
    Closing,
    /// The writer thread has answered; what is left is to join it.
    Joining,
    /// The writer thread has ended and has been joined.
    Closed,
    /// The hand-off to the writer thread is broken, or the join failed.
    Broken,
}

/// What a write bridge knows of itself.
#[derive(Debug, Clone, Copy, PartialEq, Eq)]
pub struct WriteState {
    /// How far the shutdown has got.
    pub phase: Phase,
    /// Whether a write or a flush has been refused for good.
    pub failed: bool,
}

/// What a poll of the shutdown asks of its caller.
#[derive(Debug, PartialEq, Eq)]
pub enum ShutdownStep {
    /// Tell the task this, and do nothing else.
    Report(PollResult<()>),
    /// Join the writer thread, then say how it went with
    /// [`ThreadedStdout::joined`].
    Join,
}

/// What one poll does, given what it found in the mailbox.
pub struct Outcome<T> {
    /// The bridge afterwards.
    pub next: WriteState,
    /// What goes back into the mailbox.
    pub back: Option<RequestModel>,
    /// Whether the writer thread is woken.
    pub notify: bool,
    /// What the caller is told.
    pub result: T,
}

impl<T> Outcome<T> {
    /// Whether this is what the caller sees: the bridge in state `next`, and
    /// `result` told to the caller.
    pub open spec fn leads_to(self, next: WriteState, result: T) -> bool {
        self.next == next && self.result == result
    }
}

impl WriteState {
    /// A bridge that has just been made.
    pub open spec fn fresh() -> WriteState {
        WriteState { phase: Phase::Open, failed: false }
    }

    /// Nothing goes into the mailbox, nobody is woken, and the bridge stays
    /// as it is.
    pub open spec fn stay<T>(self, result: T) -> Outcome<T> {
        Outcome { next: self, back: None, notify: false, result }
    }

    /// The hand-off to the writer thread turned out to be broken during a
    /// write or a flush.
    pub open spec fn refused<T>(self) -> Outcome<PollResult<T>> {
        Outcome {
            next: WriteState { failed: true, ..self },
            back: None,
            notify: false,
            result: PollResult::Error(ErrorKind::Other),
        }
    }

    /// The hand-off to the writer thread turned out to be broken during the
    /// shutdown.
    pub open spec fn broken(self) -> Outcome<ShutdownStep> {
        Outcome {
            next: WriteState { phase: Phase::Broken, ..self },
            back: None,
            notify: false,
            result: ShutdownStep::Report(PollResult::Error(ErrorKind::Other)),
        }
    }

    /// Whether a write of `len` bytes looks into the mailbox.
    pub open spec fn write_asks_mailbox(self, len: nat) -> bool {
        len > 0 && !self.failed && self.phase == Phase::Open
    }

    /// What a write of `data` does, where `taken` is what the mailbox held,
    /// if the write looks into it.
    pub open spec fn write(
        self,
        taken: Option<RequestModel>,
        data: Seq<u8>,
        waker: NotifyHandle,
    ) -> Outcome<PollResult<usize>> {
        if data.len() == 0 {
            self.stay(PollResult::Ready(0usize))
        } else if self.failed || self.phase != Phase::Open {
            self.stay(PollResult::Error(ErrorKind::Other))
        } else {
            match taken {
                None => self.stay(PollResult::Pending),
                Some(request) => Outcome {
                    next: WriteState {
                        failed: request.offer(data, waker).1 is Error,
                        ..self
                    },
                    back: Some(request.offer(data, waker).0),
                    notify: request.offer(data, waker).0.action() != WriterAction::Idle,
                    result: request.offer(data, waker).1,
                },
            }
        }
    }

    /// Whether a flush looks into the mailbox.
    pub open spec fn flush_asks_mailbox(self) -> bool {
        !self.failed
    }

    /// What a flush does, where `taken` is what the mailbox held, if the
    /// flush looks into it.
    pub open spec fn flush(self, taken: Option<RequestModel>) -> Outcome<PollResult<()>> {
        if self.failed {
            self.stay(PollResult::Error(ErrorKind::Other))
        } else {
            match taken {
                None => self.stay(PollResult::Pending),
                Some(request) => Outcome {
                    next: WriteState { failed: request.failed, ..self },
                    back: Some(request),
                    notify: request.action() != WriterAction::Idle,
                    result: request.flushed(),
                },
            }
        }
    }

    /// Whether a poll of the shutdown looks into the mailbox.
    pub open spec fn shutdown_asks_mailbox(self) -> bool {
        self.phase == Phase::Open || self.phase == Phase::Closing
    }

    /// What a poll of the shutdown does, where `taken` is what the mailbox
    /// held, if the poll looks into it.
    pub open spec fn shutdown(self, taken: Option<RequestModel>, waker: NotifyHandle) -> Outcome<
        ShutdownStep,
    > {
        match self.phase {
            Phase::Closed => self.stay(ShutdownStep::Report(PollResult::Ready(()))),
            Phase::Broken => self.stay(ShutdownStep::Report(PollResult::Error(ErrorKind::Other))),
            Phase::Joining => self.stay(ShutdownStep::Join),
            Phase::Open | Phase::Closing => match taken {
                None => self.stay(ShutdownStep::Report(PollResult::Pending)),
                Some(request) => if request.pending.len() > 0 {
                    Outcome {
                        next: self,
                        back: Some(request),
                        notify: true,
                        result: ShutdownStep::Report(PollResult::Pending),
                    }
                } else if request.closing {
                    Outcome {
                        next: WriteState { phase: Phase::Closing, ..self },
                        back: Some(request),
                        notify: true,
                        result: ShutdownStep::Report(PollResult::Pending),
                    }
                } else if self.phase == Phase::Open {
                    Outcome {
                        next: WriteState { phase: Phase::Closing, ..self },
                        back: Some(request.begin_close(waker).0),
                        notify: true,
                        result: ShutdownStep::Report(PollResult::Pending),
                    }
                } else {
                    Outcome {
                        next: WriteState { phase: Phase::Joining, ..self },
                        back: Some(request),
                        notify: false,
                        result: ShutdownStep::Join,
                    }
                },
            },
        }
    }

    /// The bridge after the join, and what the task is told.
    pub open spec fn joined(self, ok: bool) -> (WriteState, PollResult<()>) {
        match self.phase {
            Phase::Joining => if ok {
                (WriteState { phase: Phase::Closed, ..self }, PollResult::Ready(()))
            } else {
                (WriteState { phase: Phase::Broken, ..self }, PollResult::Error(ErrorKind::Other))
            },
            Phase::Closed => (self, PollResult::Ready(())),
            Phase::Broken => (self, PollResult::Error(ErrorKind::Other)),
            _ => (self, PollResult::Pending),
        }
    }

    /// The bridge after a run of polls of the shutdown.
    pub open spec fn after_shutdown_polls(self, polls: Seq<ShutdownPoll>) -> WriteState
        decreases polls.len(),
    {
        if polls.len() == 0 {
            self
        } else {
            self.after_shutdown_polls(polls.drop_last()).shutdown(
                polls.last().taken,
                polls.last().waker,
            ).next
        }
    }
}

/// One poll of the shutdown in a run: what the mailbox would hold if the poll
/// looked into it, and the waker that the poll brings.
pub struct ShutdownPoll {
    pub taken: Option<RequestModel>,
    pub waker: NotifyHandle,
}

/// The shutdown is reported `Ready` only by a bridge that is closed
/// afterwards, be it by a poll or by the report of the join.
pub proof fn lemma_ready_means_closed(
    state: WriteState,
    taken: Option<RequestModel>,
    waker: NotifyHandle,
    ok: bool,
)
    ensures
        state.shutdown(taken, waker).result == ShutdownStep::Report(PollResult::Ready(()))
            ==> state.shutdown(taken, waker).next.phase == Phase::Closed,
        state.joined(ok).1 == PollResult::Ready(()) ==> state.joined(ok).0.phase == Phase::Closed,
{
}

/// Idempotent shutdown. Once a bridge is closed, it stays as it is over any
/// run of further polls, and each of them reports `Ready` at once: it does not
/// look into the mailbox, puts nothing there, wakes nobody and asks for no
/// join.
pub proof fn lemma_shutdown_is_idempotent(
    state: WriteState,
    polls: Seq<ShutdownPoll>,
    next: ShutdownPoll,
)
    requires
        state.phase == Phase::Closed,
    ensures
        state.after_shutdown_polls(polls) == state,
        !state.after_shutdown_polls(polls).shutdown_asks_mailbox(),
        state.after_shutdown_polls(polls).shutdown(next.taken, next.waker) == state.stay(
            ShutdownStep::Report(PollResult::Ready(())),
        ),
    decreases polls.len(),
{
    if polls.len() > 0 {
        lemma_shutdown_is_idempotent(state, polls.drop_last(), polls.last());
    }
}

/// A bridge whose hand-off is broken stays broken: every poll of the
/// shutdown reports the same error and touches nothing.
pub proof fn lemma_broken_is_final(state: WriteState, polls: Seq<ShutdownPoll>, next: ShutdownPoll)
    requires
        state.phase == Phase::Broken,
    ensures
        state.after_shutdown_polls(polls) == state,
        state.after_shutdown_polls(polls).shutdown(next.taken, next.waker) == state.stay(
            ShutdownStep::Report(PollResult::Error(ErrorKind::Other)),
        ),
    decreases polls.len(),
{
    if polls.len() > 0 {
        lemma_broken_is_final(state, polls.drop_last(), polls.last());
    }
}

/// The writer thread is asked to end only between writes, and joined only
/// after it has answered: a poll that finds bytes waiting changes nothing, a
/// join is asked for only when the request has come back without the mark, and
/// whatever the poll does, the bytes and the failure that the request carries
/// stay as they are.
pub proof fn lemma_shutdown_waits_for_drain(
    state: WriteState,
    request: RequestModel,
    waker: NotifyHandle,
)
    requires
        request.wf(),
        state.shutdown_asks_mailbox(),
    ensures
        request.pending.len() > 0 ==> state.shutdown(Some(request), waker) == (Outcome {
            next: state,
            back: Some(request),
            notify: true,
            result: ShutdownStep::Report(PollResult::Pending),
        }),
        state.shutdown(Some(request), waker).result == ShutdownStep::Join ==> state.phase
            == Phase::Closing && request.pending.len() == 0 && !request.closing,
        state.shutdown(Some(request), waker).back matches Some(back) && back.wf() && back.pending
            == request.pending && back.failed == request.failed,
{
}

/// No wake-up is lost. Whenever the bridge puts a request into the mailbox,
/// it wakes the writer thread exactly if the thread waits for such a
/// request: one that carries bytes, or the mark of the end of the stream.
pub proof fn lemma_writer_is_woken_when_wanted(
    state: WriteState,
    request: RequestModel,
    data: Seq<u8>,
    waker: NotifyHandle,
)
    requires
        request.wf(),
    ensures
        state.write(Some(request), data, waker).back matches Some(back) ==> state.write(
            Some(request),
            data,
            waker,
        ).notify == (back.action() != WriterAction::Idle),
        state.flush(Some(request)).back matches Some(back) ==> state.flush(Some(request)).notify
            == (back.action() != WriterAction::Idle),
        state.shutdown(Some(request), waker).back matches Some(back) ==> state.shutdown(
            Some(request),
            waker,
        ).notify == (back.action() != WriterAction::Idle),
{
}

/// A bridge that has refused a write or a flush refuses every later one: a
/// write of at least one byte and a flush report the same error, and nothing
/// is taken from the mailbox or put there.
pub proof fn lemma_refusal_is_final(
    state: WriteState,
    taken: Option<RequestModel>,
    data: Seq<u8>,
    waker: NotifyHandle,
)
    requires
        state.failed,
        data.len() > 0,
    ensures
        state.write(taken, data, waker) == state.stay(
            PollResult::<usize>::Error(ErrorKind::Other),
        ),
        state.flush(taken) == state.stay(PollResult::<()>::Error(ErrorKind::Other)),
        !state.write_asks_mailbox(data.len()),
        !state.flush_asks_mailbox(),
{
}

/// Every refusal is recorded: a write or a flush that reports an error leaves
/// a bridge that has failed, or that is past accepting writes.
pub proof fn lemma_refusal_is_recorded(
    state: WriteState,
    taken: Option<RequestModel>,
    data: Seq<u8>,
    waker: NotifyHandle,
)
    ensures
        state.write(taken, data, waker).result is Error ==> state.write(
            taken,
            data,
            waker,
        ).next.failed || state.phase != Phase::Open,
        state.flush(taken).result is Error ==> state.flush(taken).next.failed,
{
}

/// The step of [`ThreadedStdout::poll_write`] for a given content of the
/// mailbox: the bridge afterwards, what goes back into the mailbox, whether
/// the writer thread is woken, and what the caller is told. `taken` is ignored
/// unless `state.write_asks_mailbox(data@.len())`.
pub fn write_step(
    state: WriteState,
    taken: Option<WriteRequest>,
    data: &[u8],
    waker: NotifyHandle,
) -> (r: (WriteState, Option<WriteRequest>, bool, PollResult<usize>))
    ensures
        state.write(model_of(taken), data@, waker) == (Outcome {
            next: r.0,
            back: model_of(r.1),
            notify: r.2,
            result: r.3,
        }),
        state.write_asks_mailbox(data@.len()) ==> (taken matches Some(request) ==> request@.wf()),
{
    if data.len() == 0 {
        return (state, None, false, PollResult::Ready(0));
    }
    let open = match state.phase {
        Phase::Open => true,
        _ => false,
    };
    if state.failed || !open {
        return (state, None, false, PollResult::Error(ErrorKind::Other));
    }
    match taken {
        None => (state, None, false, PollResult::Pending),
        Some(request) => {
            let (request, result) = request.offer(data, waker);
            let failed = match result {
                PollResult::Error(_) => true,
                _ => false,
            };
            let notify = request.wants_writer();
            (WriteState { phase: state.phase, failed }, Some(request), notify, result)
        },
    }
}

/// The step of [`ThreadedStdout::poll_flush`] for a given content of the
/// mailbox. `taken` is ignored unless `state.flush_asks_mailbox()`.
pub fn flush_step(state: WriteState, taken: Option<WriteRequest>) -> (r: (
    WriteState,
    Option<WriteRequest>,
    bool,
    PollResult<()>,
))
    ensures
        state.flush(model_of(taken)) == (Outcome {
            next: r.0,
            back: model_of(r.1),
            notify: r.2,
            result: r.3,
        }),
        state.flush_asks_mailbox() ==> (taken matches Some(request) ==> request@.wf()),
{
    if state.failed {
        return (state, None, false, PollResult::Error(ErrorKind::Other));
    }
    match taken {
        None => (state, None, false, PollResult::Pending),
        Some(request) => {
            let result = request.flushed();
            let failed = match result {
                PollResult::Error(_) => true,
                _ => false,
            };
            let notify = request.wants_writer();
            (WriteState { phase: state.phase, failed }, Some(request), notify, result)
        },
    }
}

/// The step of [`ThreadedStdout::poll_shutdown`] for a given content of the
/// mailbox. `taken` is ignored unless `state.shutdown_asks_mailbox()`.
pub fn shutdown_step(state: WriteState, taken: Option<WriteRequest>, waker: NotifyHandle) -> (r: (
    WriteState,
    Option<WriteRequest>,
    bool,
    ShutdownStep,
))
    ensures
        state.shutdown(model_of(taken), waker) == (Outcome {
            next: r.0,
            back: model_of(r.1),
            notify: r.2,
            result: r.3,
        }),
        state.shutdown_asks_mailbox() ==> (taken matches Some(request) ==> request@.wf()),
{
    let pending = ShutdownStep::Report(PollResult::Pending);
    match state.phase {
        Phase::Closed => (state, None, false, ShutdownStep::Report(PollResult::Ready(()))),
        Phase::Broken => (
            state,
            None,
            false,
            ShutdownStep::Report(PollResult::Error(ErrorKind::Other)),
        ),
        Phase::Joining => (state, None, false, ShutdownStep::Join),
        Phase::Open | Phase::Closing => match taken {
            None => (state, None, false, pending),
            Some(request) => {
                let closing = WriteState { phase: Phase::Closing, failed: state.failed };
                if request.occupied() > 0 {
                    (state, Some(request), true, pending)
                } else if request.is_closing() {
                    (closing, Some(request), true, pending)
                } else {
                    match state.phase {
                        Phase::Open => {
                            let (request, _marked) = request.begin_close(waker);
                            (closing, Some(request), true, pending)
                        },
                        _ => (
                            WriteState { phase: Phase::Joining, failed: state.failed },
                            Some(request),
                            false,
                            ShutdownStep::Join,
                        ),
                    }
                }
            },
        },
    }
}

/// Asynchronous stdout: the polling half of a write bridge.
pub struct ThreadedStdout {
    mailbox: Arc<Rendezvous<WriteRequest>>,
    state: WriteState,
}

/// Asynchronous stderr: the same bridge, on another device.
pub type ThreadedStderr = ThreadedStdout;

impl View for ThreadedStdout {
    type V = WriteState;

    closed spec fn view(&self) -> WriteState {
        self.state
    }
}

impl ThreadedStdout {
    /// The mailbox through which the bridge hands its bytes over.
    pub closed spec fn mailbox(&self) -> Rendezvous<WriteRequest> {
        *self.mailbox
    }

    /// A bridge that hands its bytes over through `mailbox`.
    pub fn new(mailbox: Arc<Rendezvous<WriteRequest>>) -> (r: Self)
        ensures
            r@ == WriteState::fresh(),
            r.mailbox() == *mailbox,
    {
        ThreadedStdout { mailbox, state: WriteState { phase: Phase::Open, failed: false } }
    }

    /// What the bridge knows of itself.
    pub fn state(&self) -> (s: WriteState)
        ensures
            s == self@,
    {
        self.state
    }

    /// Puts back what a step took out of the mailbox. If the mailbox does not
    /// take it, the hand-off is broken.
    fn put_back(&self, back: Option<WriteRequest>, notify: bool) -> (ok: bool)
        ensures
            back is None ==> ok,
    {
        match back {
            None => true,
            Some(request) => self.mailbox.put(request, notify).is_ok(),
        }
    }

    /// Offers `data` to the writer thread, without blocking.
    ///
    /// `Ready(n)` says that the first `n` bytes of `data` have been accepted
    /// for writing, not that they have reached the device. While they wait,
    /// every further write is `Pending`; `waker` is invoked when they are
    /// written. An empty `data` is always `Ready(0)`, and the mailbox is not
    /// touched for it.
    pub fn poll_write(&mut self, data: &[u8], waker: NotifyHandle) -> (r: PollResult<usize>)
        ensures
            !old(self)@.write_asks_mailbox(data@.len()) ==> old(self)@.write(
                None,
                data@,
                waker,
            ).leads_to(final(self)@, r),
            old(self)@.write_asks_mailbox(data@.len()) ==> {
                ||| exists|taken: Option<RequestModel>|
                    (taken matches Some(request) ==> request.wf()) && (#[trigger] old(self)@.write(
                        taken,
                        data@,
                        waker,
                    )).leads_to(final(self)@, r)
                ||| old(self)@.refused::<usize>().leads_to(final(self)@, r)
            },
            final(self).mailbox() == old(self).mailbox(),
    {
        let asks = data.len() > 0 && !self.state.failed && match self.state.phase {
            Phase::Open => true,
            _ => false,
        };
        if !asks {
            let (_state, _back, _notify, result) = write_step(self.state, None, data, waker);
            return result;
        }
        let taken = self.mailbox.take();
        if taken.is_none() && self.mailbox.is_broken() {
            self.state.failed = true;
            return PollResult::Error(ErrorKind::Other);
        }
        let ghost found = model_of(taken);
        let (state, back, notify, result) = write_step(self.state, taken, data, waker);
        assert(old(self)@.write(found, data@, waker).leads_to(state, result));
        if self.put_back(back, notify) {
            self.state = state;
            result
        } else {
            self.state.failed = true;
            PollResult::Error(ErrorKind::Other)
        }
    }

    /// Asks whether everything accepted so far has been written.
    pub fn poll_flush(&mut self) -> (r: PollResult<()>)
        ensures
            !old(self)@.flush_asks_mailbox() ==> old(self)@.flush(None).leads_to(final(self)@, r),
            old(self)@.flush_asks_mailbox() ==> {
                ||| exists|taken: Option<RequestModel>|
                    (taken matches Some(request) ==> request.wf()) && (#[trigger] old(self)@.flush(
                        taken,
                    )).leads_to(final(self)@, r)
                ||| old(self)@.refused::<()>().leads_to(final(self)@, r)
            },
            final(self).mailbox() == old(self).mailbox(),
    {
        if self.state.failed {
            let (_state, _back, _notify, result) = flush_step(self.state, None);
            return result;
        }
        let taken = self.mailbox.take();
        if taken.is_none() && self.mailbox.is_broken() {
            self.state.failed = true;
            return PollResult::Error(ErrorKind::Other);
        }
        let ghost found = model_of(taken);
        let (state, back, notify, result) = flush_step(self.state, taken);
        assert(old(self)@.flush(found).leads_to(state, result));
        if self.put_back(back, notify) {
            self.state = state;
            result
        } else {
            self.state.failed = true;
            PollResult::Error(ErrorKind::Other)
        }
    }

    /// Takes the shutdown one step further, without blocking.
    ///
    /// The writer thread is asked to end once it has written what it was
    /// given, and `waker` is invoked when it has answered. Then the caller is
    /// asked to join it. Once the shutdown has been reported `Ready`, every
    /// further poll reports `Ready` at once: the mailbox is not touched again
    /// and no second join is asked for.
    pub fn poll_shutdown(&mut self, waker: NotifyHandle) -> (r: ShutdownStep)
        ensures
            !old(self)@.shutdown_asks_mailbox() ==> old(self)@.shutdown(None, waker).leads_to(
                final(self)@,
                r,
            ),
            old(self)@.shutdown_asks_mailbox() ==> {
                ||| exists|taken: Option<RequestModel>|
                    (taken matches Some(request) ==> request.wf()) && (
                    #[trigger] old(self)@.shutdown(taken, waker)).leads_to(final(self)@, r)
                ||| old(self)@.broken().leads_to(final(self)@, r)
            },
            final(self).mailbox() == old(self).mailbox(),
    {
        let asks = match self.state.phase {
            Phase::Open | Phase::Closing => true,
            _ => false,
        };
        if !asks {
            let (_state, _back, _notify, step) = shutdown_step(self.state, None, waker);
            return step;
        }
        let taken = self.mailbox.take();
        if taken.is_none() && self.mailbox.is_broken() {
            self.state.phase = Phase::Broken;
            return ShutdownStep::Report(PollResult::Error(ErrorKind::Other));
        }
        let ghost found = model_of(taken);
        let (state, back, notify, step) = shutdown_step(self.state, taken, waker);
        assert(old(self)@.shutdown(found, waker).leads_to(state, step));
        if self.put_back(back, notify) {
            self.state = state;
            step
        } else {
            self.state.phase = Phase::Broken;
            ShutdownStep::Report(PollResult::Error(ErrorKind::Other))
        }
    }

    /// Records how the join of the writer thread went, and says what the
    /// task is told.
    pub fn joined(&mut self, ok: bool) -> (r: PollResult<()>)
        ensures
            (final(self)@, r) == old(self)@.joined(ok),
            final(self).mailbox() == old(self).mailbox(),
    {
        match self.state.phase {
            Phase::Joining => if ok {
                self.state.phase = Phase::Closed;
                PollResult::Ready(())
            } else {
                self.state.phase = Phase::Broken;
                PollResult::Error(ErrorKind::Other)
            },
            Phase::Closed => PollResult::Ready(()),
            Phase::Broken => PollResult::Error(ErrorKind::Other),
            _ => PollResult::Pending,
        }
    }
}

/// What the writer thread has to do next.
pub enum Job {
    /// Write the pending bytes of this request to the device, then hand the
    /// request in with [`Drainer::done`].
    Write(WriteRequest),
    /// The stream has ended: invoke this waker, and leave the loop.
    Finish(NotifyHandle),
    /// The hand-off is broken: leave the loop.
    Broken,
}

/// What the writer thread has to do next, seen from outside.
pub enum JobModel {
    /// Write the pending bytes of this request.
    Write(RequestModel),
    /// Invoke this waker, and leave the loop.
    Finish(NotifyHandle),
    /// Leave the loop.
    Broken,
}

impl View for Job {
    type V = JobModel;

    open spec fn view(&self) -> JobModel {
        match self {
            Job::Write(request) => JobModel::Write(request@),
            Job::Finish(waker) => JobModel::Finish(*waker),
            Job::Broken => JobModel::Broken,
        }
    }
}

/// What the writer thread does with what its wait at the mailbox brought,
/// where `None` stands for a wait that failed: its job, and what goes back
/// into the mailbox at once.
///
/// A request that carries bytes stays with the thread until the bytes are
/// written. A request that carries the mark of the end of the stream goes back
/// without the mark, and the waker stored with the mark goes to the thread. A
/// request that asks for nothing should not have come: it goes back as it is,
/// and the thread gives up.
pub open spec fn drain(waited: Option<RequestModel>) -> (JobModel, Option<RequestModel>) {
    match waited {
        None => (JobModel::Broken, None),
        Some(request) => match request.action() {
            WriterAction::Write => (JobModel::Write(request), None),
            WriterAction::Finish => match request.end_close().1 {
                Some(waker) => (JobModel::Finish(waker), Some(request.end_close().0)),
                None => (JobModel::Broken, Some(request.end_close().0)),
            },
            WriterAction::Idle => (JobModel::Broken, Some(request)),
        },
    }
}

/// The step of [`Drainer::next`] for what the wait at the mailbox brought.
pub fn drain_step(waited: Option<WriteRequest>) -> (r: (Job, Option<WriteRequest>))
    ensures
        (r.0@, model_of(r.1)) == drain(model_of(waited)),
        waited matches Some(request) ==> request@.wf(),
{
    match waited {
        None => (Job::Broken, None),
        Some(request) => match request.action() {
            WriterAction::Write => (Job::Write(request), None),
            WriterAction::Finish => {
                let (request, waker) = request.end_close();
                match waker {
                    Some(waker) => (Job::Finish(waker), Some(request)),
                    None => (Job::Broken, Some(request)),
                }
            },
            WriterAction::Idle => (Job::Broken, Some(request)),
        },
    }
}

/// The writer thread's end of a write bridge.
pub struct Drainer {
    mailbox: Arc<Rendezvous<WriteRequest>>,
}

impl Drainer {
    /// The mailbox out of which the writer thread takes its work.
    pub closed spec fn mailbox(&self) -> Rendezvous<WriteRequest> {
        *self.mailbox
    }

    /// The end of `mailbox` for the writer thread.
    pub fn new(mailbox: Arc<Rendezvous<WriteRequest>>) -> (r: Self)
        ensures
            r.mailbox() == *mailbox,
    {
        Drainer { mailbox }
    }

    /// Blocks until the bridge has handed something over, and says what.
    ///
    /// A request that comes with `Write` carries at least one byte. The end of
    /// the stream is acknowledged here: the request goes back into the
    /// mailbox with the mark removed, and the waker of the task that waits for
    /// the end comes with `Finish`.
    ///
    /// The job is what [`drain`] makes of a request that the writer thread
    /// waits for, or `Broken`: the wait failed, or the mailbox did not take
    /// the request back.
    pub fn next(&self) -> (job: Job)
        ensures
            job@ != JobModel::Broken ==> exists|request: RequestModel|
                request.wf() && request.action() != WriterAction::Idle && (#[trigger] drain(
                    Some(request),
                )).0 == job@,
            job matches Job::Write(request) ==> request@.action() == WriterAction::Write
                && request@.wf(),
    {
        let wanted = |request: &WriteRequest| -> (b: bool)
            ensures
                b == (request@.action() != WriterAction::Idle),
            { request.wants_writer() };
        let waited = match self.mailbox.wait_until(wanted) {
            Ok(request) => Some(request),
            Err(_) => None,
        };
        let ghost found = model_of(waited);
        let (job, back) = drain_step(waited);
        assert(found matches Some(request) ==> drain(Some(request)).0 == job@);
        match back {
            None => job,
            Some(request) => match self.mailbox.put(request, false) {
                Ok(()) => job,
                Err(_) => Job::Broken,
            },
        }
    }

    /// Records how the write of the pending bytes of `request` went, puts the
    /// request back into the mailbox without waking anybody there, and hands
    /// out the waker to invoke: the one that was stored when the bytes were
    /// accepted.
    pub fn done(&self, request: WriteRequest, ok: bool) -> (waker: Option<NotifyHandle>)
        ensures
            waker == request@.complete(ok).1,
            request@.pending.len() > 0 ==> waker is Some && waker == request@.waker,
    {
        let (request, waker) = request.complete(ok);
        let _ = self.mailbox.put(request, false);
        waker
    }
}

/// A write bridge whose request carries up to `capacity` bytes at once, and
/// the writer thread's end of it.
///
/// The two ends share one mailbox, which is made holding a drained request of
/// that capacity.
pub fn write_bridge(capacity: usize) -> (r: (ThreadedStdout, Drainer))
    requires
        capacity <= isize::MAX,
    ensures
        r.0@ == WriteState::fresh(),
        r.0.mailbox() == r.1.mailbox(),
        model_of(r.0.mailbox().first()) == Some(RequestModel::empty(capacity as nat)),
{
    let mailbox = Arc::new(Rendezvous::new(WriteRequest::new(capacity)));
    let theirs = share(&mailbox);
    (ThreadedStdout::new(mailbox), Drainer::new(theirs))
}

} // verus!
