//! The write request: the one buffer that travels between a write bridge and
//! its writer thread.

use crate::buffer::copy_from;
use crate::buffer::fitting;
use crate::poll::ErrorKind;
use crate::poll::PollResult;
use futures::executor::NotifyHandle;
use vstd::prelude::*;
use vstd::slice::slice_subrange;

verus! {

/// What a write request holds, seen from outside.
pub struct RequestModel {
    /// How many bytes the request can carry at once.
    pub capacity: nat,
    /// The bytes accepted from a caller and not yet written to the device;
    /// empty when there are none.
    pub pending: Seq<u8>,
    /// Whether a write to the device has failed.
    pub failed: bool,
    /// Whether the bridge has asked the writer thread to end.
    pub closing: bool,
    /// Whom to wake when the writer thread has dealt with the request.
    pub waker: Option<NotifyHandle>,
}

/// What the writer thread has to do with a request it got hold of.
#[derive(Debug, Clone, Copy, PartialEq, Eq)]
pub enum WriterAction {
    /// Write the pending bytes to the device, then report how it went.
    Write,
    /// The stream has ended: acknowledge, and leave the loop.
    Finish,
    /// Nothing is asked: put the request back.
    Idle,
}

impl RequestModel {
    /// A drained request of the given capacity.
    pub open spec fn empty(capacity: nat) -> RequestModel {
        RequestModel {
            capacity,
            pending: Seq::empty(),
            failed: false,
            closing: false,
            waker: None,
        }
    }

    /// The occupied length: positive while bytes wait to be written, zero
    /// when drained, negative once the device has failed.
    pub open spec fn occupied(self) -> int {
        if self.failed {
            -1
        } else {
            self.pending.len() as int
        }
    }

    /// What holds of every request: the pending bytes fit, a failed request
    /// carries none, the end of the stream is asked for only between writes,
    /// and a waker is stored exactly while the writer thread owes a wake-up.
    pub open spec fn wf(self) -> bool {
        &&& self.pending.len() <= self.capacity
        &&& self.failed ==> self.pending.len() == 0
        &&& self.closing ==> self.pending.len() == 0
        &&& self.waker is Some <==> (self.pending.len() > 0 || self.closing)
    }

    /// A caller offers `data`: the request afterwards, and what the caller is
    /// told.
    pub open spec fn offer(self, data: Seq<u8>, waker: NotifyHandle) -> (
        RequestModel,
        PollResult<usize>,
    ) {
        let n = fitting(data.len(), self.capacity);
        if data.len() == 0 {
            (self, PollResult::Ready(0usize))
        } else if self.failed || self.closing {
            (self, PollResult::Error(ErrorKind::Other))
        } else if self.pending.len() > 0 {
            (self, PollResult::Pending)
        } else if n == 0 {
            (self, PollResult::Ready(0usize))
        } else {
            (
                RequestModel { pending: data.take(n as int), waker: Some(waker), ..self },
                PollResult::Ready(n as usize),
            )
        }
    }

    /// What a flush is told.
    pub open spec fn flushed(self) -> PollResult<()> {
        if self.failed {
            PollResult::Error(ErrorKind::Other)
        } else if self.pending.len() > 0 {
            PollResult::Pending
        } else {
            PollResult::Ready(())
        }
    }

    /// What the writer thread has to do.
    pub open spec fn action(self) -> WriterAction {
        if self.pending.len() > 0 {
            WriterAction::Write
        } else if self.closing {
            WriterAction::Finish
        } else {
            WriterAction::Idle
        }
    }

    /// The writer thread reports how its write of the pending bytes went: the
    /// request afterwards, and whom to wake.
    pub open spec fn complete(self, ok: bool) -> (RequestModel, Option<NotifyHandle>) {
        if self.pending.len() > 0 {
            (
                RequestModel { pending: Seq::empty(), failed: !ok, waker: None, ..self },
                self.waker,
            )
        } else {
            (self, None)
        }
    }

    /// The bridge asks for the end of the stream: the request afterwards, and
    /// whether the mark was set by this call.
    pub open spec fn begin_close(self, waker: NotifyHandle) -> (RequestModel, bool) {
        if self.pending.len() > 0 || self.closing {
            (self, false)
        } else {
            (RequestModel { closing: true, waker: Some(waker), ..self }, true)
        }
    }

    /// The writer thread acknowledges the end of the stream: the request
    /// afterwards, and whom to wake.
    pub open spec fn end_close(self) -> (RequestModel, Option<NotifyHandle>) {
        if self.closing {
            (RequestModel { closing: false, waker: None, ..self }, self.waker)
        } else {
            (self, None)
        }
    }
}

impl RequestModel {
    /// Whether the request is free to take bytes: nothing waits, nothing has
    /// failed, and the stream has not been ended.
    pub open spec fn idle(self) -> bool {
        self.pending.len() == 0 && !self.failed && !self.closing
    }

    /// What reaches the device over a series of writes, each offered once
    /// and written by the writer thread, with success, before the next.
    pub open spec fn write_each(self, writes: Seq<Seq<u8>>, waker: NotifyHandle) -> Seq<u8>
        decreases writes.len(),
    {
        if writes.len() == 0 {
            Seq::empty()
        } else {
            let accepted = self.offer(writes[0], waker).0;
            accepted.pending + accepted.complete(true).0.write_each(writes.skip(1), waker)
        }
    }

    /// The bytes that a series of writes was told it had got rid of: of each
    /// write, as many bytes as `Ready` reported.
    pub open spec fn acknowledged(self, writes: Seq<Seq<u8>>, waker: NotifyHandle) -> Seq<u8>
        decreases writes.len(),
    {
        if writes.len() == 0 {
            Seq::empty()
        } else {
            let (accepted, result) = self.offer(writes[0], waker);
            let taken = match result {
                PollResult::Ready(n) => writes[0].take(n as int),
                _ => Seq::empty(),
            };
            taken + accepted.complete(true).0.acknowledged(writes.skip(1), waker)
        }
    }
}

/// Every step keeps a request well formed.
pub proof fn lemma_request_stays_wf(m: RequestModel, data: Seq<u8>, waker: NotifyHandle, ok: bool)
    requires
        m.wf(),
    ensures
        m.offer(data, waker).0.wf(),
        m.complete(ok).0.wf(),
        m.begin_close(waker).0.wf(),
        m.end_close().0.wf(),
        m.offer(data, waker).0.capacity == m.capacity,
        m.complete(ok).0.capacity == m.capacity,
{
}

/// What a free request does with an offer: it takes the front of the data, as
/// much as fits, and reports how much that was.
pub proof fn lemma_offer_when_idle(m: RequestModel, data: Seq<u8>, waker: NotifyHandle)
    requires
        m.wf(),
        m.idle(),
        data.len() <= usize::MAX,
    ensures
        m.offer(data, waker).1 == PollResult::Ready(fitting(data.len(), m.capacity) as usize),
        m.offer(data, waker).0.pending == data.take(fitting(data.len(), m.capacity) as int),
        m.offer(data, waker).0.complete(true).0.idle(),
{
    let n = fitting(data.len(), m.capacity);
    if data.len() == 0 || n == 0 {
        assert(m.pending =~= data.take(n as int));
    }
}

/// Backpressure. Once a write has been accepted, with at least one byte,
/// every further write of at least one byte is `Pending` and leaves the
/// request untouched, so that the accepted bytes are neither overwritten nor
/// taken twice. This lasts until the writer thread reports the write; after a
/// successful write the request takes bytes again.
pub proof fn lemma_backpressure(
    m: RequestModel,
    first: Seq<u8>,
    first_waker: NotifyHandle,
    second: Seq<u8>,
    second_waker: NotifyHandle,
)
    requires
        m.wf(),
        m.offer(first, first_waker).1 matches PollResult::Ready(n) && n > 0,
        second.len() > 0,
    ensures
        m.offer(first, first_waker).0.offer(second, second_waker) == (
            m.offer(first, first_waker).0,
            PollResult::<usize>::Pending,
        ),
        m.offer(first, first_waker).0.complete(true).0.idle(),
{
}

/// No lost writes, for any series of writes each made after the one before
/// was written: the bytes that reach the device are the bytes that the
/// writes were told they had got rid of, in order, each once.
pub proof fn lemma_no_lost_writes(m: RequestModel, writes: Seq<Seq<u8>>, waker: NotifyHandle)
    requires
        m.wf(),
        m.idle(),
        forall|i: int| 0 <= i < writes.len() ==> (#[trigger] writes[i]).len() <= usize::MAX,
    ensures
        m.write_each(writes, waker) == m.acknowledged(writes, waker),
    decreases writes.len(),
{
    if writes.len() > 0 {
        let accepted = m.offer(writes[0], waker).0;
        lemma_offer_when_idle(m, writes[0], waker);
        lemma_request_stays_wf(m, writes[0], waker, true);
        lemma_request_stays_wf(accepted, writes[0], waker, true);
        assert forall|i: int| 0 <= i < writes.skip(1).len() implies (#[trigger] writes.skip(
            1,
        )[i]).len() <= usize::MAX by {
            assert(writes.skip(1)[i] == writes[i + 1]);
        }
        lemma_no_lost_writes(accepted.complete(true).0, writes.skip(1), waker);
    }
}

/// Wake liveness. A write is `Pending` only while accepted bytes wait. Then
/// a waker is stored, the request is one that the writer thread waits for,
/// and the thread's report of that very write hands the stored waker out to be
/// invoked. After a successful write the same offer is accepted; after a
/// failed one it is refused for good.
pub proof fn lemma_pending_is_woken(m: RequestModel, data: Seq<u8>, waker: NotifyHandle)
    requires
        m.wf(),
        data.len() <= usize::MAX,
        m.offer(data, waker).1 == PollResult::<usize>::Pending,
    ensures
        m.waker is Some,
        m.action() == WriterAction::Write,
        m.complete(true).1 == m.waker,
        m.complete(false).1 == m.waker,
        m.complete(true).0.offer(data, waker).1 matches PollResult::Ready(n) && n > 0,
        m.complete(false).0.offer(data, waker).1 == PollResult::<usize>::Error(ErrorKind::Other),
{
}

/// A failed request stays failed: it refuses every write of at least one
/// byte and every flush, and no report of the writer thread revives it.
pub proof fn lemma_failure_is_final(m: RequestModel, data: Seq<u8>, waker: NotifyHandle, ok: bool)
    requires
        m.wf(),
        m.failed,
        data.len() > 0,
    ensures
        m.offer(data, waker) == (m, PollResult::<usize>::Error(ErrorKind::Other)),
        m.flushed() == PollResult::<()>::Error(ErrorKind::Other),
        m.complete(ok).0 == m,
{
}

/// What a mailbox for write requests holds, seen from outside.
pub open spec fn model_of(slot: Option<WriteRequest>) -> Option<RequestModel> {
    match slot {
        Some(request) => Some(request@),
        None => None,
    }
}

/// A buffer of fixed capacity with its occupied length and, while the writer
/// thread owes a wake-up, the handle to wake.
pub struct WriteRequest {
    buf: Vec<u8>,
    /// Positive: so many bytes of `buf` wait to be written. Zero: drained.
    /// Negative: the device failed.
    occupied: isize,
    closing: bool,
    waker: Option<NotifyHandle>,
}

impl View for WriteRequest {
    type V = RequestModel;

    closed spec fn view(&self) -> RequestModel {
        RequestModel {
            capacity: self.buf@.len(),
            pending: if self.occupied > 0 {
                self.buf@.take(self.occupied as int)
            } else {
                Seq::empty()
            },
            failed: self.occupied < 0,
            closing: self.closing,
            waker: self.waker,
        }
    }
}

impl WriteRequest {
    #[verifier::type_invariant]
    spec fn inv(self) -> bool {
        &&& self.buf@.len() <= isize::MAX
        &&& -1 <= self.occupied <= self.buf@.len()
        &&& self.closing ==> self.occupied <= 0
        &&& self.waker is Some <==> (self.occupied > 0 || self.closing)
    }

    /// A drained request that can carry `capacity` bytes at once.
    pub fn new(capacity: usize) -> (r: Self)
        requires
            capacity <= isize::MAX,
        ensures
            r@ == RequestModel::empty(capacity as nat),
            r@.wf(),
    {
        WriteRequest { buf: vec![0u8; capacity], occupied: 0, closing: false, waker: None }
    }

    /// How many bytes the request can carry at once.
    pub fn capacity(&self) -> (n: usize)
        ensures
            n == self@.capacity,
    {
        self.buf.len()
    }

    /// The occupied length: positive while bytes wait to be written, zero
    /// when drained, negative once the device has failed.
    pub fn occupied(&self) -> (n: isize)
        ensures
            n == self@.occupied(),
            self@.wf(),
    {
        proof {
            use_type_invariant(self);
        }
        self.occupied
    }

    /// Takes what fits of `data`, if the request is free to take any.
    pub fn offer(self, data: &[u8], waker: NotifyHandle) -> (r: (Self, PollResult<usize>))
        ensures
            (r.0@, r.1) == self@.offer(data@, waker),
            self@.wf(),
            r.0@.wf(),
    {
        proof {
            use_type_invariant(&self);
        }
        if data.len() == 0 {
            (self, PollResult::Ready(0))
        } else if self.occupied < 0 || self.closing {
            (self, PollResult::Error(ErrorKind::Other))
        } else if self.occupied > 0 {
            (self, PollResult::Pending)
        } else if self.buf.len() == 0 {
            (self, PollResult::Ready(0))
        } else {
            let mut buf = self.buf;
            let n: usize = copy_from(buf.as_mut_slice(), data, 0);
            let next = WriteRequest {
                buf,
                occupied: n as isize,
                closing: false,
                waker: Some(waker),
            };
            assert(next@.pending =~= data@.take(n as int));
            (next, PollResult::Ready(n))
        }
    }

    /// Whether the end of the stream is marked and not yet acknowledged.
    pub fn is_closing(&self) -> (b: bool)
        ensures
            b == self@.closing,
    {
        self.closing
    }

    /// What a flush is told: ready once nothing waits to be written.
    pub fn flushed(&self) -> (r: PollResult<()>)
        ensures
            r == self@.flushed(),
            self@.wf(),
    {
        proof {
            use_type_invariant(self);
        }
        if self.occupied < 0 {
            PollResult::Error(ErrorKind::Other)
        } else if self.occupied > 0 {
            PollResult::Pending
        } else {
            PollResult::Ready(())
        }
    }

    /// What the writer thread has to do with this request.
    pub fn action(&self) -> (r: WriterAction)
        ensures
            r == self@.action(),
            self@.wf(),
    {
        proof {
            use_type_invariant(self);
        }
        if self.occupied > 0 {
            WriterAction::Write
        } else if self.closing {
            WriterAction::Finish
        } else {
            WriterAction::Idle
        }
    }

    /// Whether the writer thread has anything to do with this request. This
    /// is what the writer thread waits for.
    pub fn wants_writer(&self) -> (b: bool)
        ensures
            b == (self@.action() != WriterAction::Idle),
    {
        proof {
            use_type_invariant(self);
        }
        self.occupied > 0 || self.closing
    }

    /// The bytes that wait to be written.
    pub fn payload(&self) -> (r: &[u8])
        ensures
            r@ == self@.pending,
    {
        proof {
            use_type_invariant(self);
        }
        if self.occupied > 0 {
            slice_subrange(self.buf.as_slice(), 0, self.occupied as usize)
        } else {
            slice_subrange(self.buf.as_slice(), 0, 0)
        }
    }

    /// Records how the write of the pending bytes went, and hands out the
    /// waker that is now due.
    pub fn complete(self, ok: bool) -> (r: (Self, Option<NotifyHandle>))
        ensures
            (r.0@, r.1) == self@.complete(ok),
            self@.wf(),
            r.0@.wf(),
    {
        proof {
            use_type_invariant(&self);
        }
        if self.occupied > 0 {
            let next = WriteRequest {
                buf: self.buf,
                occupied: if ok { 0 } else { -1 },
                closing: false,
                waker: None,
            };
            (next, self.waker)
        } else {
            (self, None)
        }
    }

    /// Marks the end of the stream, unless bytes still wait to be written or
    /// the mark is already there.
    pub fn begin_close(self, waker: NotifyHandle) -> (r: (Self, bool))
        ensures
            (r.0@, r.1) == self@.begin_close(waker),
            self@.wf(),
            r.0@.wf(),
    {
        proof {
            use_type_invariant(&self);
        }
        if self.occupied > 0 || self.closing {
            (self, false)
        } else {
            let next = WriteRequest {
                buf: self.buf,
                occupied: self.occupied,
                closing: true,
                waker: Some(waker),
            };
            (next, true)
        }
    }

    /// Removes the mark of the end of the stream, and hands out the waker
    /// that is now due.
    pub fn end_close(self) -> (r: (Self, Option<NotifyHandle>))
        ensures
            (r.0@, r.1) == self@.end_close(),
            self@.wf(),
            r.0@.wf(),
    {
        proof {
            use_type_invariant(&self);
        }
        if self.closing {
            let next = WriteRequest {
                buf: self.buf,
                occupied: self.occupied,
                closing: false,
                waker: None,
            };
            (next, self.waker)
        } else {
            (self, None)
        }
    }
}

} // verus!
