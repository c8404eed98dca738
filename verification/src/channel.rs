//! The bounded channel that carries chunks from the reader thread to the
//! bridge, and the handle by which a suspended task is woken.
//!
//! Both come from the `futures` crate. Nothing in this file is proved: the
//! items here say what the rest of the crate assumes of that crate.

use futures::executor::NotifyHandle;
use futures::executor::Spawn;
use futures::sync::mpsc::Receiver;
use futures::sync::mpsc::Sender;
use futures::Async;
use futures::Future;
use futures::Sink;
use vstd::prelude::*;

verus! {

/// `futures::sync::mpsc::Receiver`: the consuming end of a bounded channel.
/// Its contents belong to the sending thread as much as to the holder, so the
/// crate states nothing about them.
#[verifier::external_type_specification]
#[verifier::external_body]
#[verifier::reject_recursive_types(T)]
pub struct ExReceiver<T>(Receiver<T>);

/// `futures::sync::mpsc::Sender`: the producing end of a bounded channel.
/// Opaque.
#[verifier::external_type_specification]
#[verifier::external_body]
#[verifier::reject_recursive_types(T)]
pub struct ExSender<T>(Sender<T>);

/// `futures::executor::Spawn`: a stream together with the task it is polled
/// in. Opaque.
#[verifier::external_type_specification]
#[verifier::external_body]
#[verifier::reject_recursive_types(T)]
pub struct ExSpawn<T: ?Sized>(Spawn<T>);

/// `futures::executor::NotifyHandle`: the capability to wake one task.
/// Opaque; the crate stores it and hands it back, and never invokes it.
#[verifier::external_type_specification]
#[verifier::external_body]
pub struct ExNotifyHandle(NotifyHandle);

/// `futures::executor::spawn` wraps a value into a fresh task. Nothing is
/// claimed of the result.
pub assume_specification<T>[ futures::executor::spawn::<T> ](obj: T) -> (r: Spawn<T>);

/// The number that every waker is invoked with. The bridges of this crate wake
/// whole tasks, so one number serves all.
pub const WAKER_ID: usize = 0;

/// The least queue size that `futures::sync::mpsc::channel` refuses.
pub const MAX_QUEUE: usize = usize::MAX / 4;

/// `futures::sync::mpsc::channel` makes a bounded channel and returns its two
/// ends. It panics unless `buffer < MAX_QUEUE`. Nothing is claimed of the
/// result.
pub assume_specification<T>[ futures::sync::mpsc::channel::<T> ](buffer: usize) -> (r: (
    Sender<T>,
    Receiver<T>,
))
    requires
        buffer < MAX_QUEUE,
;

/// What one non-blocking look at the channel found.
pub enum ChannelPoll {
    /// The next chunk, in the order in which the chunks were sent.
    Ready(Vec<u8>),
    /// Nothing is queued; the sender is still there.
    Pending,
    /// Nothing is queued and every sender is gone.
    Closed,
    /// The channel itself failed.
    Errored,
}

/// What one look at the channel found, with the chunk as the sequence of its
/// bytes.
pub enum ChannelEvent {
    Ready(Seq<u8>),
    Pending,
    Closed,
    Errored,
}

impl View for ChannelPoll {
    type V = ChannelEvent;

    open spec fn view(&self) -> ChannelEvent {
        match self {
            ChannelPoll::Ready(chunk) => ChannelEvent::Ready(chunk@),
            ChannelPoll::Pending => ChannelEvent::Pending,
            ChannelPoll::Closed => ChannelEvent::Closed,
            ChannelPoll::Errored => ChannelEvent::Errored,
        }
    }
}

/// `Spawn::poll_stream_notify` on the receiving end of the channel: takes the
/// next chunk if one is queued and never blocks. Where it reports that nothing
/// is queued, the channel has kept a copy of `waker` and invokes it with `id`
/// when a chunk arrives or the last sender goes away. Which of the four outcomes
/// comes back depends on the sending thread, so nothing is claimed of it.
#[verifier::external_body]
pub(crate) fn try_receive(
    rcv: &mut Spawn<Receiver<Box<[u8]>>>,
    waker: &NotifyHandle,
    id: usize,
) -> (r: ChannelPoll) {
    match rcv.poll_stream_notify(waker, id) {
        Ok(Async::Ready(Some(chunk))) => ChannelPoll::Ready(chunk.into_vec()),
        Ok(Async::Ready(None)) => ChannelPoll::Closed,
        Ok(Async::NotReady) => ChannelPoll::Pending,
        Err(()) => ChannelPoll::Errored,
    }
}

/// `Sink::send` followed by `Future::wait`: blocks until the channel has
/// taken `chunk`, and hands the sender back; or gives the sender up if the
/// receiving end is gone. Which of the two happens depends on the holder of
/// the receiving end, so nothing is claimed of it.
#[verifier::external_body]
pub(crate) fn send_blocking(snd: Sender<Box<[u8]>>, chunk: Vec<u8>) -> (r: Option<
    Sender<Box<[u8]>>,
>) {
    match snd.send(chunk.into_boxed_slice()).wait() {
        Ok(snd) => Some(snd),
        Err(_) => None,
    }
}

} // verus!
