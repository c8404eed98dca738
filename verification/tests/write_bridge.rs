use futures::executor::Notify;
use futures::executor::NotifyHandle;
use std::sync::Arc;
use std::sync::Mutex;
use tokio_stdin_stdout::channel::WAKER_ID;
use tokio_stdin_stdout::rendezvous::must_wait;
use tokio_stdin_stdout::rendezvous::slot_put;
use tokio_stdin_stdout::rendezvous::slot_take;
use tokio_stdin_stdout::rendezvous::slot_take_if;
use tokio_stdin_stdout::rendezvous::Closed;
use tokio_stdin_stdout::rendezvous::Rendezvous;
use tokio_stdin_stdout::request::WriteRequest;
use tokio_stdin_stdout::request::WriterAction;
use tokio_stdin_stdout::stdout::drain_step;
use tokio_stdin_stdout::stdout::flush_step;
use tokio_stdin_stdout::stdout::shutdown_step;
use tokio_stdin_stdout::stdout::write_bridge;
use tokio_stdin_stdout::stdout::write_step;
use tokio_stdin_stdout::stdout::Drainer;
use tokio_stdin_stdout::stdout::Job;
use tokio_stdin_stdout::stdout::Phase;
use tokio_stdin_stdout::stdout::ShutdownStep;
use tokio_stdin_stdout::stdout::ThreadedStdout;
use tokio_stdin_stdout::stdout::WriteState;
use tokio_stdin_stdout::ErrorKind;
use tokio_stdin_stdout::PollResult;

struct Gong {
    strokes: Mutex<usize>,
}

impl Notify for Gong {
    fn notify(&self, _id: usize) {
        *self.strokes.lock().unwrap() += 1;
    }
}

fn gong() -> (Arc<Gong>, NotifyHandle) {
    let gong = Arc::new(Gong { strokes: Mutex::new(0) });
    let handle = NotifyHandle::from(gong.clone());
    (gong, handle)
}

fn strokes(gong: &Arc<Gong>) -> usize {
    *gong.strokes.lock().unwrap()
}

fn bridge(capacity: usize) -> (ThreadedStdout, Arc<Rendezvous<WriteRequest>>) {
    let mailbox = Arc::new(Rendezvous::new(WriteRequest::new(capacity)));
    (ThreadedStdout::new(mailbox.clone()), mailbox)
}

/// One turn of a writer thread whose device is `device`; `ok` says whether
/// the device takes the bytes. Returns what the thread had to do.
fn writer_turn(
    mailbox: &Rendezvous<WriteRequest>,
    device: &mut Vec<u8>,
    ok: bool,
) -> WriterAction {
    let request = mailbox.wait_until(|r: &WriteRequest| r.wants_writer()).unwrap();
    let action = request.action();
    let (request, waker) = match action {
        WriterAction::Write => {
            if ok {
                device.extend_from_slice(request.payload());
            }
            request.complete(ok)
        }
        WriterAction::Finish => request.end_close(),
        WriterAction::Idle => (request, None),
    };
    assert!(mailbox.put(request, false).is_ok());
    if let Some(waker) = waker {
        waker.notify(WAKER_ID);
    }
    action
}

#[test]
fn five_bytes_through_a_buffer_of_four() {
    let (mut stdout, mailbox) = bridge(4);
    let (_gong, waker) = gong();
    let mut device = Vec::new();

    assert_eq!(stdout.poll_write(b"hello", waker.clone()), PollResult::Ready(4));
    assert_eq!(writer_turn(&mailbox, &mut device, true), WriterAction::Write);
    assert_eq!(device, b"hell");

    assert_eq!(stdout.poll_write(b"o", waker.clone()), PollResult::Ready(1));
    assert_eq!(writer_turn(&mailbox, &mut device, true), WriterAction::Write);
    assert_eq!(device, b"hello");
    assert_eq!(stdout.poll_flush(), PollResult::Ready(()));
}

#[test]
fn second_write_is_pending_until_the_first_is_written() {
    let (mut stdout, mailbox) = bridge(8);
    let (gong, waker) = gong();
    let mut device = Vec::new();

    assert_eq!(stdout.poll_write(b"first", waker.clone()), PollResult::Ready(5));
    assert_eq!(stdout.poll_write(b"second", waker.clone()), PollResult::Pending);
    assert_eq!(stdout.poll_write(b"x", waker.clone()), PollResult::Pending);
    assert_eq!(stdout.poll_flush(), PollResult::Pending);

    let request = mailbox.take().unwrap();
    assert_eq!(request.payload(), b"first");
    assert_eq!(request.occupied(), 5);
    assert!(mailbox.put(request, false).is_ok());

    assert_eq!(strokes(&gong), 0);
    assert_eq!(writer_turn(&mailbox, &mut device, true), WriterAction::Write);
    assert_eq!(strokes(&gong), 1);
    assert_eq!(device, b"first");

    assert_eq!(stdout.poll_write(b"second", waker.clone()), PollResult::Ready(6));
    assert_eq!(writer_turn(&mailbox, &mut device, true), WriterAction::Write);
    assert_eq!(device, b"firstsecond");
    assert_eq!(strokes(&gong), 2);
}

#[test]
fn write_is_pending_while_the_writer_holds_the_request() {
    let (mut stdout, mailbox) = bridge(8);
    let (gong, waker) = gong();

    assert_eq!(stdout.poll_write(b"abc", waker.clone()), PollResult::Ready(3));
    let request = mailbox.wait_until(|r: &WriteRequest| r.wants_writer()).unwrap();
    assert_eq!(stdout.poll_write(b"def", waker.clone()), PollResult::Pending);
    assert_eq!(stdout.poll_flush(), PollResult::Pending);

    let (request, due) = request.complete(true);
    assert!(mailbox.put(request, false).is_ok());
    due.unwrap().notify(WAKER_ID);
    assert_eq!(strokes(&gong), 1);
    assert_eq!(stdout.poll_write(b"def", waker.clone()), PollResult::Ready(3));
}

#[test]
fn empty_write_is_ready_and_touches_nothing() {
    let (mut stdout, mailbox) = bridge(4);
    let (_gong, waker) = gong();

    let request = mailbox.take().unwrap();
    assert_eq!(stdout.poll_write(b"", waker.clone()), PollResult::Ready(0));
    assert!(mailbox.put(request, false).is_ok());

    assert_eq!(stdout.poll_write(b"abcd", waker.clone()), PollResult::Ready(4));
    assert_eq!(stdout.poll_write(b"", waker.clone()), PollResult::Ready(0));
    assert_eq!(mailbox.take().unwrap().payload(), b"abcd");
}

#[test]
fn failed_device_is_reported_as_other_for_good() {
    let (mut stdout, mailbox) = bridge(4);
    let (gong, waker) = gong();
    let mut device = Vec::new();

    assert_eq!(stdout.poll_write(b"ab", waker.clone()), PollResult::Ready(2));
    assert_eq!(writer_turn(&mailbox, &mut device, false), WriterAction::Write);
    assert_eq!(strokes(&gong), 1);
    assert!(device.is_empty());

    assert_eq!(stdout.poll_write(b"cd", waker.clone()), PollResult::Error(ErrorKind::Other));
    assert_eq!(stdout.poll_write(b"cd", waker.clone()), PollResult::Error(ErrorKind::Other));
    assert_eq!(stdout.poll_flush(), PollResult::Error(ErrorKind::Other));

    let request = mailbox.take().unwrap();
    assert_eq!(request.occupied(), -1);
    assert!(!request.wants_writer());
    assert_eq!(request.payload(), b"");
}

#[test]
fn flush_is_ready_once_drained() {
    let (mut stdout, mailbox) = bridge(4);
    let (_gong, waker) = gong();
    let mut device = Vec::new();

    assert_eq!(stdout.poll_flush(), PollResult::Ready(()));
    assert_eq!(stdout.poll_write(b"abcdef", waker.clone()), PollResult::Ready(4));
    assert_eq!(stdout.poll_flush(), PollResult::Pending);
    writer_turn(&mailbox, &mut device, true);
    assert_eq!(stdout.poll_flush(), PollResult::Ready(()));
}

#[test]
fn request_without_capacity_accepts_nothing() {
    let (mut stdout, mailbox) = bridge(0);
    let (_gong, waker) = gong();
    assert_eq!(stdout.poll_write(b"abc", waker.clone()), PollResult::Ready(0));
    let request = mailbox.take().unwrap();
    assert_eq!(request.capacity(), 0);
    assert_eq!(request.occupied(), 0);
    assert_eq!(request.action(), WriterAction::Idle);
}

#[test]
fn shutdown_asks_waits_joins_and_stays_ready() {
    let (mut stdout, mailbox) = bridge(4);
    let (gong, waker) = gong();
    let mut device = Vec::new();
    assert_eq!(stdout.state().phase, Phase::Open);

    assert_eq!(stdout.poll_shutdown(waker.clone()), ShutdownStep::Report(PollResult::Pending));
    assert_eq!(stdout.state().phase, Phase::Closing);
    assert_eq!(stdout.poll_shutdown(waker.clone()), ShutdownStep::Report(PollResult::Pending));
    assert_eq!(stdout.state().phase, Phase::Closing);

    assert_eq!(writer_turn(&mailbox, &mut device, true), WriterAction::Finish);
    assert_eq!(strokes(&gong), 1);

    assert_eq!(stdout.poll_shutdown(waker.clone()), ShutdownStep::Join);
    assert_eq!(stdout.state().phase, Phase::Joining);
    assert_eq!(stdout.poll_shutdown(waker.clone()), ShutdownStep::Join);
    assert_eq!(stdout.joined(true), PollResult::Ready(()));
    assert_eq!(stdout.state().phase, Phase::Closed);

    let held = mailbox.take().unwrap();
    for _ in 0..3 {
        assert_eq!(
            stdout.poll_shutdown(waker.clone()),
            ShutdownStep::Report(PollResult::Ready(()))
        );
        assert_eq!(stdout.state().phase, Phase::Closed);
    }
    assert_eq!(stdout.joined(false), PollResult::Ready(()));
    assert_eq!(held.occupied(), 0);
    assert!(!held.is_closing());
    assert_eq!(strokes(&gong), 1);
    assert!(device.is_empty());
}

#[test]
fn shutdown_waits_until_the_last_write_is_written() {
    let (mut stdout, mailbox) = bridge(4);
    let (_gong, waker) = gong();
    let mut device = Vec::new();

    assert_eq!(stdout.poll_write(b"bye", waker.clone()), PollResult::Ready(3));
    assert_eq!(stdout.poll_shutdown(waker.clone()), ShutdownStep::Report(PollResult::Pending));
    assert_eq!(stdout.state().phase, Phase::Open);

    assert_eq!(writer_turn(&mailbox, &mut device, true), WriterAction::Write);
    assert_eq!(device, b"bye");
    assert_eq!(stdout.poll_shutdown(waker.clone()), ShutdownStep::Report(PollResult::Pending));
    assert_eq!(stdout.state().phase, Phase::Closing);
    assert_eq!(writer_turn(&mailbox, &mut device, true), WriterAction::Finish);
    assert_eq!(stdout.poll_shutdown(waker.clone()), ShutdownStep::Join);
    assert_eq!(stdout.joined(true), PollResult::Ready(()));
    assert_eq!(device, b"bye");
}

#[test]
fn failed_join_is_reported_as_other_for_good() {
    let (mut stdout, mailbox) = bridge(4);
    let (_gong, waker) = gong();
    let mut device = Vec::new();

    assert_eq!(stdout.poll_shutdown(waker.clone()), ShutdownStep::Report(PollResult::Pending));
    writer_turn(&mailbox, &mut device, true);
    assert_eq!(stdout.poll_shutdown(waker.clone()), ShutdownStep::Join);
    assert_eq!(stdout.joined(false), PollResult::Error(ErrorKind::Other));
    assert_eq!(stdout.state().phase, Phase::Broken);
    assert_eq!(
        stdout.poll_shutdown(waker.clone()),
        ShutdownStep::Report(PollResult::Error(ErrorKind::Other))
    );
    assert_eq!(stdout.joined(true), PollResult::Error(ErrorKind::Other));
}

#[test]
fn shutdown_after_a_failed_write_still_ends_the_writer() {
    let (mut stdout, mailbox) = bridge(4);
    let (_gong, waker) = gong();
    let mut device = Vec::new();

    assert_eq!(stdout.poll_write(b"ab", waker.clone()), PollResult::Ready(2));
    writer_turn(&mailbox, &mut device, false);
    assert_eq!(stdout.poll_shutdown(waker.clone()), ShutdownStep::Report(PollResult::Pending));
    assert_eq!(writer_turn(&mailbox, &mut device, true), WriterAction::Finish);
    assert_eq!(stdout.poll_shutdown(waker.clone()), ShutdownStep::Join);
    assert_eq!(stdout.joined(true), PollResult::Ready(()));
    assert_eq!(mailbox.take().unwrap().occupied(), -1);
}

#[test]
fn write_after_shutdown_is_refused() {
    let (mut stdout, mailbox) = bridge(4);
    let (_gong, waker) = gong();
    let mut device = Vec::new();

    assert_eq!(stdout.poll_shutdown(waker.clone()), ShutdownStep::Report(PollResult::Pending));
    assert_eq!(stdout.poll_write(b"late", waker.clone()), PollResult::Error(ErrorKind::Other));
    assert_eq!(stdout.poll_write(b"", waker.clone()), PollResult::Ready(0));
    writer_turn(&mailbox, &mut device, true);
    assert_eq!(stdout.poll_shutdown(waker.clone()), ShutdownStep::Join);
    assert_eq!(stdout.joined(true), PollResult::Ready(()));
    assert_eq!(stdout.poll_write(b"late", waker.clone()), PollResult::Error(ErrorKind::Other));
    assert!(device.is_empty());
}

#[test]
fn shutdown_is_pending_while_the_writer_holds_the_request() {
    let (mut stdout, mailbox) = bridge(4);
    let (_gong, waker) = gong();
    let request = mailbox.take().unwrap();
    assert_eq!(stdout.poll_shutdown(waker.clone()), ShutdownStep::Report(PollResult::Pending));
    assert_eq!(stdout.state().phase, Phase::Open);
    assert!(mailbox.put(request, false).is_ok());
}

fn in_phase(phase: Phase) -> WriteState {
    WriteState { phase, failed: false }
}

#[test]
fn shutdown_step_follows_the_phase() {
    let (_gong, waker) = gong();

    let (state, back, notify, step) = shutdown_step(in_phase(Phase::Closed), None, waker.clone());
    assert_eq!(state, in_phase(Phase::Closed));
    assert!(back.is_none());
    assert!(!notify);
    assert_eq!(step, ShutdownStep::Report(PollResult::Ready(())));

    let (state, back, notify, step) =
        shutdown_step(in_phase(Phase::Open), Some(WriteRequest::new(2)), waker.clone());
    assert_eq!(state, in_phase(Phase::Closing));
    assert!(back.unwrap().is_closing());
    assert!(notify);
    assert_eq!(step, ShutdownStep::Report(PollResult::Pending));

    let (state, back, notify, step) =
        shutdown_step(in_phase(Phase::Closing), Some(WriteRequest::new(2)), waker.clone());
    assert_eq!(state, in_phase(Phase::Joining));
    assert!(!back.unwrap().is_closing());
    assert!(!notify);
    assert_eq!(step, ShutdownStep::Join);

    let (state, back, _notify, step) = shutdown_step(in_phase(Phase::Joining), None, waker.clone());
    assert_eq!(state, in_phase(Phase::Joining));
    assert!(back.is_none());
    assert_eq!(step, ShutdownStep::Join);

    let (state, _back, _notify, step) = shutdown_step(in_phase(Phase::Broken), None, waker.clone());
    assert_eq!(state, in_phase(Phase::Broken));
    assert_eq!(step, ShutdownStep::Report(PollResult::Error(ErrorKind::Other)));

    let (state, back, notify, step) = shutdown_step(in_phase(Phase::Open), None, waker.clone());
    assert_eq!(state, in_phase(Phase::Open));
    assert!(back.is_none());
    assert!(!notify);
    assert_eq!(step, ShutdownStep::Report(PollResult::Pending));

    let (busy, _) = WriteRequest::new(2).offer(b"x", waker.clone());
    let (state, back, notify, step) =
        shutdown_step(in_phase(Phase::Open), Some(busy), waker.clone());
    assert_eq!(state, in_phase(Phase::Open));
    assert_eq!(back.unwrap().payload(), b"x");
    assert!(notify);
    assert_eq!(step, ShutdownStep::Report(PollResult::Pending));
}

#[test]
fn write_step_follows_the_request() {
    let (_gong, waker) = gong();
    let open = in_phase(Phase::Open);

    let (state, back, notify, told) = write_step(open, None, b"abc", waker.clone());
    assert_eq!(state, open);
    assert!(back.is_none());
    assert!(!notify);
    assert_eq!(told, PollResult::Pending);

    let (state, back, notify, told) =
        write_step(open, Some(WriteRequest::new(2)), b"abc", waker.clone());
    assert_eq!(state, open);
    assert!(notify);
    assert_eq!(told, PollResult::Ready(2));
    let busy = back.unwrap();
    assert_eq!(busy.payload(), b"ab");

    let (state, back, notify, told) = write_step(open, Some(busy), b"c", waker.clone());
    assert_eq!(state, open);
    assert!(notify);
    assert_eq!(told, PollResult::Pending);
    let (failed, _due) = back.unwrap().complete(false);

    let (state, back, notify, told) = write_step(open, Some(failed), b"c", waker.clone());
    assert_eq!(state, WriteState { phase: Phase::Open, failed: true });
    assert!(!notify);
    assert_eq!(told, PollResult::Error(ErrorKind::Other));
    assert_eq!(back.unwrap().occupied(), -1);

    let (state, back, _notify, told) =
        write_step(state, Some(WriteRequest::new(2)), b"c", waker.clone());
    assert!(state.failed);
    assert!(back.is_none());
    assert_eq!(told, PollResult::Error(ErrorKind::Other));

    let (_state, back, _notify, told) =
        write_step(state, Some(WriteRequest::new(2)), b"", waker.clone());
    assert!(back.is_none());
    assert_eq!(told, PollResult::Ready(0));

    let (state, back, _notify, told) =
        write_step(in_phase(Phase::Closing), None, b"c", waker.clone());
    assert_eq!(state, in_phase(Phase::Closing));
    assert!(back.is_none());
    assert_eq!(told, PollResult::Error(ErrorKind::Other));
}

#[test]
fn flush_step_follows_the_request() {
    let (_gong, waker) = gong();
    let open = in_phase(Phase::Open);

    let (state, back, notify, told) = flush_step(open, None);
    assert_eq!(state, open);
    assert!(back.is_none());
    assert!(!notify);
    assert_eq!(told, PollResult::Pending);

    let (state, back, notify, told) = flush_step(open, Some(WriteRequest::new(2)));
    assert_eq!(state, open);
    assert!(!notify);
    assert_eq!(told, PollResult::Ready(()));

    let (busy, _) = back.unwrap().offer(b"x", waker.clone());
    let (state, back, notify, told) = flush_step(open, Some(busy));
    assert_eq!(state, open);
    assert!(notify);
    assert_eq!(told, PollResult::Pending);

    let (failed, _due) = back.unwrap().complete(false);
    let (state, _back, _notify, told) = flush_step(open, Some(failed));
    assert!(state.failed);
    assert_eq!(told, PollResult::Error(ErrorKind::Other));

    let (state, back, _notify, told) = flush_step(state, Some(WriteRequest::new(2)));
    assert!(state.failed);
    assert!(back.is_none());
    assert_eq!(told, PollResult::Error(ErrorKind::Other));
}

#[test]
fn refused_write_is_remembered_by_the_bridge() {
    let (mut stdout, mailbox) = bridge(4);
    let (_gong, waker) = gong();
    let mut device = Vec::new();

    assert_eq!(stdout.poll_write(b"ab", waker.clone()), PollResult::Ready(2));
    writer_turn(&mailbox, &mut device, false);
    assert!(!stdout.state().failed);
    assert_eq!(stdout.poll_write(b"cd", waker.clone()), PollResult::Error(ErrorKind::Other));
    assert!(stdout.state().failed);

    let held = mailbox.take().unwrap();
    assert_eq!(stdout.poll_write(b"cd", waker.clone()), PollResult::Error(ErrorKind::Other));
    assert_eq!(stdout.poll_flush(), PollResult::Error(ErrorKind::Other));
    assert_eq!(stdout.poll_write(b"", waker.clone()), PollResult::Ready(0));
    assert!(mailbox.put(held, false).is_ok());
    assert_eq!(stdout.state().phase, Phase::Open);
}

#[test]
fn request_takes_what_fits_and_keeps_the_waker() {
    let (gong, waker) = gong();
    let request = WriteRequest::new(3);
    assert_eq!(request.capacity(), 3);
    assert_eq!(request.flushed(), PollResult::Ready(()));

    let (request, told) = request.offer(b"abcdef", waker.clone());
    assert_eq!(told, PollResult::Ready(3));
    assert_eq!(request.payload(), b"abc");
    assert_eq!(request.occupied(), 3);
    assert_eq!(request.action(), WriterAction::Write);
    assert!(request.wants_writer());
    assert_eq!(request.flushed(), PollResult::Pending);

    let (request, told) = request.offer(b"zz", waker.clone());
    assert_eq!(told, PollResult::Pending);
    assert_eq!(request.payload(), b"abc");

    let (request, due) = request.complete(true);
    assert_eq!(request.occupied(), 0);
    assert_eq!(request.payload(), b"");
    assert_eq!(strokes(&gong), 0);
    due.unwrap().notify(WAKER_ID);
    assert_eq!(strokes(&gong), 1);

    let (request, due) = request.complete(true);
    assert!(due.is_none());
    assert_eq!(request.occupied(), 0);
}

#[test]
fn request_marks_the_end_only_between_writes() {
    let (_gong, waker) = gong();
    let request = WriteRequest::new(3);
    let (request, _) = request.offer(b"ab", waker.clone());
    let (request, marked) = request.begin_close(waker.clone());
    assert!(!marked);
    assert!(!request.is_closing());

    let (request, _) = request.complete(true);
    let (request, marked) = request.begin_close(waker.clone());
    assert!(marked);
    assert!(request.is_closing());
    assert_eq!(request.action(), WriterAction::Finish);
    let (request, marked) = request.begin_close(waker.clone());
    assert!(!marked);

    let (request, told) = request.offer(b"ab", waker.clone());
    assert_eq!(told, PollResult::Error(ErrorKind::Other));
    let (request, due) = request.end_close();
    assert!(due.is_some());
    assert!(!request.is_closing());
    let (request, due) = request.end_close();
    assert!(due.is_none());
    assert_eq!(request.action(), WriterAction::Idle);
}

#[test]
fn mailbox_holds_one_item_and_hands_a_second_back() {
    let mailbox = Rendezvous::new(1u32);
    assert!(!mailbox.is_broken());
    assert_eq!(mailbox.put(2, true), Err(2));
    assert_eq!(mailbox.take(), Some(1));
    assert_eq!(mailbox.take(), None);
    assert_eq!(mailbox.put(3, true), Ok(()));
    assert_eq!(mailbox.put(4, false), Err(4));
    assert_eq!(mailbox.take(), Some(3));
}

#[test]
fn waiting_takes_only_an_item_that_is_accepted() {
    let mailbox = Rendezvous::new(10u32);
    assert_eq!(mailbox.wait_until(|n: &u32| *n >= 10), Ok::<u32, Closed>(10));
    assert_eq!(mailbox.take(), None);
}

#[test]
fn slot_operations_move_the_item_or_leave_it() {
    let mut slot = Some(5u8);
    assert_eq!(slot_put(&mut slot, 6), Err(6));
    assert_eq!(slot, Some(5));
    assert!(must_wait(&slot, &|n: &u8| *n > 5));
    assert!(!must_wait(&slot, &|n: &u8| *n == 5));
    assert_eq!(slot_take_if(&mut slot, &|n: &u8| *n > 5), None);
    assert_eq!(slot, Some(5));
    assert_eq!(slot_take_if(&mut slot, &|n: &u8| *n == 5), Some(5));
    assert_eq!(slot, None);
    assert!(must_wait(&slot, &|_n: &u8| true));
    assert_eq!(slot_take(&mut slot), None);
    assert_eq!(slot_put(&mut slot, 7), Ok(()));
    assert_eq!(slot_take(&mut slot), Some(7));
    assert_eq!(slot, None);
}

/// The loop body of a writer thread on `device`, until nothing more is
/// waiting. Returns how the loop would go on.
fn drain_once(drainer: &Drainer, device: &mut Vec<u8>) -> &'static str {
    match drainer.next() {
        Job::Write(request) => {
            device.extend_from_slice(request.payload());
            if let Some(waker) = drainer.done(request, true) {
                waker.notify(WAKER_ID);
            }
            "wrote"
        }
        Job::Finish(waker) => {
            waker.notify(WAKER_ID);
            "finished"
        }
        Job::Broken => "broken",
    }
}

#[test]
fn drainer_writes_then_finishes() {
    let (mut stdout, drainer) = write_bridge(4);
    let (gong, waker) = gong();
    let mut device = Vec::new();

    assert_eq!(stdout.poll_write(b"hello", waker.clone()), PollResult::Ready(4));
    assert_eq!(drain_once(&drainer, &mut device), "wrote");
    assert_eq!(strokes(&gong), 1);
    assert_eq!(stdout.poll_write(b"o", waker.clone()), PollResult::Ready(1));
    assert_eq!(drain_once(&drainer, &mut device), "wrote");
    assert_eq!(device, b"hello");
    assert_eq!(strokes(&gong), 2);

    assert_eq!(stdout.poll_shutdown(waker.clone()), ShutdownStep::Report(PollResult::Pending));
    assert_eq!(drain_once(&drainer, &mut device), "finished");
    assert_eq!(strokes(&gong), 3);
    assert_eq!(stdout.poll_shutdown(waker.clone()), ShutdownStep::Join);
    assert_eq!(stdout.joined(true), PollResult::Ready(()));
    assert_eq!(stdout.poll_shutdown(waker.clone()), ShutdownStep::Report(PollResult::Ready(())));
    assert_eq!(device, b"hello");
}

#[test]
fn drainer_reports_a_failed_write() {
    let (mut stdout, drainer) = write_bridge(16);
    let (gong, waker) = gong();

    assert_eq!(stdout.poll_write(b"lost", waker.clone()), PollResult::Ready(4));
    let request = match drainer.next() {
        Job::Write(request) => request,
        _ => panic!("a write was waiting"),
    };
    assert_eq!(request.payload(), b"lost");
    assert_eq!(stdout.poll_write(b"more", waker.clone()), PollResult::Pending);
    drainer.done(request, false).unwrap().notify(WAKER_ID);
    assert_eq!(strokes(&gong), 1);
    assert_eq!(stdout.poll_write(b"more", waker.clone()), PollResult::Error(ErrorKind::Other));
    assert_eq!(stdout.poll_flush(), PollResult::Error(ErrorKind::Other));
}

#[test]
fn write_all_through_a_small_request_keeps_every_byte() {
    let (mut stdout, drainer) = write_bridge(3);
    let (_gong, waker) = gong();
    let mut device = Vec::new();
    let data: Vec<u8> = (0u8..=200).collect();

    let mut sent = 0usize;
    while sent < data.len() {
        match stdout.poll_write(&data[sent..], waker.clone()) {
            PollResult::Ready(n) => {
                assert_eq!(n, std::cmp::min(3, data.len() - sent));
                sent += n;
                assert_eq!(stdout.poll_write(&data[..1], waker.clone()), PollResult::Pending);
                assert_eq!(drain_once(&drainer, &mut device), "wrote");
            }
            other => panic!("the request was free, yet the write was {:?}", other),
        }
    }
    assert_eq!(device, data);
}

#[test]
fn drain_step_follows_the_request() {
    let (gong, waker) = gong();

    let (job, back) = drain_step(None);
    assert!(matches!(job, Job::Broken));
    assert!(back.is_none());

    let (busy, _) = WriteRequest::new(4).offer(b"abc", waker.clone());
    let (job, back) = drain_step(Some(busy));
    assert!(back.is_none());
    match job {
        Job::Write(request) => assert_eq!(request.payload(), b"abc"),
        _ => panic!("bytes were waiting"),
    }

    let (marked, set) = WriteRequest::new(4).begin_close(waker.clone());
    assert!(set);
    let (job, back) = drain_step(Some(marked));
    let back = back.unwrap();
    assert!(!back.is_closing());
    assert_eq!(back.occupied(), 0);
    assert_eq!(strokes(&gong), 0);
    match job {
        Job::Finish(due) => due.notify(WAKER_ID),
        _ => panic!("the end of the stream was marked"),
    }
    assert_eq!(strokes(&gong), 1);

    let (job, back) = drain_step(Some(WriteRequest::new(4)));
    assert!(matches!(job, Job::Broken));
    let back = back.unwrap();
    assert_eq!(back.capacity(), 4);
    assert_eq!(back.action(), WriterAction::Idle);
}

#[test]
fn bridge_and_drainer_share_a_request_of_the_given_capacity() {
    let (mut stdout, drainer) = write_bridge(3);
    let (_gong, waker) = gong();
    assert_eq!(stdout.poll_write(b"abcdef", waker.clone()), PollResult::Ready(3));
    match drainer.next() {
        Job::Write(request) => {
            assert_eq!(request.capacity(), 3);
            assert_eq!(request.payload(), b"abc");
            assert!(drainer.done(request, true).is_some());
        }
        _ => panic!("bytes were waiting"),
    }
    assert_eq!(stdout.poll_flush(), PollResult::Ready(()));
}
