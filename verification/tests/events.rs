//! The handle's view of events, and the wake-up of a waiting reader.
use mock_io::{mock, Event, Progress};
use std::io::ErrorKind;
use std::sync::atomic::{AtomicUsize, Ordering};
use std::sync::Arc;
use std::task::{Context, Wake, Waker};
use tokio::io::ReadBuf;

struct Counter {
    wakes: AtomicUsize,
}

impl Wake for Counter {
    fn wake(self: Arc<Self>) {
        self.wakes.fetch_add(1, Ordering::SeqCst);
    }
}

#[test]
fn waiting_reader_is_woken_when_an_action_arrives() {
    let (mut engine, mut handle) = mock();
    let counter = Arc::new(Counter { wakes: AtomicUsize::new(0) });
    let waker = Waker::from(counter.clone());
    let mut cx = Context::from_waker(&waker);
    let mut storage = [0u8; 4];
    let mut buf = ReadBuf::new(&mut storage);
    assert_eq!(engine.poll_read(&mut cx, &mut buf), Progress::Pending);
    assert_eq!(counter.wakes.load(Ordering::SeqCst), 0);
    assert_eq!(handle.read(b"go"), Ok(()));
    assert_eq!(counter.wakes.load(Ordering::SeqCst), 1);
    assert_eq!(engine.poll_read(&mut cx, &mut buf), Progress::Ready(Ok(())));
    assert_eq!(buf.filled(), b"go");
}

#[test]
fn waiting_observer_is_woken_when_an_event_arrives() {
    let (mut engine, mut handle) = mock();
    let counter = Arc::new(Counter { wakes: AtomicUsize::new(0) });
    let waker = Waker::from(counter.clone());
    let mut cx = Context::from_waker(&waker);
    let mut quiet = Context::from_waker(Waker::noop());
    assert_eq!(handle.poll_next_event(&mut cx), Progress::Pending);
    assert_eq!(handle.write_error(ErrorKind::ConnectionAborted), Ok(()));
    assert_eq!(counter.wakes.load(Ordering::SeqCst), 0);
    let _ = engine.poll_write(&mut quiet, b"w");
    assert_eq!(counter.wakes.load(Ordering::SeqCst), 1);
    assert_eq!(
        handle.poll_next_event(&mut cx),
        Progress::Ready(Some(Event::WriteErr(ErrorKind::ConnectionAborted)))
    );
    assert_eq!(handle.poll_next_event(&mut cx), Progress::Pending);
}

#[test]
fn no_event_is_left_once_the_engine_is_gone() {
    let (mut engine, mut handle) = mock();
    let mut cx = Context::from_waker(Waker::noop());
    assert_eq!(handle.write(b"w"), Ok(()));
    assert_eq!(engine.poll_write(&mut cx, b"w"), Progress::Ready(Ok(1)));
    drop(engine);
    assert_eq!(handle.poll_next_event(&mut cx), Progress::Ready(Some(Event::Write(1))));
    assert_eq!(handle.poll_next_event(&mut cx), Progress::Ready(None));
    assert_eq!(handle.pop_event(), None);
}

#[test]
fn pop_event_does_not_wait() {
    let (_engine, mut handle) = mock();
    assert_eq!(handle.pop_event(), None);
    assert_eq!(handle.pop_event(), None);
}

#[test]
fn events_are_copied_and_compared_by_value() {
    let event = Event::Read(3);
    let copy = event;
    assert_eq!(event, copy);
    assert_ne!(Event::Read(3), Event::Write(3));
    assert_ne!(Event::Read(3), Event::Read(4));
    assert_ne!(Event::ReadErr(ErrorKind::Other), Event::WriteErr(ErrorKind::Other));
    assert_ne!(Event::ReadErr(ErrorKind::Other), Event::ReadErr(ErrorKind::TimedOut));
    assert_eq!(format!("{:?}", Event::Write(5)), "Write(5)");
}
