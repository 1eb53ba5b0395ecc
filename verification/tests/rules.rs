//! The rules of the engine on given values, with no channel in between.
use mock_io::engine::audit;
use mock_io::handle::{poll_event, take_event};
use mock_io::matcher::decide;
use mock_io::operation::{complete_read, complete_write, finish_read, finish_write};
use mock_io::{
    Action, Delivery, Direction, Event, Fault, Matching, Payload, Progress, Verdict, Violation,
};
use std::io::ErrorKind;
use tokio::io::ReadBuf;

#[test]
fn constructors_set_direction_and_payload() {
    assert_eq!(
        Action::read(b"ab"),
        Action { direction: Direction::Read, payload: Payload::Data(vec![b'a', b'b']) }
    );
    assert_eq!(
        Action::write(b"cd"),
        Action { direction: Direction::Write, payload: Payload::Data(vec![b'c', b'd']) }
    );
    assert_eq!(
        Action::read_error(ErrorKind::ConnectionReset),
        Action { direction: Direction::Read, payload: Payload::Error(ErrorKind::ConnectionReset) }
    );
    assert_eq!(
        Action::write_error(ErrorKind::BrokenPipe),
        Action { direction: Direction::Write, payload: Payload::Error(ErrorKind::BrokenPipe) }
    );
    assert_eq!(
        Action::read(b""),
        Action { direction: Direction::Read, payload: Payload::Data(Vec::new()) }
    );
}

#[test]
fn action_serves_its_own_direction_only() {
    assert!(Action::read(b"a").serves(Direction::Read));
    assert!(!Action::read(b"a").serves(Direction::Write));
    assert!(Action::write_error(ErrorKind::Other).serves(Direction::Write));
    assert!(!Action::write_error(ErrorKind::Other).serves(Direction::Read));
}

#[test]
fn event_is_derived_from_direction_and_payload() {
    assert_eq!(Event::of(&Action::read(b"abc")), Event::Read(3));
    assert_eq!(Event::of(&Action::write(b"hello")), Event::Write(5));
    assert_eq!(Event::of(&Action::read(b"")), Event::Read(0));
    assert_eq!(
        Event::of(&Action::read_error(ErrorKind::WouldBlock)),
        Event::ReadErr(ErrorKind::WouldBlock)
    );
    assert_eq!(
        Event::of(&Action::write_error(ErrorKind::TimedOut)),
        Event::WriteErr(ErrorKind::TimedOut)
    );
}

#[test]
fn matcher_consumes_own_direction_and_defers_the_other() {
    assert_eq!(
        decide(Delivery::Item(Action::read(b"a")), Direction::Read),
        Verdict::Matched(Action::read(b"a"))
    );
    assert_eq!(
        decide(Delivery::Item(Action::read(b"a")), Direction::Write),
        Verdict::Deferred(Action::read(b"a"))
    );
    assert_eq!(
        decide(Delivery::Item(Action::write_error(ErrorKind::Other)), Direction::Write),
        Verdict::Matched(Action::write_error(ErrorKind::Other))
    );
    assert_eq!(
        decide(Delivery::Item(Action::write_error(ErrorKind::Other)), Direction::Read),
        Verdict::Deferred(Action::write_error(ErrorKind::Other))
    );
    assert_eq!(decide(Delivery::Empty, Direction::Read), Verdict::Idle);
    assert_eq!(decide(Delivery::Empty, Direction::Write), Verdict::Idle);
    assert_eq!(decide(Delivery::Closed, Direction::Read), Verdict::Ended);
    assert_eq!(decide(Delivery::Closed, Direction::Write), Verdict::Ended);
}

#[test]
fn audit_reports_an_action_found() {
    assert_eq!(audit(Delivery::Empty), Ok(()));
    assert_eq!(audit(Delivery::Closed), Ok(()));
    assert_eq!(
        audit(Delivery::Item(Action::write(b"w"))),
        Err(Violation::UnusedAction(Action::write(b"w")))
    );
}

#[test]
fn completed_read_copies_all_or_nothing() {
    let mut storage = [0u8; 3];
    let mut buf = ReadBuf::new(&mut storage);
    assert_eq!(complete_read(Payload::Data(b"ab".to_vec()), &mut buf), Ok(()));
    assert_eq!(buf.filled(), b"ab");
    assert_eq!(
        complete_read(Payload::Data(b"cd".to_vec()), &mut buf),
        Err(Fault::ProtocolViolation(Violation::ShortBuffer { needed: 2, available: 1 }))
    );
    assert_eq!(buf.filled(), b"ab");
    assert_eq!(
        complete_read(Payload::Error(ErrorKind::UnexpectedEof), &mut buf),
        Err(Fault::Injected(ErrorKind::UnexpectedEof))
    );
    assert_eq!(buf.filled(), b"ab");
    assert_eq!(complete_read(Payload::Data(b"c".to_vec()), &mut buf), Ok(()));
    assert_eq!(buf.filled(), b"abc");
}

#[test]
fn completed_write_compares_every_byte() {
    assert_eq!(complete_write(Payload::Data(b"hello".to_vec()), b"hello"), Ok(5));
    assert_eq!(complete_write(Payload::Data(Vec::new()), b""), Ok(0));
    assert_eq!(
        complete_write(Payload::Data(b"hello".to_vec()), b"hellx"),
        Err(Fault::ProtocolViolation(Violation::WriteMismatch {
            expected: b"hello".to_vec(),
            actual: b"hellx".to_vec(),
        }))
    );
    assert_eq!(
        complete_write(Payload::Data(b"hello".to_vec()), b"xello"),
        Err(Fault::ProtocolViolation(Violation::WriteMismatch {
            expected: b"hello".to_vec(),
            actual: b"xello".to_vec(),
        }))
    );
    assert_eq!(
        complete_write(Payload::Data(b"hello".to_vec()), b"hello!"),
        Err(Fault::ProtocolViolation(Violation::WriteMismatch {
            expected: b"hello".to_vec(),
            actual: b"hello!".to_vec(),
        }))
    );
    assert_eq!(
        complete_write(Payload::Error(ErrorKind::BrokenPipe), b"hello"),
        Err(Fault::Injected(ErrorKind::BrokenPipe))
    );
}

#[test]
fn read_waits_on_not_yet() {
    let mut storage = [0u8; 3];
    let mut buf = ReadBuf::new(&mut storage);
    assert_eq!(finish_read(Ok(Matching::NotYet), &mut buf), Progress::Pending);
    assert_eq!(
        finish_read(Err(Violation::ScriptExhausted), &mut buf),
        Progress::Ready(Err(Fault::ProtocolViolation(Violation::ScriptExhausted)))
    );
    assert_eq!(
        finish_read(Err(Violation::ObserverGone), &mut buf),
        Progress::Ready(Err(Fault::ProtocolViolation(Violation::ObserverGone)))
    );
    assert!(buf.filled().is_empty());
    assert_eq!(
        finish_read(Ok(Matching::Matched(Payload::Data(b"abc".to_vec()))), &mut buf),
        Progress::Ready(Ok(()))
    );
    assert_eq!(buf.filled(), b"abc");
}

#[test]
fn write_fails_on_not_yet() {
    assert_eq!(
        finish_write(Ok(Matching::NotYet), b"w"),
        Progress::Ready(Err(Fault::ProtocolViolation(Violation::UnscriptedWrite)))
    );
    assert_eq!(
        finish_write(Err(Violation::ScriptExhausted), b"w"),
        Progress::Ready(Err(Fault::ProtocolViolation(Violation::ScriptExhausted)))
    );
    assert_eq!(
        finish_write(Ok(Matching::Matched(Payload::Data(b"w".to_vec()))), b"w"),
        Progress::Ready(Ok(1))
    );
    assert_eq!(
        finish_write(Ok(Matching::Matched(Payload::Error(ErrorKind::Other))), b"w"),
        Progress::Ready(Err(Fault::Injected(ErrorKind::Other)))
    );
}

#[test]
fn handle_reads_deliveries_of_events() {
    assert_eq!(take_event(Delivery::Item(Event::Read(1))), Some(Event::Read(1)));
    assert_eq!(take_event(Delivery::Empty), None);
    assert_eq!(take_event(Delivery::Closed), None);
    assert_eq!(
        poll_event(Delivery::Item(Event::Write(2))),
        Progress::Ready(Some(Event::Write(2)))
    );
    assert_eq!(poll_event(Delivery::Empty), Progress::Pending);
    assert_eq!(poll_event(Delivery::Closed), Progress::Ready(None));
}
