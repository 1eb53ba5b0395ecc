//! The vocabulary of a script: directions, actions, payloads and the events
//! that record a consumed action.
use std::io::ErrorKind;
use vstd::prelude::*;
use vstd::slice::slice_to_vec;

verus! {

/// `std::io::ErrorKind`, carried through the library untouched: nothing here
/// looks inside a kind, two kinds are only ever compared in contracts.
#[verifier::external_type_specification]
#[verifier::external_body]
pub struct ExErrorKind(std::io::ErrorKind);

/// The operation an action is scripted for, and the operation a caller asks
/// the engine to perform.
#[derive(Debug, Clone, Copy, PartialEq, Eq, Structural)]
pub enum Direction {
    Read,
    Write,
}

/// What a scripted action carries: the bytes of the transfer, or the error
/// the operation is to fail with.
#[derive(Debug, PartialEq, Eq)]
pub enum Payload {
    Data(Vec<u8>),
    Error(ErrorKind),
}

/// A payload as contracts see it.
pub enum PayloadView {
    Data(Seq<u8>),
    Error(ErrorKind),
}

impl View for Payload {
    type V = PayloadView;

    open spec fn view(&self) -> PayloadView {
        match *self {
            Payload::Data(bytes) => PayloadView::Data(bytes@),
            Payload::Error(kind) => PayloadView::Error(kind),
        }
    }
}

/// One scripted operation: a direction and what happens when an operation of
/// that direction meets it.
#[derive(Debug, PartialEq, Eq)]
pub struct Action {
    pub direction: Direction,
    pub payload: Payload,
}

/// An action as contracts see it.
pub struct ActionView {
    pub direction: Direction,
    pub payload: PayloadView,
}

impl View for Action {
    type V = ActionView;

    open spec fn view(&self) -> ActionView {
        ActionView { direction: self.direction, payload: self.payload@ }
    }
}

/// The record of one consumed action, as the test observes it.
#[derive(Debug, Clone, Copy, PartialEq, Eq)]
pub enum Event {
    /// A scripted write was met by a write of this many bytes.
    Write(usize),
    /// A scripted read handed this many bytes to the reader.
    Read(usize),
    /// A write failed with the scripted error.
    WriteErr(ErrorKind),
    /// A read failed with the scripted error.
    ReadErr(ErrorKind),
}

impl ActionView {
    /// The event that consuming this action produces. It depends on the
    /// direction and on whether the payload is data or an error, and carries
    /// the size of the data or the kind of the error.
    pub open spec fn event(self) -> Event {
        match (self.direction, self.payload) {
            (Direction::Read, PayloadView::Data(bytes)) => Event::Read(bytes.len() as usize),
            (Direction::Write, PayloadView::Data(bytes)) => Event::Write(bytes.len() as usize),
            (Direction::Read, PayloadView::Error(kind)) => Event::ReadErr(kind),
            (Direction::Write, PayloadView::Error(kind)) => Event::WriteErr(kind),
        }
    }
}

impl Action {
    /// A read that yields `data`.
    pub fn read(data: &[u8]) -> (action: Action)
        ensures
            action@ == (ActionView { direction: Direction::Read, payload: PayloadView::Data(data@) }),
    {
        Action { direction: Direction::Read, payload: Payload::Data(slice_to_vec(data)) }
    }

    /// A write that must consist of exactly `data`.
    pub fn write(data: &[u8]) -> (action: Action)
        ensures
            action@ == (ActionView { direction: Direction::Write, payload: PayloadView::Data(data@) }),
    {
        Action { direction: Direction::Write, payload: Payload::Data(slice_to_vec(data)) }
    }

    /// A read that fails with `kind`.
    pub fn read_error(kind: ErrorKind) -> (action: Action)
        ensures
            action@ == (ActionView { direction: Direction::Read, payload: PayloadView::Error(kind) }),
    {
        Action { direction: Direction::Read, payload: Payload::Error(kind) }
    }

    /// A write that fails with `kind`.
    pub fn write_error(kind: ErrorKind) -> (action: Action)
        ensures
            action@ == (ActionView { direction: Direction::Write, payload: PayloadView::Error(kind) }),
    {
        Action { direction: Direction::Write, payload: Payload::Error(kind) }
    }

    /// Whether an operation of direction `requested` consumes this action.
    pub fn serves(&self, requested: Direction) -> (yes: bool)
        ensures
            yes == (self@.direction == requested),
    {
        self.direction == requested
    }
}

impl Event {
    /// The event that records the consumption of `action`.
    pub fn of(action: &Action) -> (event: Event)
        ensures
            event == action@.event(),
    {
        match &action.payload {
            Payload::Data(bytes) => match action.direction {
                Direction::Read => Event::Read(bytes.len()),
                Direction::Write => Event::Write(bytes.len()),
            },
            Payload::Error(kind) => match action.direction {
                Direction::Read => Event::ReadErr(*kind),
                Direction::Write => Event::WriteErr(*kind),
            },
        }
    }
}

} // verus!
