//! How an operation on the engine can fail.
//!
//! Two classes are kept apart: an error the script asked for, which the code
//! under test is meant to handle, and a violation, which says that the script
//! and the code under test disagree and the test itself is at fault.
use crate::script::{Action, ActionView};
use std::io::ErrorKind;
use vstd::prelude::*;

verus! {

/// A disagreement between the script and what the code under test did.
#[derive(Debug, PartialEq, Eq)]
pub enum Violation {
    /// The controller's end of the action channel was closed while the
    /// engine still asked for an action.
    ScriptExhausted,
    /// A write found no scripted write to meet it.
    UnscriptedWrite,
    /// A write's bytes differ from the scripted ones.
    WriteMismatch { expected: Vec<u8>, actual: Vec<u8> },
    /// A scripted read holds more bytes than the reader's buffer has room for.
    ShortBuffer { needed: usize, available: usize },
    /// An action was still unconsumed when the engine was finished.
    UnusedAction(Action),
    /// An event found no receiver: the handle is gone.
    ObserverGone,
}

/// A violation as contracts see it.
pub enum ViolationView {
    ScriptExhausted,
    UnscriptedWrite,
    WriteMismatch { expected: Seq<u8>, actual: Seq<u8> },
    ShortBuffer { needed: usize, available: usize },
    UnusedAction(ActionView),
    ObserverGone,
}

impl View for Violation {
    type V = ViolationView;

    open spec fn view(&self) -> ViolationView {
        match *self {
            Violation::ScriptExhausted => ViolationView::ScriptExhausted,
            Violation::UnscriptedWrite => ViolationView::UnscriptedWrite,
            Violation::WriteMismatch { expected, actual } => ViolationView::WriteMismatch {
                expected: expected@,
                actual: actual@,
            },
            Violation::ShortBuffer { needed, available } => ViolationView::ShortBuffer {
                needed,
                available,
            },
            Violation::UnusedAction(action) => ViolationView::UnusedAction(action@),
            Violation::ObserverGone => ViolationView::ObserverGone,
        }
    }
}

/// Why a read or a write did not succeed.
#[derive(Debug, PartialEq, Eq)]
pub enum Fault {
    /// The script asked for this error; the code under test is to see it as
    /// an ordinary failure of the operation.
    Injected(ErrorKind),
    /// The test itself is wrong; this is never to be passed off as an
    /// injected error.
    ProtocolViolation(Violation),
}

/// A fault as contracts see it.
pub enum FaultView {
    Injected(ErrorKind),
    ProtocolViolation(ViolationView),
}

impl View for Fault {
    type V = FaultView;

    open spec fn view(&self) -> FaultView {
        match *self {
            Fault::Injected(kind) => FaultView::Injected(kind),
            Fault::ProtocolViolation(violation) => FaultView::ProtocolViolation(violation@),
        }
    }
}

/// A result as contracts see it: both sides by their views.
pub open spec fn seen<T: View, E: View>(result: Result<T, E>) -> Result<T::V, E::V> {
    match result {
        Ok(value) => Ok(value@),
        Err(error) => Err(error@),
    }
}

} // verus!
