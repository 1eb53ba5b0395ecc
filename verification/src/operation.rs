//! What a read and a write make of the matcher's reply.
//!
//! A read treats "not yet" as a reason to wait; a write treats it as an error
//! of the script. Matched data is copied to the reader whole or not at all,
//! and held against the writer's bytes byte for byte.
use crate::buffer::{capacity, filled, put_slice, remaining, room};
use crate::fault::{seen, Fault, FaultView, Violation, ViolationView};
use crate::matcher::{Matching, MatchingView};
use crate::script::{Payload, PayloadView};
use tokio::io::ReadBuf;
use vstd::prelude::*;
use vstd::slice::slice_to_vec;

verus! {

/// Whether an operation has come to a result or has to be tried again.
#[derive(Debug, PartialEq, Eq)]
pub enum Progress<T> {
    Ready(T),
    Pending,
}

impl<T> View for Progress<Result<T, Fault>> {
    type V = Progress<Result<T, FaultView>>;

    open spec fn view(&self) -> Progress<Result<T, FaultView>> {
        match *self {
            Progress::Ready(Ok(value)) => Progress::Ready(Ok(value)),
            Progress::Ready(Err(fault)) => Progress::Ready(Err(fault@)),
            Progress::Pending => Progress::Pending,
        }
    }
}

/// The result of a read that consumed `payload`, given the reader's buffer
/// as it stood: success when the payload is data that fits, a violation when
/// it is data that does not fit, the scripted error otherwise.
pub open spec fn read_result(payload: PayloadView, before: ReadBuf<'_>) -> Result<(), FaultView> {
    match payload {
        PayloadView::Data(bytes) => if bytes.len() <= room(before) {
            Ok(())
        } else {
            Err(
                FaultView::ProtocolViolation(
                    ViolationView::ShortBuffer {
                        needed: bytes.len() as usize,
                        available: room(before) as usize,
                    },
                ),
            )
        },
        PayloadView::Error(kind) => Err(FaultView::Injected(kind)),
    }
}

/// The reader's buffer after a read that consumed `payload`: data that fits
/// is appended whole to the filled region; in every other case the buffer is
/// the one it was.
pub open spec fn read_effect(payload: PayloadView, before: ReadBuf<'_>, after: ReadBuf<'_>) -> bool {
    match payload {
        PayloadView::Data(bytes) => if bytes.len() <= room(before) {
            &&& filled(after) == filled(before) + bytes
            &&& capacity(after) == capacity(before)
        } else {
            after == before
        },
        PayloadView::Error(_) => after == before,
    }
}

/// The result of a write of `written` that consumed `payload`: all bytes
/// accepted when they are the scripted ones, a violation naming both when
/// they are not, the scripted error otherwise.
pub open spec fn write_result(payload: PayloadView, written: Seq<u8>) -> Result<usize, FaultView> {
    match payload {
        PayloadView::Data(expected) => if expected == written {
            Ok(written.len() as usize)
        } else {
            Err(
                FaultView::ProtocolViolation(
                    ViolationView::WriteMismatch { expected, actual: written },
                ),
            )
        },
        PayloadView::Error(kind) => Err(FaultView::Injected(kind)),
    }
}

/// What a read reports for a reply of the matcher: it waits on "not yet",
/// passes a violation on, and completes on a match.
pub open spec fn read_report(
    reply: Result<MatchingView, ViolationView>,
    before: ReadBuf<'_>,
) -> Progress<Result<(), FaultView>> {
    match reply {
        Ok(MatchingView::Matched(payload)) => Progress::Ready(read_result(payload, before)),
        Ok(MatchingView::NotYet) => Progress::Pending,
        Err(violation) => Progress::Ready(Err(FaultView::ProtocolViolation(violation))),
    }
}

/// What a write reports for a reply of the matcher: it never waits. "Not
/// yet" means the write was not scripted, which is a violation.
pub open spec fn write_report(
    reply: Result<MatchingView, ViolationView>,
    written: Seq<u8>,
) -> Progress<Result<usize, FaultView>> {
    match reply {
        Ok(MatchingView::Matched(payload)) => Progress::Ready(write_result(payload, written)),
        Ok(MatchingView::NotYet) => Progress::Ready(
            Err(FaultView::ProtocolViolation(ViolationView::UnscriptedWrite)),
        ),
        Err(violation) => Progress::Ready(Err(FaultView::ProtocolViolation(violation))),
    }
}

/// Whether the two hold the same bytes.
fn same_bytes(expected: &Vec<u8>, written: &[u8]) -> (same: bool)
    ensures
        same == (expected@ == written@),
{
    if expected.len() != written.len() {
        return false;
    }
    let mut i: usize = 0;
    while i < expected.len()
        invariant
            i <= expected.len(),
            expected.len() == written.len(),
            forall|j: int| 0 <= j < i ==> expected@[j] == written@[j],
        decreases expected.len() - i,
    {
        if expected[i] != written[i] {
            return false;
        }
        i += 1;
    }
    assert(expected@ =~= written@);
    true
}

/// Carries out a read that consumed `payload`: copies the data into `buf` if
/// all of it fits there, and copies nothing otherwise.
pub fn complete_read(payload: Payload, buf: &mut ReadBuf<'_>) -> (done: Result<(), Fault>)
    ensures
        seen(done) == read_result(payload@, *old(buf)),
        read_effect(payload@, *old(buf), *final(buf)),
{
    match payload {
        Payload::Data(bytes) => {
            let available = remaining(buf);
            if bytes.len() <= available {
                put_slice(buf, bytes.as_slice());
                Ok(())
            } else {
                Err(
                    Fault::ProtocolViolation(
                        Violation::ShortBuffer { needed: bytes.len(), available },
                    ),
                )
            }
        },
        Payload::Error(kind) => Err(Fault::Injected(kind)),
    }
}

/// Carries out a write of `written` that consumed `payload`.
pub fn complete_write(payload: Payload, written: &[u8]) -> (done: Result<usize, Fault>)
    ensures
        seen(done) == write_result(payload@, written@),
{
    match payload {
        Payload::Data(expected) => {
            if same_bytes(&expected, written) {
                Ok(written.len())
            } else {
                Err(
                    Fault::ProtocolViolation(
                        Violation::WriteMismatch { expected, actual: slice_to_vec(written) },
                    ),
                )
            }
        },
        Payload::Error(kind) => Err(Fault::Injected(kind)),
    }
}

/// Turns the matcher's reply into the report of a read into `buf`.
pub fn finish_read(reply: Result<Matching, Violation>, buf: &mut ReadBuf<'_>) -> (report: Progress<
    Result<(), Fault>,
>)
    ensures
        report@ == read_report(seen(reply), *old(buf)),
        match seen(reply) {
            Ok(MatchingView::Matched(payload)) => read_effect(payload, *old(buf), *final(buf)),
            _ => *final(buf) == *old(buf),
        },
{
    match reply {
        Ok(Matching::Matched(payload)) => Progress::Ready(complete_read(payload, buf)),
        Ok(Matching::NotYet) => Progress::Pending,
        Err(violation) => Progress::Ready(Err(Fault::ProtocolViolation(violation))),
    }
}

/// Turns the matcher's reply into the report of a write of `written`.
pub fn finish_write(reply: Result<Matching, Violation>, written: &[u8]) -> (report: Progress<
    Result<usize, Fault>,
>)
    ensures
        report@ == write_report(seen(reply), written@),
{
    match reply {
        Ok(Matching::Matched(payload)) => Progress::Ready(complete_write(payload, written)),
        Ok(Matching::NotYet) => Progress::Ready(
            Err(Fault::ProtocolViolation(Violation::UnscriptedWrite)),
        ),
        Err(violation) => Progress::Ready(Err(Fault::ProtocolViolation(violation))),
    }
}

} // verus!
