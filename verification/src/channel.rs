//! The unbounded channels that join a handle to its engine, and the task
//! context a poll is made under.
//!
//! Everything here is taken on trust from tokio and std. What arrives on a
//! channel depends on what the other end has done by then, so nothing is
//! claimed of a receive; the callers are verified for every result.
use std::task::Context;
use tokio::sync::mpsc::{UnboundedReceiver, UnboundedSender};
use vstd::prelude::*;

verus! {

/// `tokio::sync::mpsc::UnboundedSender`, opaque.
#[verifier::external_type_specification]
#[verifier::external_body]
#[verifier::reject_recursive_types(T)]
pub struct ExUnboundedSender<T>(tokio::sync::mpsc::UnboundedSender<T>);

/// `tokio::sync::mpsc::UnboundedReceiver`, opaque.
#[verifier::external_type_specification]
#[verifier::external_body]
#[verifier::reject_recursive_types(T)]
pub struct ExUnboundedReceiver<T>(tokio::sync::mpsc::UnboundedReceiver<T>);

/// `std::task::Context`, opaque: it is only handed on to a poll.
#[verifier::external_type_specification]
#[verifier::external_body]
pub struct ExContext<'a>(std::task::Context<'a>);

/// What one attempt to receive without blocking came back with.
#[derive(Debug, PartialEq, Eq)]
pub enum Delivery<T> {
    /// The oldest item that was waiting.
    Item(T),
    /// Nothing was handed over this time, and something may still be: either
    /// nothing is waiting, or the channel turned the attempt away without
    /// looking, as tokio does with a poll of a task that has used up its
    /// cooperative budget.
    Empty,
    /// Nothing is waiting and nothing more can come.
    Closed,
}

impl<T: View> View for Delivery<T> {
    type V = Delivery<T::V>;

    open spec fn view(&self) -> Delivery<T::V> {
        match *self {
            Delivery::Item(item) => Delivery::Item(item@),
            Delivery::Empty => Delivery::Empty,
            Delivery::Closed => Delivery::Closed,
        }
    }
}

/// `tokio::sync::mpsc::unbounded_channel`: a fresh pair of ends. Nothing is
/// claimed of them.
pub assume_specification<T>[ tokio::sync::mpsc::unbounded_channel::<T> ]() -> (ends: (
    UnboundedSender<T>,
    UnboundedReceiver<T>,
));

/// `UnboundedReceiver::close`: it returns, and nothing more is claimed.
pub assume_specification<T>[ UnboundedReceiver::<T>::close ](rx: &mut UnboundedReceiver<T>);

/// `UnboundedSender::send`. Whether the item is accepted depends on whether
/// the receiving end is still open; when it is refused, the error hands the
/// very item back, and that is all the contract says.
#[verifier::external_body]
pub(crate) fn send<T>(tx: &UnboundedSender<T>, item: T) -> (outcome: Result<(), T>)
    ensures
        outcome matches Err(back) ==> back == item,
{
    match tx.send(item) {
        Ok(()) => Ok(()),
        Err(tokio::sync::mpsc::error::SendError(back)) => Err(back),
    }
}

/// `UnboundedReceiver::poll_recv`. A pending poll is reported as `Empty`, a
/// closed and drained channel as `Closed`. A poll is pending when no item is
/// waiting, and also, by tokio's own account, on a spurious failure: inside
/// a runtime a task that has used up its cooperative budget is turned away
/// though an item may wait. Either way the waker of `cx` is left to be woken.
/// Nothing is claimed of which result comes back, and no contract in this
/// library rests on `Empty` meaning that the channel holds nothing.
#[verifier::external_body]
pub(crate) fn poll_receive<T>(rx: &mut UnboundedReceiver<T>, cx: &mut Context<'_>) -> Delivery<T> {
    match rx.poll_recv(cx) {
        std::task::Poll::Ready(Some(item)) => Delivery::Item(item),
        std::task::Poll::Ready(None) => Delivery::Closed,
        std::task::Poll::Pending => Delivery::Empty,
    }
}

/// `UnboundedReceiver::try_recv`, with its two errors told apart. Nothing is
/// claimed of which result comes back.
#[verifier::external_body]
pub(crate) fn try_receive<T>(rx: &mut UnboundedReceiver<T>) -> Delivery<T> {
    match rx.try_recv() {
        Ok(item) => Delivery::Item(item),
        Err(tokio::sync::mpsc::error::TryRecvError::Empty) => Delivery::Empty,
        Err(tokio::sync::mpsc::error::TryRecvError::Disconnected) => Delivery::Closed,
    }
}

} // verus!
