//! The controller's end: it queues scripted actions and reads back events.
use crate::channel::{poll_receive, send, try_receive, Delivery};
use crate::operation::Progress;
use crate::script::{Action, ActionView, Direction, Event, PayloadView};
use std::io::ErrorKind;
use std::task::Context;
use tokio::sync::mpsc::{UnboundedReceiver, UnboundedSender};
use vstd::prelude::*;

verus! {

/// The test's end of a mock: the sending end of the action channel and the
/// receiving end of the event channel.
pub struct Handle {
    tx: UnboundedSender<Action>,
    rx: UnboundedReceiver<Event>,
    scripted: Ghost<Seq<ActionView>>,
    observed: Ghost<Seq<Event>>,
}

/// What the handle makes of one attempt to receive an event without
/// blocking: the event if one was waiting.
pub open spec fn event_taken(delivery: Delivery<Event>) -> Option<Event> {
    match delivery {
        Delivery::Item(event) => Some(event),
        _ => None,
    }
}

/// What the handle makes of one poll for an event: the event if one was
/// waiting, `None` if the engine is gone and none can come, and a reason to
/// wait otherwise.
pub open spec fn event_polled(delivery: Delivery<Event>) -> Progress<Option<Event>> {
    match delivery {
        Delivery::Item(event) => Progress::Ready(Some(event)),
        Delivery::Closed => Progress::Ready(None),
        Delivery::Empty => Progress::Pending,
    }
}

/// The event an attempt to receive yielded, if any.
pub fn take_event(delivery: Delivery<Event>) -> (taken: Option<Event>)
    ensures
        taken == event_taken(delivery),
{
    match delivery {
        Delivery::Item(event) => Some(event),
        Delivery::Empty => None,
        Delivery::Closed => None,
    }
}

/// The progress a poll for an event made.
pub fn poll_event(delivery: Delivery<Event>) -> (polled: Progress<Option<Event>>)
    ensures
        polled == event_polled(delivery),
{
    match delivery {
        Delivery::Item(event) => Progress::Ready(Some(event)),
        Delivery::Closed => Progress::Ready(None),
        Delivery::Empty => Progress::Pending,
    }
}

impl Handle {
    /// The actions this handle has queued, oldest first.
    pub closed spec fn scripted(&self) -> Seq<ActionView> {
        self.scripted@
    }

    /// The events this handle has received, oldest first.
    pub closed spec fn observed(&self) -> Seq<Event> {
        self.observed@
    }

    /// The handle has received `taken`, if that is an event, and is otherwise
    /// as it was before.
    pub open spec fn observed_after(&self, before: Handle, taken: Option<Event>) -> bool {
        &&& self.scripted() == before.scripted()
        &&& self.observed() == match taken {
            Some(event) => before.observed().push(event),
            None => before.observed(),
        }
    }

    /// A handle on the two given channel ends that has queued and received
    /// nothing.
    pub(crate) fn new(tx: UnboundedSender<Action>, rx: UnboundedReceiver<Event>) -> (handle: Handle)
        ensures
            handle.scripted() == Seq::<ActionView>::empty(),
            handle.observed() == Seq::<Event>::empty(),
    {
        Handle { tx, rx, scripted: Ghost(Seq::empty()), observed: Ghost(Seq::empty()) }
    }

    /// Appends `action` to the script. This fails only when the engine is
    /// gone; the action then comes back and the script is as it was.
    pub fn enqueue(&mut self, action: Action) -> (queued: Result<(), Action>)
        ensures
            final(self).observed() == old(self).observed(),
            match queued {
                Ok(()) => final(self).scripted() == old(self).scripted().push(action@),
                Err(back) => back == action && final(self).scripted() == old(self).scripted(),
            },
    {
        let ghost entry = action@;
        match send(&self.tx, action) {
            Ok(()) => {
                self.scripted = Ghost(self.scripted@.push(entry));
                Ok(())
            },
            Err(back) => Err(back),
        }
    }

    /// Queues a read that yields `data`.
    pub fn read(&mut self, data: &[u8]) -> (queued: Result<(), Action>)
        ensures
            final(self).observed() == old(self).observed(),
            match queued {
                Ok(()) => final(self).scripted() == old(self).scripted().push(
                    ActionView { direction: Direction::Read, payload: PayloadView::Data(data@) },
                ),
                Err(back) => {
                    &&& back@ == (ActionView {
                        direction: Direction::Read,
                        payload: PayloadView::Data(data@),
                    })
                    &&& final(self).scripted() == old(self).scripted()
                },
            },
    {
        self.enqueue(Action::read(data))
    }

    /// Queues a write that must consist of exactly `data`.
    pub fn write(&mut self, data: &[u8]) -> (queued: Result<(), Action>)
        ensures
            final(self).observed() == old(self).observed(),
            match queued {
                Ok(()) => final(self).scripted() == old(self).scripted().push(
                    ActionView { direction: Direction::Write, payload: PayloadView::Data(data@) },
                ),
                Err(back) => {
                    &&& back@ == (ActionView {
                        direction: Direction::Write,
                        payload: PayloadView::Data(data@),
                    })
                    &&& final(self).scripted() == old(self).scripted()
                },
            },
    {
        self.enqueue(Action::write(data))
    }

    /// Queues a read that fails with `kind`.
    pub fn read_error(&mut self, kind: ErrorKind) -> (queued: Result<(), Action>)
        ensures
            final(self).observed() == old(self).observed(),
            match queued {
                Ok(()) => final(self).scripted() == old(self).scripted().push(
                    ActionView { direction: Direction::Read, payload: PayloadView::Error(kind) },
                ),
                Err(back) => {
                    &&& back@ == (ActionView {
                        direction: Direction::Read,
                        payload: PayloadView::Error(kind),
                    })
                    &&& final(self).scripted() == old(self).scripted()
                },
            },
    {
        self.enqueue(Action::read_error(kind))
    }

    /// Queues a write that fails with `kind`.
    pub fn write_error(&mut self, kind: ErrorKind) -> (queued: Result<(), Action>)
        ensures
            final(self).observed() == old(self).observed(),
            match queued {
                Ok(()) => final(self).scripted() == old(self).scripted().push(
                    ActionView { direction: Direction::Write, payload: PayloadView::Error(kind) },
                ),
                Err(back) => {
                    &&& back@ == (ActionView {
                        direction: Direction::Write,
                        payload: PayloadView::Error(kind),
                    })
                    &&& final(self).scripted() == old(self).scripted()
                },
            },
    {
        self.enqueue(Action::write_error(kind))
    }

    /// Takes the next event if one is waiting, without blocking. Whether one
    /// is waiting depends on what the engine has done by now; whatever is
    /// returned has been added to the events received.
    pub fn pop_event(&mut self) -> (taken: Option<Event>)
        ensures
            final(self).observed_after(*old(self), taken),
    {
        let taken = take_event(try_receive(&mut self.rx));
        self.note(taken);
        taken
    }

    /// Polls for the next event under `cx`. While none is waiting and the
    /// engine lives, this is pending and the task of `cx` is woken when one
    /// arrives; `Ready(None)` says that the engine is gone and no event is
    /// left.
    pub fn poll_next_event(&mut self, cx: &mut Context<'_>) -> (polled: Progress<Option<Event>>)
        ensures
            final(self).observed_after(
                *old(self),
                match polled {
                    Progress::Ready(taken) => taken,
                    Progress::Pending => None,
                },
            ),
    {
        let polled = poll_event(poll_receive(&mut self.rx, cx));
        if let Progress::Ready(taken) = polled {
            self.note(taken);
        }
        polled
    }

    /// Records an event as received.
    fn note(&mut self, taken: Option<Event>)
        ensures
            final(self).observed_after(*old(self), taken),
    {
        if let Some(event) = taken {
            self.observed = Ghost(self.observed@.push(event));
        }
    }
}

} // verus!
