//! The engine: the end of a mock that the code under test reads from and
//! writes to.
use crate::channel::{poll_receive, send, try_receive, Delivery};
use crate::fault::{seen, Fault, FaultView, Violation, ViolationView};
use crate::handle::Handle;
use crate::matcher::{
    decide, held_after, reply_of, verdict, Matching, MatchingView, Verdict, VerdictView,
};
use crate::operation::{finish_read, finish_write, read_effect, read_report, write_report, Progress};
use crate::order::Feed;
use crate::script::{Action, ActionView, Direction, Event};
use std::task::Context;
use tokio::io::ReadBuf;
use tokio::sync::mpsc::{UnboundedReceiver, UnboundedSender};
use vstd::prelude::*;

verus! {

/// What an engine has done so far: the actions it consumed and the events it
/// sent, each oldest first.
pub struct Journal {
    pub consumed: Seq<ActionView>,
    pub emitted: Seq<Event>,
}

impl Journal {
    /// The journal of an engine that has done nothing.
    pub open spec fn blank() -> Journal {
        Journal { consumed: Seq::empty(), emitted: Seq::empty() }
    }

    /// The journal once `action` has been consumed and `event` sent for it.
    pub open spec fn noting(self, action: ActionView, event: Event) -> Journal {
        Journal { consumed: self.consumed.push(action), emitted: self.emitted.push(event) }
    }

    /// One event per consumed action, in the order of consumption, each the
    /// event of its action.
    pub open spec fn paired(self) -> bool {
        self.emitted == self.consumed.map_values(|action: ActionView| action.event())
    }
}

/// Keeps an engine's journal, and keeps it paired.
struct Ledger {
    journal: Ghost<Journal>,
}

impl Ledger {
    #[verifier::type_invariant]
    spec fn paired(self) -> bool {
        self.journal@.paired()
    }

    /// A ledger with nothing in it.
    fn blank() -> (ledger: Ledger)
        ensures
            ledger.journal@ == Journal::blank(),
    {
        assert(Journal::blank().emitted =~= Journal::blank().consumed.map_values(
            |action: ActionView| action.event(),
        ));
        Ledger { journal: Ghost(Journal::blank()) }
    }

    /// Enters the consumption of `action`, whose event was sent.
    fn note(&mut self, action: Ghost<ActionView>)
        ensures
            final(self).journal@ == old(self).journal@.noting(action@, action@.event()),
    {
        proof {
            use_type_invariant(&*self);
            let after = self.journal@.noting(action@, action@.event());
            assert(after.emitted =~= after.consumed.map_values(
                |action: ActionView| action.event(),
            ));
        }
        *self = Ledger { journal: Ghost(self.journal@.noting(action@, action@.event())) };
    }
}

/// Stands in for a socket: reads and writes on it are met from the script
/// that the paired [`Handle`] queues.
pub struct Mock {
    slot: Option<Action>,
    rx: UnboundedReceiver<Action>,
    tx: UnboundedSender<Event>,
    ledger: Ledger,
}

/// What is left unconsumed when the first thing an engine finds at its end is
/// `first`: an action found is an action unused.
pub open spec fn leftover(first: Delivery<ActionView>) -> Result<(), ViolationView> {
    match first {
        Delivery::Item(action) => Err(ViolationView::UnusedAction(action)),
        _ => Ok(()),
    }
}

/// Judges what an engine found at its end.
pub fn audit(first: Delivery<Action>) -> (clean: Result<(), Violation>)
    ensures
        seen(clean) == leftover(first@),
{
    match first {
        Delivery::Item(action) => Err(Violation::UnusedAction(action)),
        Delivery::Empty => Ok(()),
        Delivery::Closed => Ok(()),
    }
}

impl Mock {
    /// The action in the lookahead slot, if any.
    pub closed spec fn pending(&self) -> Option<ActionView> {
        match self.slot {
            Some(action) => Some(action@),
            None => None,
        }
    }

    /// The actions consumed so far, oldest first.
    pub closed spec fn consumed(&self) -> Seq<ActionView> {
        self.ledger.journal@.consumed
    }

    /// The events sent so far, oldest first.
    pub closed spec fn emitted(&self) -> Seq<Event> {
        self.ledger.journal@.emitted
    }

    /// The journal of `self` is that of `before`.
    pub open spec fn journal_of(&self, before: Mock) -> bool {
        &&& self.consumed() == before.consumed()
        &&& self.emitted() == before.emitted()
    }

    /// The journal of `self` is that of `before` with `action` consumed and
    /// its event sent.
    pub open spec fn journal_with(&self, before: Mock, action: ActionView) -> bool {
        &&& self.consumed() == before.consumed().push(action)
        &&& self.emitted() == before.emitted().push(action.event())
    }

    /// What a request can obtain from this engine: the held action when the
    /// slot is occupied, and whatever the channel delivers when it is not.
    pub open spec fn can_obtain(&self, obtained: Delivery<ActionView>) -> bool {
        self.pending() matches Some(action) ==> obtained == Delivery::Item(action)
    }

    /// The engine's supply of actions in the abstract, were its channel to
    /// hold `queued` and to be closed or not as `closed` says.
    pub open spec fn feed(&self, queued: Seq<ActionView>, closed: bool) -> Feed {
        Feed { held: self.pending(), queued, closed }
    }

    /// The engine `self` and the reply once a match of `action` was
    /// concluded on the engine `before`, whose slot was empty, `sent` saying
    /// whether the action's event found its receiver.
    ///
    /// If it did, the action is consumed: it and its event are in the
    /// journal and its payload is the reply. If it did not, the action is
    /// not consumed: it is in the slot, the journal is as it was, and the
    /// reply is a violation.
    pub open spec fn concluded(
        &self,
        before: Mock,
        action: ActionView,
        sent: bool,
        reply: Result<MatchingView, ViolationView>,
    ) -> bool {
        if sent {
            &&& reply == Ok::<MatchingView, ViolationView>(MatchingView::Matched(action.payload))
            &&& self.pending() is None
            &&& self.journal_with(before, action)
        } else {
            &&& reply == Err::<MatchingView, ViolationView>(ViolationView::ObserverGone)
            &&& self.pending() == Some(action)
            &&& self.journal_of(before)
        }
    }

    /// The engine `self` and the reply to a request of direction `requested`
    /// that found the engine as `before` and obtained `obtained`, `sent`
    /// saying whether the event of a matched action found its receiver.
    ///
    /// A matched action is concluded as [`Mock::concluded`] says. An action
    /// of the other direction goes to the slot. In every case but a match
    /// the journal stays as it was and `sent` has no part.
    pub open spec fn settled(
        &self,
        before: Mock,
        obtained: Delivery<ActionView>,
        sent: bool,
        requested: Direction,
        reply: Result<MatchingView, ViolationView>,
    ) -> bool {
        let ruling = verdict(obtained, requested);
        match ruling {
            VerdictView::Matched(action) => self.concluded(before, action, sent, reply),
            _ => {
                &&& reply == reply_of(ruling)
                &&& self.pending() == held_after(ruling)
                &&& self.journal_of(before)
            },
        }
    }

    /// In every state of an engine its events pair off with the actions it
    /// consumed: one event per action, in the order of consumption.
    pub fn events_follow_actions(&self)
        ensures
            self.emitted() == self.consumed().map_values(|action: ActionView| action.event()),
    {
        proof {
            use_type_invariant(&self.ledger);
        }
    }

    /// Concludes a match, on an engine whose slot is empty: `action` is of
    /// the requested direction and `sent` is what became of sending its
    /// event.
    ///
    /// When the event was sent the action is consumed: it and its event are
    /// entered in the journal and its payload is the reply. When the event
    /// came back for want of a receiver the action is not consumed: it goes
    /// to the slot, the journal stays as it was, and the reply is a
    /// violation.
    pub fn conclude(&mut self, action: Action, sent: Result<(), Event>) -> (reply: Result<
        Matching,
        Violation,
    >)
        requires
            old(self).pending() is None,
        ensures
            final(self).concluded(*old(self), action@, sent is Ok, seen(reply)),
    {
        match sent {
            Ok(()) => {
                self.ledger.note(Ghost(action@));
                Ok(Matching::Matched(action.payload))
            },
            Err(_) => {
                self.slot = Some(action);
                Err(Violation::ObserverGone)
            },
        }
    }

    /// Settles what a request obtained, on an engine whose slot is empty. The
    /// event of a matched action is sent here, before anything is made of
    /// the match.
    fn settle(&mut self, obtained: Delivery<Action>, requested: Direction) -> (reply: Result<
        Matching,
        Violation,
    >)
        requires
            old(self).pending() is None,
        ensures
            exists|sent: bool| #[trigger]
                final(self).settled(*old(self), obtained@, sent, requested, seen(reply)),
    {
        let ghost seen_obtained = obtained@;
        let ghost mut fate = true;
        let reply = match decide(obtained, requested) {
            Verdict::Matched(action) => {
                let sent = send(&self.tx, Event::of(&action));
                proof {
                    fate = sent is Ok;
                }
                self.conclude(action, sent)
            },
            Verdict::Deferred(action) => {
                self.slot = Some(action);
                Ok(Matching::NotYet)
            },
            Verdict::Idle => Ok(Matching::NotYet),
            Verdict::Ended => Err(Violation::ScriptExhausted),
        };
        assert(self.settled(*old(self), seen_obtained, fate, requested, seen(reply)));
        reply
    }

    /// Asks for the next action of direction `requested`.
    ///
    /// The action is obtained from the lookahead slot if that is occupied and
    /// else from the channel, polled under `cx`; the event of a matched
    /// action is then sent. Neither what the channel delivers nor whether the
    /// event finds its receiver is known beforehand, so the contract holds
    /// for some delivery and some fate of the event; [`decide`] and
    /// [`Mock::conclude`] say what follows from each.
    pub fn pop(&mut self, cx: &mut Context<'_>, requested: Direction) -> (reply: Result<
        Matching,
        Violation,
    >)
        ensures
            exists|obtained: Delivery<ActionView>, sent: bool|
                old(self).can_obtain(obtained) && #[trigger] final(self).settled(
                    *old(self),
                    obtained,
                    sent,
                    requested,
                    seen(reply),
                ),
    {
        let held = self.slot.take();
        let obtained = match held {
            Some(action) => Delivery::Item(action),
            None => poll_receive(&mut self.rx, cx),
        };
        let ghost seen_obtained = obtained@;
        let ghost emptied = *self;
        let reply = self.settle(obtained, requested);
        proof {
            let sent = choose|sent: bool| #[trigger]
                self.settled(emptied, seen_obtained, sent, requested, seen(reply));
            assert(self.settled(*old(self), seen_obtained, sent, requested, seen(reply)));
        }
        reply
    }

    /// Attempts one read into `buf`.
    ///
    /// The read waits while no scripted read is at hand; a scripted write met
    /// on the way is kept for the writer. Matched data is copied whole into
    /// `buf`, or not at all when it does not fit, which is a violation; a
    /// scripted error is returned and leaves `buf` alone.
    pub fn poll_read(&mut self, cx: &mut Context<'_>, buf: &mut ReadBuf<'_>) -> (report: Progress<
        Result<(), Fault>,
    >)
        ensures
            exists|
                obtained: Delivery<ActionView>,
                sent: bool,
                reply: Result<MatchingView, ViolationView>,
            |
                {
                    &&& old(self).can_obtain(obtained)
                    &&& #[trigger] final(self).settled(
                        *old(self),
                        obtained,
                        sent,
                        Direction::Read,
                        reply,
                    )
                    &&& report@ == read_report(reply, *old(buf))
                    &&& match reply {
                        Ok(MatchingView::Matched(payload)) => read_effect(
                            payload,
                            *old(buf),
                            *final(buf),
                        ),
                        _ => *final(buf) == *old(buf),
                    }
                },
    {
        let reply = self.pop(cx, Direction::Read);
        let ghost seen_reply = seen(reply);
        let ghost (obtained, sent) = choose|obtained: Delivery<ActionView>, sent: bool|
            old(self).can_obtain(obtained) && #[trigger] self.settled(
                *old(self),
                obtained,
                sent,
                Direction::Read,
                seen_reply,
            );
        let report = finish_read(reply, buf);
        assert(self.settled(*old(self), obtained, sent, Direction::Read, seen_reply));
        report
    }

    /// Attempts one write of `written`.
    ///
    /// A write never waits: when no scripted write is at hand the write was
    /// not scripted, which is a violation. That includes a poll that the
    /// channel turned away without looking, so a writer that shares a task's
    /// cooperative budget with much other work can be refused while its
    /// action waits. Matched data must be `written` byte for byte; a scripted
    /// error is returned instead of a count.
    pub fn poll_write(&mut self, cx: &mut Context<'_>, written: &[u8]) -> (report: Progress<
        Result<usize, Fault>,
    >)
        ensures
            report is Ready,
            exists|
                obtained: Delivery<ActionView>,
                sent: bool,
                reply: Result<MatchingView, ViolationView>,
            |
                {
                    &&& old(self).can_obtain(obtained)
                    &&& #[trigger] final(self).settled(
                        *old(self),
                        obtained,
                        sent,
                        Direction::Write,
                        reply,
                    )
                    &&& report@ == write_report(reply, written@)
                },
    {
        let reply = self.pop(cx, Direction::Write);
        let ghost seen_reply = seen(reply);
        let ghost (obtained, sent) = choose|obtained: Delivery<ActionView>, sent: bool|
            old(self).can_obtain(obtained) && #[trigger] self.settled(
                *old(self),
                obtained,
                sent,
                Direction::Write,
                seen_reply,
            );
        let report = finish_write(reply, written);
        assert(self.settled(*old(self), obtained, sent, Direction::Write, seen_reply));
        report
    }

    /// Flushes, which is nothing to do: the engine buffers nothing.
    pub fn poll_flush(&mut self, _cx: &mut Context<'_>) -> (report: Progress<Result<(), Fault>>)
        ensures
            report@ == Progress::Ready(Ok::<(), FaultView>(())),
            *final(self) == *old(self),
    {
        Progress::Ready(Ok(()))
    }

    /// Shuts down, which is nothing to do: the engine holds no resource.
    pub fn poll_shutdown(&mut self, _cx: &mut Context<'_>) -> (report: Progress<Result<(), Fault>>)
        ensures
            report@ == Progress::Ready(Ok::<(), FaultView>(())),
            *final(self) == *old(self),
    {
        Progress::Ready(Ok(()))
    }

    /// Ends the engine's work: closes the action channel to the controller
    /// and reports the oldest action that was never consumed, the held one
    /// before any on the channel. That action is taken; the journal stays as
    /// it was.
    pub fn finish(&mut self) -> (clean: Result<(), Violation>)
        ensures
            final(self).pending() is None,
            final(self).journal_of(*old(self)),
            exists|first: Delivery<ActionView>|
                old(self).can_obtain(first) && seen(clean) == #[trigger] leftover(first),
    {
        self.rx.close();
        let first = match self.slot.take() {
            Some(action) => Delivery::Item(action),
            None => try_receive(&mut self.rx),
        };
        let ghost seen_first = first@;
        let clean = audit(first);
        assert(seen(clean) == leftover(seen_first));
        clean
    }
}

/// An engine meets a request as its abstract feed does, so what holds of
/// feeds holds of engines: whenever the channel delivered what the feed says
/// it holds and the event, if any, found its receiver, then the reply is the
/// feed's answer, the slot and the channel are left as the feed's step
/// leaves them, and the journal has grown by what the feed says was
/// consumed.
pub proof fn law_engine_follows_feed(
    before: Mock,
    after: Mock,
    queued: Seq<ActionView>,
    closed: bool,
    requested: Direction,
    reply: Result<MatchingView, ViolationView>,
)
    requires
        after.settled(before, before.feed(queued, closed).obtained(), true, requested, reply),
    ensures
        before.can_obtain(before.feed(queued, closed).obtained()),
        reply == reply_of(before.feed(queued, closed).answer(requested)),
        after.feed(before.feed(queued, closed).left_on_channel(), closed) == before.feed(
            queued,
            closed,
        ).step(requested),
        after.consumed() == before.consumed() + before.feed(queued, closed).matched(
            seq![requested],
        ),
        after.emitted() == before.emitted() + before.feed(queued, closed).matched(
            seq![requested],
        ).map_values(|action: ActionView| action.event()),
{
    let feed = before.feed(queued, closed);
    let requests = seq![requested];
    let one = match feed.answer(requested) {
        VerdictView::Matched(action) => seq![action],
        _ => Seq::empty(),
    };
    assert(requests.drop_first() =~= Seq::empty());
    assert(feed.step(requested).matched(requests.drop_first()) =~= Seq::empty());
    assert(feed.matched(requests) =~= one);
    assert(after.consumed() =~= before.consumed() + one);
    assert(after.emitted() =~= before.emitted() + one.map_values(
        |action: ActionView| action.event(),
    ));
}

/// Creates an engine and the handle that scripts it. Nothing is held,
/// consumed, sent, queued or received yet.
pub fn mock() -> (pair: (Mock, Handle))
    ensures
        pair.0.pending() is None,
        pair.0.consumed() == Seq::<ActionView>::empty(),
        pair.0.emitted() == Seq::<Event>::empty(),
        pair.1.scripted() == Seq::<ActionView>::empty(),
        pair.1.observed() == Seq::<Event>::empty(),
{
    let (action_tx, action_rx) = tokio::sync::mpsc::unbounded_channel::<Action>();
    let (event_tx, event_rx) = tokio::sync::mpsc::unbounded_channel::<Event>();
    let engine = Mock { slot: None, rx: action_rx, tx: event_tx, ledger: Ledger::blank() };
    (engine, Handle::new(action_tx, event_rx))
}

} // verus!
