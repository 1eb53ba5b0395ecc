//! The order in which a script is consumed.
//!
//! [`Feed`] is the engine's supply of actions in the abstract; a run of
//! requests over it follows the matching rule step by step. What is proved
//! of feeds here holds of engines, whose contract is stated over the same
//! rule.
use crate::channel::Delivery;
use crate::fault::{FaultView, ViolationView};
use crate::matcher::{held_after, reply_of, verdict, VerdictView};
use crate::operation::{read_report, read_result, write_report, write_result, Progress};
use crate::script::{ActionView, Direction};
use tokio::io::ReadBuf;
use vstd::prelude::*;

verus! {

/// The engine's supply of actions in the abstract: the lookahead slot, the
/// actions waiting on the channel, oldest first, and whether the controller
/// has closed its end.
pub struct Feed {
    pub held: Option<ActionView>,
    pub queued: Seq<ActionView>,
    pub closed: bool,
}

impl Feed {
    /// Every action not yet consumed, in the order the controller queued them.
    pub open spec fn line(self) -> Seq<ActionView> {
        match self.held {
            Some(action) => seq![action] + self.queued,
            None => self.queued,
        }
    }

    /// The feed once the controller has queued `action`.
    pub open spec fn queue(self, action: ActionView) -> Feed {
        Feed { held: self.held, queued: self.queued.push(action), closed: self.closed }
    }

    /// What a request obtains: the held action if there is one, else the
    /// oldest action on the channel, else word that the channel is empty or
    /// closed.
    pub open spec fn obtained(self) -> Delivery<ActionView> {
        match self.held {
            Some(action) => Delivery::Item(action),
            None => if self.queued.len() > 0 {
                Delivery::Item(self.queued[0])
            } else if self.closed {
                Delivery::Closed
            } else {
                Delivery::Empty
            },
        }
    }

    /// What stays on the channel once a request has obtained its action.
    pub open spec fn left_on_channel(self) -> Seq<ActionView> {
        if self.held is None && self.queued.len() > 0 {
            self.queued.drop_first()
        } else {
            self.queued
        }
    }

    /// The matcher's answer to a request of direction `requested`.
    pub open spec fn answer(self, requested: Direction) -> VerdictView {
        verdict(self.obtained(), requested)
    }

    /// The feed after a request of direction `requested`.
    pub open spec fn step(self, requested: Direction) -> Feed {
        Feed {
            held: held_after(self.answer(requested)),
            queued: self.left_on_channel(),
            closed: self.closed,
        }
    }

    /// The actions that a run of requests consumes, in the order of their
    /// consumption.
    pub open spec fn matched(self, requests: Seq<Direction>) -> Seq<ActionView>
        decreases requests.len(),
    {
        if requests.len() == 0 {
            Seq::empty()
        } else {
            let rest = self.step(requests[0]).matched(requests.drop_first());
            match self.answer(requests[0]) {
                VerdictView::Matched(action) => seq![action] + rest,
                _ => rest,
            }
        }
    }

    /// The feed after a run of requests.
    pub open spec fn after(self, requests: Seq<Direction>) -> Feed
        decreases requests.len(),
    {
        if requests.len() == 0 {
            self
        } else {
            self.step(requests[0]).after(requests.drop_first())
        }
    }
}

/// One request consumes the head of the line or nothing, and leaves the rest
/// of the line as it was.
proof fn lemma_step_takes_head(feed: Feed, requested: Direction)
    ensures
        match feed.answer(requested) {
            VerdictView::Matched(action) => feed.line() == seq![action] + feed.step(
                requested,
            ).line(),
            _ => feed.line() == feed.step(requested).line(),
        },
{
    let next = feed.step(requested);
    match feed.answer(requested) {
        VerdictView::Matched(action) => {
            assert(feed.line() =~= seq![action] + next.line());
        },
        VerdictView::Deferred(action) => {
            assert(feed.line() =~= next.line());
        },
        _ => {},
    }
}

/// Actions are consumed in the order in which they were queued: whatever the
/// requests, the actions consumed, followed by those still unconsumed, are
/// the line as it stood before.
pub proof fn law_matching_keeps_order(feed: Feed, requests: Seq<Direction>)
    ensures
        feed.matched(requests) + feed.after(requests).line() == feed.line(),
    decreases requests.len(),
{
    if requests.len() == 0 {
        assert(feed.matched(requests) + feed.after(requests).line() =~= feed.line());
    } else {
        let next = feed.step(requests[0]);
        let later = requests.drop_first();
        lemma_step_takes_head(feed, requests[0]);
        law_matching_keeps_order(next, later);
        match feed.answer(requests[0]) {
            VerdictView::Matched(action) => {
                assert(feed.matched(requests) + feed.after(requests).line() =~= seq![action] + (
                next.matched(later) + next.after(later).line()));
            },
            _ => {},
        }
    }
}

/// First in, first out within one direction: when every unconsumed action is
/// of direction `direction`, `count` requests of that direction consume the
/// first `count` actions of the line, in the order of the line.
pub proof fn law_same_direction_is_fifo(feed: Feed, direction: Direction, count: nat)
    requires
        forall|i: int| 0 <= i < feed.line().len() ==> (#[trigger] feed.line()[i]).direction == direction,
        count <= feed.line().len(),
    ensures
        feed.matched(Seq::new(count, |i: int| direction)) == feed.line().take(count as int),
        feed.after(Seq::new(count, |i: int| direction)).line() == feed.line().skip(count as int),
    decreases count,
{
    let requests = Seq::new(count, |i: int| direction);
    if count == 0 {
        assert(feed.matched(requests) =~= feed.line().take(0));
        assert(feed.after(requests).line() =~= feed.line().skip(0));
    } else {
        let head = feed.line()[0];
        assert(head.direction == direction);
        assert(feed.obtained() == Delivery::Item(head));
        assert(feed.answer(direction) == VerdictView::Matched(head));
        let next = feed.step(direction);
        lemma_step_takes_head(feed, direction);
        assert(next.line() =~= feed.line().skip(1));
        let later = Seq::new((count - 1) as nat, |i: int| direction);
        assert(requests.drop_first() =~= later);
        assert forall|i: int| 0 <= i < next.line().len() implies (#[trigger] next.line()[i]).direction
            == direction by {
            assert(next.line()[i] == feed.line()[i + 1]);
        }
        law_same_direction_is_fifo(next, direction, (count - 1) as nat);
        assert(feed.matched(requests) =~= feed.line().take(count as int));
        assert(feed.after(requests).line() =~= feed.line().skip(count as int));
    }
}

/// An action of the other direction is a barrier, not a loss. A request that
/// obtains it is deferred without any error; the action then sits in the
/// slot, where a repeated request of the first direction is deferred again
/// and changes nothing, and where the next request of the action's own
/// direction consumes exactly that action.
pub proof fn law_deferred_action_waits_for_its_direction(feed: Feed, requested: Direction)
    requires
        feed.answer(requested) is Deferred,
    ensures
        ({
            let action = feed.answer(requested)->Deferred_0;
            let waiting = feed.step(requested);
            &&& action.direction != requested
            &&& waiting.held == Some(action)
            &&& waiting.line() == feed.line()
            &&& waiting.answer(requested) == VerdictView::Deferred(action)
            &&& waiting.step(requested) == waiting
            &&& waiting.answer(action.direction) == VerdictView::Matched(action)
        }),
{
    lemma_step_takes_head(feed, requested);
}

/// A read that finds only a scripted write, be it data or an error, waits
/// and does not fail: the read is pending and the write is kept in the slot.
/// Once a scripted read has been queued behind it and a write has consumed
/// the scripted write, the read is met with that scripted read.
pub proof fn law_read_waits_behind_write(write: ActionView, read: ActionView, buf: ReadBuf<'_>)
    requires
        write.direction == Direction::Write,
        read.direction == Direction::Read,
    ensures
        ({
            let alone = Feed { held: None, queued: seq![write], closed: false };
            let waiting = alone.step(Direction::Read);
            let arrived = waiting.queue(read);
            &&& read_report(reply_of(alone.answer(Direction::Read)), buf) == Progress::<
                Result<(), FaultView>,
            >::Pending
            &&& waiting.held == Some(write)
            &&& waiting.line() == alone.line()
            &&& arrived.matched(seq![Direction::Write, Direction::Read]) == seq![write, read]
            &&& read_report(reply_of(arrived.step(Direction::Write).answer(Direction::Read)), buf)
                == Progress::Ready(read_result(read.payload, buf))
        }),
{
    let alone = Feed { held: None, queued: seq![write], closed: false };
    let waiting = alone.step(Direction::Read);
    let arrived = waiting.queue(read);
    lemma_step_takes_head(alone, Direction::Read);
    assert(arrived.queued =~= seq![read]);
    lemma_two_requests(arrived, Direction::Write, Direction::Read);
}

/// A write that finds only a scripted read does not consume it: the write is
/// refused as unscripted and the read is kept in the slot. The read is still
/// there for the next reader, ahead of a scripted write queued after it, and
/// that write is met once the read has been consumed.
pub proof fn law_stashed_read_survives_write(
    read: ActionView,
    write: ActionView,
    written: Seq<u8>,
)
    requires
        read.direction == Direction::Read,
        write.direction == Direction::Write,
    ensures
        ({
            let alone = Feed { held: None, queued: seq![read], closed: false };
            let stashed = alone.step(Direction::Write);
            let arrived = stashed.queue(write);
            &&& write_report(reply_of(alone.answer(Direction::Write)), written)
                == Progress::Ready(
                Err::<usize, FaultView>(
                    FaultView::ProtocolViolation(ViolationView::UnscriptedWrite),
                ),
            )
            &&& stashed.held == Some(read)
            &&& stashed.line() == alone.line()
            &&& arrived.answer(Direction::Read) == VerdictView::Matched(read)
            &&& arrived.matched(seq![Direction::Read, Direction::Write]) == seq![read, write]
            &&& write_report(
                reply_of(arrived.step(Direction::Read).answer(Direction::Write)),
                written,
            ) == Progress::Ready(write_result(write.payload, written))
        }),
{
    let alone = Feed { held: None, queued: seq![read], closed: false };
    let stashed = alone.step(Direction::Write);
    let arrived = stashed.queue(write);
    lemma_step_takes_head(alone, Direction::Write);
    assert(arrived.queued =~= seq![write]);
    lemma_two_requests(arrived, Direction::Read, Direction::Write);
}

/// Unfolds a run of two requests.
proof fn lemma_two_requests(feed: Feed, first: Direction, second: Direction)
    ensures
        feed.matched(seq![first, second]) == (match feed.answer(first) {
            VerdictView::Matched(action) => seq![action],
            _ => Seq::empty(),
        }) + (match feed.step(first).answer(second) {
            VerdictView::Matched(action) => seq![action],
            _ => Seq::empty(),
        }),
{
    let requests = seq![first, second];
    let later = requests.drop_first();
    assert(later =~= seq![second]);
    assert(later.drop_first() =~= Seq::empty());
    let next = feed.step(first);
    assert(next.step(second).matched(later.drop_first()) =~= Seq::empty());
    let tail = match next.answer(second) {
        VerdictView::Matched(action) => seq![action],
        _ => Seq::empty(),
    };
    assert(next.matched(later) =~= tail);
    let head = match feed.answer(first) {
        VerdictView::Matched(action) => seq![action],
        _ => Seq::empty(),
    };
    assert(feed.matched(requests) =~= head + tail);
}

} // verus!
