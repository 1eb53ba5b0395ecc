//! Direction matching: what becomes of the action an operation obtains.
//!
//! The engine obtains one action per request, from its lookahead slot if that
//! is occupied and from the channel otherwise, and holds it against the
//! direction of the request. [`verdict`] is that rule.
use crate::channel::Delivery;
use crate::fault::ViolationView;
use crate::script::{Action, ActionView, Direction, Payload, PayloadView};
use vstd::prelude::*;

verus! {

/// What the matcher makes of one attempt to obtain an action.
#[derive(Debug, PartialEq, Eq)]
pub enum Verdict {
    /// The action is of the requested direction and is consumed.
    Matched(Action),
    /// The action is of the other direction; it goes to the lookahead slot
    /// and the request is not met yet.
    Deferred(Action),
    /// No action was to be had; the request is not met yet.
    Idle,
    /// No action was to be had and none can come any more.
    Ended,
}

/// A verdict as contracts see it.
pub enum VerdictView {
    Matched(ActionView),
    Deferred(ActionView),
    Idle,
    Ended,
}

impl View for Verdict {
    type V = VerdictView;

    open spec fn view(&self) -> VerdictView {
        match *self {
            Verdict::Matched(action) => VerdictView::Matched(action@),
            Verdict::Deferred(action) => VerdictView::Deferred(action@),
            Verdict::Idle => VerdictView::Idle,
            Verdict::Ended => VerdictView::Ended,
        }
    }
}

/// The matching rule: an obtained action is consumed when its direction is
/// the requested one and deferred when it is not.
pub open spec fn verdict(obtained: Delivery<ActionView>, requested: Direction) -> VerdictView {
    match obtained {
        Delivery::Item(action) => if action.direction == requested {
            VerdictView::Matched(action)
        } else {
            VerdictView::Deferred(action)
        },
        Delivery::Empty => VerdictView::Idle,
        Delivery::Closed => VerdictView::Ended,
    }
}

/// The matcher's reply to one request.
#[derive(Debug, PartialEq, Eq)]
pub enum Matching {
    /// An action of the requested direction was consumed; this is its payload.
    Matched(Payload),
    /// No action of the requested direction is at hand yet.
    NotYet,
}

/// A reply as contracts see it.
pub enum MatchingView {
    Matched(PayloadView),
    NotYet,
}

impl View for Matching {
    type V = MatchingView;

    open spec fn view(&self) -> MatchingView {
        match *self {
            Matching::Matched(payload) => MatchingView::Matched(payload@),
            Matching::NotYet => MatchingView::NotYet,
        }
    }
}

/// How the matcher words its decision to the operation that asked: the
/// payload of a matched action, "not yet" when the action was deferred or
/// none was to be had, and a violation when the script has ended.
pub open spec fn reply_of(ruling: VerdictView) -> Result<MatchingView, ViolationView> {
    match ruling {
        VerdictView::Matched(action) => Ok(MatchingView::Matched(action.payload)),
        VerdictView::Deferred(_) => Ok(MatchingView::NotYet),
        VerdictView::Idle => Ok(MatchingView::NotYet),
        VerdictView::Ended => Err(ViolationView::ScriptExhausted),
    }
}

/// The lookahead slot after a verdict on an action obtained with the slot
/// empty: it holds the deferred action, and nothing otherwise.
pub open spec fn held_after(ruling: VerdictView) -> Option<ActionView> {
    match ruling {
        VerdictView::Deferred(action) => Some(action),
        _ => None,
    }
}

/// Applies the matching rule to what was obtained.
pub fn decide(obtained: Delivery<Action>, requested: Direction) -> (v: Verdict)
    ensures
        v@ == verdict(obtained@, requested),
{
    match obtained {
        Delivery::Item(action) => if action.serves(requested) {
            Verdict::Matched(action)
        } else {
            Verdict::Deferred(action)
        },
        Delivery::Empty => Verdict::Idle,
        Delivery::Closed => Verdict::Ended,
    }
}

} // verus!
