//! A model of a pair of endpoints at work.
//!
//! The model holds what the two threads share (the exchange slot and the two
//! notification lines) and where each endpoint stands in its current call. A
//! move of the pair is one operation of one endpoint: the start of a call,
//! the operation that the phase of a call asks for, or the end of an
//! endpoint's life. The operations of the two endpoints interleave in any
//! order, and each is a single step for whoever looks on.
//!
//! An endpoint moves through a call by the transitions of `Phase`, fed with
//! what the slot and the lines hold at that moment. The model says of the
//! lines what `std::sync::mpsc` documents: waking succeeds as long as the
//! receiving end lives, and waiting ends with the oldest wake-up that is
//! queued, or fails once nothing is queued and the sending end is gone.
use crate::line::Side;
use crate::phase::Phase;
use crate::slot::publish_answers;
use crate::slot::publish_leaves;
use crate::SwapError;
use vstd::prelude::*;

verus! {

/// One endpoint, as its partner and the laws see it.
pub struct Party<T> {
    /// Whether the endpoint still exists.
    pub alive: bool,
    /// The call that is under way, if there is one.
    pub call: Option<Phase<T>>,
    /// The phases that the latest call has been through, oldest first.
    pub course: Seq<Phase<T>>,
    /// The wake-ups that are queued for this endpoint, oldest first.
    pub inbox: Seq<T>,
    /// The values that the endpoint passed to its calls, in order.
    pub offered: Seq<T>,
    /// What the calls that are over returned, in order.
    pub returned: Seq<Result<T, (SwapError, Option<T>)>>,
}

impl<T> Party<T> {
    /// An endpoint that has not been used.
    pub open spec fn fresh() -> Party<T> {
        Party {
            alive: true,
            call: None,
            course: Seq::empty(),
            inbox: Seq::empty(),
            offered: Seq::empty(),
            returned: Seq::empty(),
        }
    }

    /// Whether the endpoint is blocked and no wake-up is queued for it.
    pub open spec fn unserved(self) -> bool {
        self.call == Some(Phase::<T>::Blocked) && self.inbox.len() == 0
    }

    /// Whether the wait of the call under way has failed and the call has
    /// not taken its publication back yet.
    pub open spec fn withdrawing(self) -> bool {
        self.call == Some(Phase::<T>::Withdrawing)
    }

    /// Whether the call under way has taken the partner's value and has not
    /// woken the partner yet.
    pub open spec fn consuming(self) -> bool {
        self.call is Some && self.call->0 is Consuming
    }

    /// The endpoint once its call has reached `next`: a call that is over
    /// returns its result.
    pub open spec fn settle(self, next: Phase<T>) -> Party<T> {
        match next.result() {
            Some(result) => Party {
                call: None,
                course: self.course.push(next),
                returned: self.returned.push(result),
                ..self
            },
            None => Party { call: Some(next), course: self.course.push(next), ..self },
        }
    }
}

/// One operation of one endpoint.
pub enum Move<T> {
    /// The endpoint calls `swap` with a value.
    Begin(Side, T),
    /// The endpoint performs the operation that the phase of its call asks
    /// for.
    Act(Side),
    /// The endpoint is destroyed.
    Drop(Side),
}

/// A pair of endpoints and what they share.
pub struct Pair<T> {
    /// The occupant of the exchange slot.
    pub slot: Option<T>,
    pub left: Party<T>,
    pub right: Party<T>,
}

impl<T> Pair<T> {
    /// A pair as `swapper` makes it.
    pub open spec fn fresh() -> Pair<T> {
        Pair { slot: None, left: Party::fresh(), right: Party::fresh() }
    }

    /// The endpoint on `side`.
    pub open spec fn at(self, side: Side) -> Party<T> {
        match side {
            Side::Left => self.left,
            Side::Right => self.right,
        }
    }

    /// The pair with `party` in the place of the endpoint on `side`.
    pub open spec fn put(self, side: Side, party: Party<T>) -> Pair<T> {
        match side {
            Side::Left => Pair { left: party, ..self },
            Side::Right => Pair { right: party, ..self },
        }
    }

    /// An endpoint can start a call while it exists and has no call under
    /// way.
    pub open spec fn can_begin(self, side: Side) -> bool {
        self.at(side).alive && self.at(side).call is None
    }

    /// The pair after the endpoint on `side` has called `swap` with `value`.
    pub open spec fn begin(self, side: Side, value: T) -> Pair<T> {
        let me = self.at(side);
        self.put(
            side,
            Party {
                call: Some(Phase::begun(value)),
                course: seq![Phase::begun(value)],
                offered: me.offered.push(value),
                ..me
            },
        )
    }

    /// An endpoint can be destroyed while it exists and has no call under
    /// way: a call borrows its endpoint.
    pub open spec fn can_drop(self, side: Side) -> bool {
        self.at(side).alive && self.at(side).call is None
    }

    /// The pair after the endpoint on `side` was destroyed.
    pub open spec fn drop_end(self, side: Side) -> Pair<T> {
        self.put(side, Party { alive: false, ..self.at(side) })
    }

    /// An endpoint can act while a call is under way, unless it is blocked,
    /// no wake-up is queued for it and its partner lives.
    pub open spec fn can_act(self, side: Side) -> bool {
        let me = self.at(side);
        me.call is Some && (me.unserved() ==> !self.at(side.peer()).alive)
    }

    /// The phase that the call on `side` is in after its next operation: the
    /// transition of its phase, fed with what the slot holds, whether the
    /// partner exists, or what is queued for the endpoint.
    pub open spec fn next_phase(self, side: Side) -> Phase<T>
        recommends
            self.at(side).call is Some,
    {
        let me = self.at(side);
        match me.call->0 {
            Phase::Idle { mine } => Phase::took(mine, self.slot),
            Phase::Publishing { mine } => Phase::offered(publish_answers(self.slot, mine)),
            Phase::Consuming { theirs, mine } => Phase::signalled(
                theirs,
                if self.at(side.peer()).alive {
                    Ok(())
                } else {
                    Err(SwapError)
                },
            ),
            Phase::Blocked => Phase::woke(
                if me.inbox.len() > 0 {
                    Ok(me.inbox.first())
                } else {
                    Err(SwapError)
                },
            ),
            Phase::Withdrawing => Phase::withdrew(self.slot),
            over => over,
        }
    }

    /// What the operation of the call on `side` does to the slot and the
    /// lines.
    pub open spec fn operate(self, side: Side) -> Pair<T> {
        let me = self.at(side);
        let peer = self.at(side.peer());
        match me.call {
            Some(Phase::Idle { .. }) => Pair { slot: None, ..self },
            Some(Phase::Withdrawing) => Pair { slot: None, ..self },
            Some(Phase::Publishing { mine }) => Pair {
                slot: publish_leaves(self.slot, mine),
                ..self
            },
            Some(Phase::Consuming { mine, .. }) => if peer.alive {
                self.put(side.peer(), Party { inbox: peer.inbox.push(mine), ..peer })
            } else {
                self
            },
            Some(Phase::Blocked) => if me.inbox.len() > 0 {
                self.put(side, Party { inbox: me.inbox.drop_first(), ..me })
            } else {
                self
            },
            _ => self,
        }
    }

    /// The pair after the endpoint on `side` has performed the operation of
    /// its phase.
    pub open spec fn act(self, side: Side) -> Pair<T> {
        let done = self.operate(side);
        done.put(side, done.at(side).settle(self.next_phase(side)))
    }

    /// Whether `m` can be the next move of the pair.
    pub open spec fn admits(self, m: Move<T>) -> bool {
        match m {
            Move::Begin(side, _) => self.can_begin(side),
            Move::Act(side) => self.can_act(side),
            Move::Drop(side) => self.can_drop(side),
        }
    }

    /// The pair after the move `m`.
    pub open spec fn after(self, m: Move<T>) -> Pair<T> {
        match m {
            Move::Begin(side, value) => self.begin(side, value),
            Move::Act(side) => self.act(side),
            Move::Drop(side) => self.drop_end(side),
        }
    }

    /// The pair that a fresh pair becomes by the moves of `schedule`.
    pub open spec fn reached_by(schedule: Seq<Move<T>>) -> Pair<T>
        decreases schedule.len(),
    {
        if schedule.len() == 0 {
            Pair::fresh()
        } else {
            Self::reached_by(schedule.drop_last()).after(schedule.last())
        }
    }

    /// Whether a fresh pair can make the moves of `schedule` in their order.
    pub open spec fn lawful(schedule: Seq<Move<T>>) -> bool
        decreases schedule.len(),
    {
        schedule.len() == 0 || (Self::lawful(schedule.drop_last()) && Self::reached_by(
            schedule.drop_last(),
        ).admits(schedule.last()))
    }

    /// Whether both endpoints exist.
    pub open spec fn both_alive(self) -> bool {
        self.left.alive && self.right.alive
    }

    /// How many operations the call on `side` has ahead of it at most, as the
    /// slot stands.
    pub open spec fn effort(self, side: Side) -> nat {
        match self.at(side).call {
            Some(Phase::Idle { .. }) => if self.slot is Some {
                2
            } else {
                5
            },
            Some(Phase::Publishing { .. }) => if self.slot is Some {
                3
            } else {
                4
            },
            Some(Phase::Blocked) => 2,
            Some(Phase::Consuming { .. }) => 1,
            Some(Phase::Withdrawing) => 1,
            _ => 0,
        }
    }

    /// How many operations the calls under way have ahead of them at most.
    pub open spec fn work(self) -> nat {
        self.effort(Side::Left) + self.effort(Side::Right)
    }
}

} // verus!
