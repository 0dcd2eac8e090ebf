//! What holds of every pair, however the operations of its two endpoints
//! interleave.
//!
//! The laws speak of the pair that a fresh pair becomes by a lawful schedule.
//! They rest on one invariant of the model, which every move preserves.
//!
//! The contracts of the code admit what the model does. Each operation of
//! the model leads to a phase that `Swapper::step` allows
//! (`law_acts_are_steps`), and each call of the model has a course of the
//! kind that `Swapper::swap` claims to exist for its result
//! (`law_calls_follow_contract`). That is all that ties the two. The
//! contracts admit other behaviour as well, because they cannot say what the
//! partner does. That the slot and the lines of a running pair behave as the
//! model has them is not proved: it rests on what `std::sync` documents of
//! its lock and channels.
use crate::line::Side;
use crate::phase::lemma_run_extends;
use crate::phase::Phase;
use crate::protocol::Move;
use crate::protocol::Pair;
use crate::SwapError;
use vstd::prelude::*;

verus! {

impl<T> Pair<T> {
    /// What holds of the endpoint on `side` at all times.
    ///
    /// Its calls and returns are in step. A wake-up is queued only for a
    /// blocked endpoint, at most one at a time, and it carries the value that
    /// the partner offered in the same round. Every value that a call has
    /// returned is the one that the partner offered in that round, and every
    /// call that has failed has handed back the value that it offered. A call
    /// that still holds its own value holds the one that it was started with.
    /// A consumer has a partner that exists. The publication of a blocked
    /// call whose partner is gone is still in the slot, until the call has
    /// taken it back.
    pub open spec fn steady_at(self, side: Side) -> bool {
        let me = self.at(side);
        let peer = self.at(side.peer());
        let round = me.returned.len() as int;
        &&& me.offered.len() == round + (if me.call is Some {
            1int
        } else {
            0int
        })
        &&& (me.call matches Some(phase) ==> !phase.terminal())
        &&& (!me.alive ==> me.call is None)
        &&& me.inbox.len() <= 1
        &&& (me.inbox.len() == 1 ==> me.call == Some(Phase::<T>::Blocked) && round
            < peer.offered.len() && me.inbox[0] == peer.offered[round])
        &&& forall|k: int|
            0 <= k < round ==> (#[trigger] me.returned[k] matches Ok(got) ==> k
                < peer.offered.len() && got == peer.offered[k])
        &&& forall|k: int|
            0 <= k < round ==> (#[trigger] me.returned[k] matches Err(failure) ==> failure.1
                == Some(me.offered[k]))
        &&& match me.call {
            Some(Phase::Idle { mine }) => mine == me.offered[round],
            Some(Phase::Publishing { mine }) => mine == me.offered[round],
            Some(Phase::Consuming { mine, .. }) => mine == me.offered[round] && peer.alive,
            Some(Phase::Blocked) => me.inbox.len() == 0 && !peer.alive ==> self.slot == Some(
                me.offered[round],
            ),
            Some(Phase::Withdrawing) => !peer.alive && me.inbox.len() == 0 && self.slot == Some(
                me.offered[round],
            ),
            _ => true,
        }
    }

    /// What holds of the course of the latest call of the endpoint on `side`.
    ///
    /// The course starts idle with the value that was offered, each of its
    /// phases leads to the next, and it ends in the phase that the call is
    /// in, or in the phase with which the call returned. No earlier phase is
    /// the end of a call. At most one publication was refused, and after a
    /// refusal the slot is occupied until the call has taken from it.
    pub open spec fn coursed_at(self, side: Side) -> bool {
        let me = self.at(side);
        let course = me.course;
        let last = course.len() - 1;
        me.offered.len() > 0 ==> {
            &&& course.len() > 0
            &&& course.first() == Phase::begun(me.offered.last())
            &&& Phase::is_run(course)
            &&& forall|i: int| 0 <= i < last ==> !(#[trigger] course[i]).terminal()
            &&& Phase::refusals(course) <= 1
            &&& match me.call {
                Some(phase) => {
                    &&& course.last() == phase
                    &&& (phase is Idle && Phase::refusals(course) == 1 ==> self.slot is Some)
                    &&& (phase is Publishing ==> Phase::refusals(course) == 0)
                },
                None => {
                    &&& course.len() > 1
                    &&& course.last().result() == Some(me.returned.last())
                },
            }
        }
    }

    /// What holds of the endpoint on `side` while both endpoints exist.
    ///
    /// No call has failed. A consumer holds the value that its partner
    /// published, and the partner is blocked. The value of a blocked endpoint
    /// that has not been woken is in the slot or in the hands of a consumer.
    pub open spec fn paired_at(self, side: Side) -> bool {
        let me = self.at(side);
        let peer = self.at(side.peer());
        let round = me.returned.len() as int;
        &&& forall|k: int| 0 <= k < round ==> #[trigger] me.returned[k] is Ok
        &&& match me.call {
            Some(Phase::Consuming { theirs, .. }) => {
                &&& peer.unserved()
                &&& self.slot is None
                &&& peer.returned.len() == round
                &&& theirs == peer.offered[round]
            },
            Some(Phase::Blocked) => me.inbox.len() == 0 ==> {
                ||| self.slot == Some(me.offered[round]) && !peer.consuming()
                ||| self.slot is None && peer.consuming()
            },
            _ => true,
        }
    }

    /// What holds of the pair while both endpoints exist.
    pub open spec fn paired(self) -> bool {
        &&& self.paired_at(Side::Left)
        &&& self.paired_at(Side::Right)
        &&& self.left.returned.len() + self.left.inbox.len() == self.right.returned.len()
            + self.right.inbox.len()
        &&& !(self.left.unserved() && self.right.unserved())
    }

    /// What is in the slot was published by a call that is blocked and has
    /// not been woken, or whose wait has failed and which has not taken it
    /// back yet.
    pub open spec fn slot_owned(self) -> bool {
        self.slot is Some ==> {
            ||| self.left.unserved()
            ||| self.right.unserved()
            ||| self.left.withdrawing()
            ||| self.right.withdrawing()
        }
    }

    /// The invariant of the model.
    pub open spec fn inv(self) -> bool {
        &&& self.steady_at(Side::Left)
        &&& self.steady_at(Side::Right)
        &&& self.coursed_at(Side::Left)
        &&& self.coursed_at(Side::Right)
        &&& self.slot_owned()
        &&& (self.both_alive() ==> self.paired())
    }
}

proof fn lemma_begin_keeps_inv<T>(pair: Pair<T>, side: Side, value: T)
    requires
        pair.inv(),
        pair.can_begin(side),
    ensures
        pair.begin(side, value).inv(),
{
    let next = pair.begin(side, value);
    let peer = side.peer();
    assert(next.at(peer) == pair.at(peer));
    assert(next.steady_at(side));
    assert(next.steady_at(peer));
    if next.both_alive() {
        assert(pair.both_alive());
        assert(next.paired_at(side));
        assert(next.paired_at(peer));
    }
}

proof fn lemma_drop_keeps_inv<T>(pair: Pair<T>, side: Side)
    requires
        pair.inv(),
        pair.can_drop(side),
    ensures
        pair.drop_end(side).inv(),
{
    let next = pair.drop_end(side);
    let peer = side.peer();
    assert(next.at(peer) == pair.at(peer));
    assert(next.steady_at(side));
    assert(next.steady_at(peer));
}

proof fn lemma_act_keeps_inv<T>(pair: Pair<T>, side: Side)
    requires
        pair.inv(),
        pair.can_act(side),
    ensures
        pair.act(side).inv(),
{
    let next = pair.act(side);
    let peer = side.peer();
    assert(next.steady_at(side));
    assert(next.steady_at(peer));
    if next.both_alive() {
        assert(pair.both_alive());
        assert(next.paired_at(side));
        assert(next.paired_at(peer));
    }
    assert(next.coursed_at(side)) by {
        assert(pair.coursed_at(side));
        assert(pair.steady_at(side));
        let course = pair.at(side).course;
        let reached = pair.next_phase(side);
        lemma_run_extends(course, reached);
        assert(next.at(side).course == course.push(reached));
        assert(next.at(side).offered == pair.at(side).offered);
        assert forall|i: int| 0 <= i < course.len() implies !(#[trigger] course.push(
            reached,
        )[i]).terminal() by {
            assert(course.push(reached)[i] == course[i]);
        }
    }
    assert(next.coursed_at(peer)) by {
        assert(pair.coursed_at(peer));
        assert(pair.steady_at(peer));
        assert(pair.steady_at(side));
        assert(next.at(peer).course == pair.at(peer).course);
        assert(next.at(peer).call == pair.at(peer).call);
        assert(next.at(peer).offered == pair.at(peer).offered);
        assert(next.at(peer).returned == pair.at(peer).returned);
        if pair.both_alive() {
            assert(pair.paired_at(side));
            assert(pair.paired_at(peer));
        }
    }
}

/// Every move that a pair admits preserves the invariant.
pub proof fn lemma_move_keeps_inv<T>(pair: Pair<T>, m: Move<T>)
    requires
        pair.inv(),
        pair.admits(m),
    ensures
        pair.after(m).inv(),
{
    match m {
        Move::Begin(side, value) => lemma_begin_keeps_inv(pair, side, value),
        Move::Act(side) => lemma_act_keeps_inv(pair, side),
        Move::Drop(side) => lemma_drop_keeps_inv(pair, side),
    }
}

/// The invariant holds of every pair that a lawful schedule reaches.
pub proof fn lemma_reached_inv<T>(schedule: Seq<Move<T>>)
    requires
        Pair::lawful(schedule),
    ensures
        Pair::reached_by(schedule).inv(),
    decreases schedule.len(),
{
    if schedule.len() > 0 {
        lemma_reached_inv(schedule.drop_last());
        lemma_move_keeps_inv(Pair::reached_by(schedule.drop_last()), schedule.last());
    }
}

/// Round trip. Whenever a call has returned a value, it is the value that
/// the partner passed to its call of the same round: the first call of one
/// endpoint is matched with the first call of the other, the second with the
/// second, and so on. No other value is ever handed out.
pub proof fn law_round_trip<T>(schedule: Seq<Move<T>>, side: Side, k: int)
    requires
        Pair::lawful(schedule),
        0 <= k < Pair::reached_by(schedule).at(side).returned.len(),
        Pair::reached_by(schedule).at(side).returned[k] is Ok,
    ensures
        k < Pair::reached_by(schedule).at(side.peer()).offered.len(),
        Pair::reached_by(schedule).at(side).returned[k] == Ok::<T, (SwapError, Option<T>)>(
            Pair::reached_by(schedule).at(side.peer()).offered[k],
        ),
{
    lemma_reached_inv(schedule);
    let pair = Pair::reached_by(schedule);
    assert(pair.steady_at(side));
}

/// While both endpoints exist no call fails: every call that is over has
/// returned the value that the partner offered in the same round.
pub proof fn law_success_while_paired<T>(schedule: Seq<Move<T>>, side: Side, k: int)
    requires
        Pair::lawful(schedule),
        Pair::reached_by(schedule).both_alive(),
        0 <= k < Pair::reached_by(schedule).at(side).returned.len(),
    ensures
        k < Pair::reached_by(schedule).at(side.peer()).offered.len(),
        Pair::reached_by(schedule).at(side).returned[k] == Ok::<T, (SwapError, Option<T>)>(
            Pair::reached_by(schedule).at(side.peer()).offered[k],
        ),
{
    lemma_reached_inv(schedule);
    let pair = Pair::reached_by(schedule);
    assert(pair.paired_at(side));
    law_round_trip(schedule, side, k);
}

/// Exclusivity. At no time are both endpoints blocked with nobody on the way
/// to wake them, and a value that is in the slot is the one that the single
/// blocked endpoint has published in its current call.
pub proof fn law_exclusive<T>(schedule: Seq<Move<T>>)
    requires
        Pair::lawful(schedule),
        Pair::reached_by(schedule).both_alive(),
    ensures
        ({
            let pair = Pair::reached_by(schedule);
            &&& !(pair.left.unserved() && pair.right.unserved())
            &&& (pair.slot is Some ==> exists|side: Side|
                {
                    &&& (#[trigger] pair.at(side)).unserved()
                    &&& pair.at(side).offered.len() > 0
                    &&& pair.slot == Some(pair.at(side).offered.last())
                    &&& !pair.at(side.peer()).consuming()
                })
        }),
{
    lemma_reached_inv(schedule);
    let pair = Pair::reached_by(schedule);
    if pair.slot is Some {
        let side = if pair.left.unserved() {
            Side::Left
        } else {
            Side::Right
        };
        assert(pair.steady_at(side));
        assert(pair.paired_at(side));
        assert(pair.paired_at(side.peer()));
        assert(pair.at(side).unserved());
    }
}

/// No deadlock. While both endpoints exist and have started equally many
/// calls, an endpoint with a call under way can perform its next operation,
/// or else its partner can.
pub proof fn law_no_deadlock<T>(schedule: Seq<Move<T>>)
    requires
        Pair::lawful(schedule),
        Pair::reached_by(schedule).both_alive(),
        Pair::reached_by(schedule).left.offered.len() == Pair::reached_by(
            schedule,
        ).right.offered.len(),
        Pair::reached_by(schedule).left.call is Some || Pair::reached_by(schedule).right.call
            is Some,
    ensures
        Pair::reached_by(schedule).can_act(Side::Left) || Pair::reached_by(schedule).can_act(
            Side::Right,
        ),
{
    lemma_reached_inv(schedule);
    let pair = Pair::reached_by(schedule);
    assert(pair.steady_at(Side::Left));
    assert(pair.steady_at(Side::Right));
}

/// Progress. Every operation brings the calls under way closer to their end:
/// it lowers the work that is left, which is never more than ten operations.
/// So no schedule keeps a pair busy for ever.
pub proof fn law_progress<T>(schedule: Seq<Move<T>>, side: Side)
    requires
        Pair::lawful(schedule),
        Pair::reached_by(schedule).can_act(side),
    ensures
        Pair::reached_by(schedule).act(side).work() < Pair::reached_by(schedule).work(),
        Pair::reached_by(schedule).work() <= 10,
{
    lemma_reached_inv(schedule);
    let pair = Pair::reached_by(schedule);
    lemma_act_lowers_work(pair, side);
}

/// Peer loss. An endpoint that is blocked when its partner is gone does not
/// stay blocked. If a wake-up was queued, the exchange had been made and the
/// call returns the partner's value. If none was queued the wait fails, the
/// call takes its publication back, and it returns the error together with
/// the value that it had offered, leaving the slot empty.
pub proof fn law_peer_loss<T>(schedule: Seq<Move<T>>, side: Side)
    requires
        Pair::lawful(schedule),
        Pair::reached_by(schedule).at(side).call == Some(Phase::<T>::Blocked),
        !Pair::reached_by(schedule).at(side.peer()).alive,
    ensures
        ({
            let pair = Pair::reached_by(schedule);
            let me = pair.at(side);
            let woken = pair.act(side);
            let ended = woken.act(side);
            &&& pair.can_act(side)
            &&& me.inbox.len() > 0 ==> {
                &&& woken.at(side).call is None
                &&& woken.at(side).returned == me.returned.push(Ok(me.inbox.first()))
            }
            &&& me.inbox.len() == 0 ==> {
                &&& woken.at(side).call == Some(Phase::<T>::Withdrawing)
                &&& woken.can_act(side)
                &&& ended.at(side).call is None
                &&& ended.at(side).returned == me.returned.push(
                    Err((SwapError, Some(me.offered.last()))),
                )
                &&& ended.slot is None
            }
        }),
{
    lemma_reached_inv(schedule);
    let pair = Pair::reached_by(schedule);
    assert(pair.steady_at(side));
}

/// Failure is final. Once its partner is gone, and unless a wake-up is still
/// queued for it, an endpoint finds the slot empty whenever it starts a call,
/// and the call runs the same course every time: it publishes, its wait
/// fails, it takes its value back, and it returns the error together with
/// that value. Nothing of the call stays in the slot, and no value of an
/// earlier call is ever taken.
pub proof fn law_failure_is_final<T>(schedule: Seq<Move<T>>, side: Side, value: T)
    requires
        Pair::lawful(schedule),
        !Pair::reached_by(schedule).at(side.peer()).alive,
        Pair::reached_by(schedule).can_begin(side),
    ensures
        ({
            let pair = Pair::reached_by(schedule);
            let begun = pair.begin(side, value);
            let taken = begun.act(side);
            let published = taken.act(side);
            let woken = published.act(side);
            let ended = woken.act(side);
            &&& pair.slot is None
            &&& begun.can_act(side)
            &&& taken.at(side).call == Some(Phase::Publishing { mine: value })
            &&& taken.can_act(side)
            &&& published.at(side).call == Some(Phase::<T>::Blocked)
            &&& published.slot == Some(value)
            &&& published.can_act(side)
            &&& woken.at(side).call == Some(Phase::<T>::Withdrawing)
            &&& woken.can_act(side)
            &&& ended.at(side).call is None
            &&& ended.at(side).returned == pair.at(side).returned.push(
                Err((SwapError, Some(value))),
            )
            &&& ended.slot is None
        }),
{
    lemma_reached_inv(schedule);
    let pair = Pair::reached_by(schedule);
    assert(pair.steady_at(side));
    assert(pair.steady_at(side.peer()));
}

/// Every call that has failed has handed back the value that it had
/// offered.
pub proof fn law_failure_hands_back<T>(schedule: Seq<Move<T>>, side: Side, k: int)
    requires
        Pair::lawful(schedule),
        0 <= k < Pair::reached_by(schedule).at(side).returned.len(),
        Pair::reached_by(schedule).at(side).returned[k] is Err,
    ensures
        k < Pair::reached_by(schedule).at(side).offered.len(),
        Pair::reached_by(schedule).at(side).returned[k] == Err::<T, (SwapError, Option<T>)>(
            (SwapError, Some(Pair::reached_by(schedule).at(side).offered[k])),
        ),
{
    lemma_reached_inv(schedule);
    let pair = Pair::reached_by(schedule);
    assert(pair.steady_at(side));
    let failure = pair.at(side).returned[k]->Err_0;
    assert(failure.0 == SwapError);
    assert(failure =~= (SwapError, Some(pair.at(side).offered[k])));
}

/// Repeatability. While both endpoints exist and neither has a call under
/// way, nothing of the calls that are over is left in the pair: the slot is
/// empty, no wake-up is queued, and both endpoints have been through the
/// same number of rounds.
pub proof fn law_nothing_left_behind<T>(schedule: Seq<Move<T>>)
    requires
        Pair::lawful(schedule),
        Pair::reached_by(schedule).both_alive(),
        Pair::reached_by(schedule).left.call is None,
        Pair::reached_by(schedule).right.call is None,
    ensures
        ({
            let pair = Pair::reached_by(schedule);
            &&& pair.slot is None
            &&& pair.left.inbox.len() == 0
            &&& pair.right.inbox.len() == 0
            &&& pair.left.returned.len() == pair.left.offered.len()
            &&& pair.right.returned.len() == pair.right.offered.len()
            &&& pair.left.offered.len() == pair.right.offered.len()
        }),
{
    lemma_reached_inv(schedule);
    let pair = Pair::reached_by(schedule);
    assert(pair.steady_at(Side::Left));
    assert(pair.steady_at(Side::Right));
}

/// One wake-up at a time. No line ever holds more than one wake-up, and a
/// wake-up is queued only for an endpoint that is blocked.
pub proof fn law_one_wake_up<T>(schedule: Seq<Move<T>>, side: Side)
    requires
        Pair::lawful(schedule),
    ensures
        Pair::reached_by(schedule).at(side).inbox.len() <= 1,
        Pair::reached_by(schedule).at(side).inbox.len() == 1 ==> Pair::reached_by(schedule).at(
            side,
        ).call == Some(Phase::<T>::Blocked),
{
    lemma_reached_inv(schedule);
    assert(Pair::reached_by(schedule).steady_at(side));
}

/// The endpoints of the model move as `Swapper::step` says an endpoint may:
/// each operation leads the call to a phase that its phase leads to.
pub proof fn law_acts_are_steps<T>(schedule: Seq<Move<T>>, side: Side)
    requires
        Pair::lawful(schedule),
        Pair::reached_by(schedule).can_act(side),
    ensures
        Pair::reached_by(schedule).at(side).call->0.leads_to(
            Pair::reached_by(schedule).next_phase(side),
        ),
{
}

/// The contract of `Swapper::swap` admits the calls of the model. The
/// course of the latest call that an endpoint has finished starts idle with
/// the value that was offered, moves by phases that lead to one another,
/// meets at most one refusal, and ends with the phase whose result the call
/// returned: it is a course of the kind that the contract claims to exist,
/// whatever budget of one refusal or more the call was given.
pub proof fn law_calls_follow_contract<T>(schedule: Seq<Move<T>>, side: Side, budget: u64)
    requires
        Pair::lawful(schedule),
        Pair::reached_by(schedule).at(side).call is None,
        Pair::reached_by(schedule).at(side).returned.len() > 0,
        budget >= 1,
    ensures
        Pair::reached_by(schedule).at(side).offered.len() > 0,
        Phase::refusals(Pair::reached_by(schedule).at(side).course) <= 1,
        Phase::is_call(
            Pair::reached_by(schedule).at(side).course,
            Pair::reached_by(schedule).at(side).offered.last(),
            budget,
            Pair::reached_by(schedule).at(side).returned.last(),
        ),
{
    lemma_reached_inv(schedule);
    let pair = Pair::reached_by(schedule);
    assert(pair.steady_at(side));
    assert(pair.coursed_at(side));
}

/// One retry. A call whose publication the slot refuses keeps its value,
/// finds the slot still occupied when it tries again, and consumes: the
/// partner, which is blocked, cannot have emptied the slot in between. So no
/// call is refused twice.
pub proof fn law_single_retry<T>(schedule: Seq<Move<T>>, side: Side)
    requires
        Pair::lawful(schedule),
        Pair::reached_by(schedule).both_alive(),
        Pair::reached_by(schedule).at(side).call is Some,
        Pair::reached_by(schedule).at(side).call->0 is Publishing,
        Pair::reached_by(schedule).slot is Some,
    ensures
        ({
            let pair = Pair::reached_by(schedule);
            let refused = pair.act(side);
            &&& refused.at(side).call == Some(
                Phase::Idle { mine: pair.at(side).call->0->Publishing_mine },
            )
            &&& !refused.can_act(side.peer())
            &&& refused.can_act(side)
            &&& refused.act(side).at(side).consuming()
        }),
{
    lemma_reached_inv(schedule);
    let pair = Pair::reached_by(schedule);
    assert(pair.paired_at(side));
    assert(pair.paired_at(side.peer()));
}

/// Whether every move of `moves` is an operation of a call under way.
pub open spec fn acts_only<T>(moves: Seq<Move<T>>) -> bool {
    forall|i: int| 0 <= i < moves.len() ==> #[trigger] moves[i] is Act
}

/// Liveness. Let both endpoints exist and have started equally many calls,
/// and let the calls under way run on, in any interleaving, until neither
/// endpoint can perform an operation. Then both calls are over, after no
/// more operations than the work that was left, and every call of either
/// endpoint has returned the value that the partner offered in the same
/// round.
pub proof fn law_matched_calls_complete<T>(schedule: Seq<Move<T>>, acts: Seq<Move<T>>)
    requires
        Pair::lawful(schedule + acts),
        acts_only(acts),
        Pair::reached_by(schedule).both_alive(),
        Pair::reached_by(schedule).left.offered.len() == Pair::reached_by(
            schedule,
        ).right.offered.len(),
        !Pair::reached_by(schedule + acts).can_act(Side::Left),
        !Pair::reached_by(schedule + acts).can_act(Side::Right),
    ensures
        acts.len() <= Pair::reached_by(schedule).work() <= 10,
        ({
            let start = Pair::reached_by(schedule);
            let end = Pair::reached_by(schedule + acts);
            &&& end.left.call is None
            &&& end.right.call is None
            &&& end.left.offered == start.left.offered
            &&& end.right.offered == start.right.offered
            &&& end.left.returned.len() == end.left.offered.len()
            &&& end.right.returned.len() == end.right.offered.len()
            &&& forall|k: int|
                0 <= k < end.left.offered.len() ==> {
                    &&& #[trigger] end.left.returned[k] == Ok::<T, (SwapError, Option<T>)>(end.right.offered[k])
                    &&& #[trigger] end.right.returned[k] == Ok::<T, (SwapError, Option<T>)>(
                        end.left.offered[k],
                    )
                }
        }),
{
    lemma_acts_run_down(schedule, acts);
    let start = Pair::reached_by(schedule);
    let end = Pair::reached_by(schedule + acts);
    lemma_reached_inv(schedule + acts);
    assert(end.steady_at(Side::Left));
    assert(end.steady_at(Side::Right));
    if end.left.call is Some || end.right.call is Some {
        law_no_deadlock(schedule + acts);
    }
    assert forall|k: int| 0 <= k < end.left.offered.len() implies {
        &&& #[trigger] end.left.returned[k] == Ok::<T, (SwapError, Option<T>)>(end.right.offered[k])
        &&& #[trigger] end.right.returned[k] == Ok::<T, (SwapError, Option<T>)>(end.left.offered[k])
    } by {
        law_success_while_paired(schedule + acts, Side::Left, k);
        law_success_while_paired(schedule + acts, Side::Right, k);
    }
}

proof fn lemma_acts_run_down<T>(schedule: Seq<Move<T>>, acts: Seq<Move<T>>)
    requires
        Pair::lawful(schedule + acts),
        acts_only(acts),
    ensures
        Pair::lawful(schedule),
        Pair::reached_by(schedule + acts).work() + acts.len() <= Pair::reached_by(
            schedule,
        ).work() <= 10,
        Pair::reached_by(schedule + acts).left.alive == Pair::reached_by(schedule).left.alive,
        Pair::reached_by(schedule + acts).right.alive == Pair::reached_by(schedule).right.alive,
        Pair::reached_by(schedule + acts).left.offered == Pair::reached_by(schedule).left.offered,
        Pair::reached_by(schedule + acts).right.offered == Pair::reached_by(
            schedule,
        ).right.offered,
    decreases acts.len(),
{
    if acts.len() == 0 {
        assert(schedule + acts =~= schedule);
        lemma_reached_inv(schedule);
    } else {
        let whole = schedule + acts;
        let before = acts.drop_last();
        assert(whole.drop_last() =~= schedule + before);
        assert(whole.last() == acts.last());
        assert(acts.last() is Act);
        assert(acts_only(before));
        lemma_acts_run_down(schedule, before);
        lemma_reached_inv(schedule + before);
        let pair = Pair::reached_by(schedule + before);
        match acts.last() {
            Move::Act(side) => {
                lemma_act_lowers_work(pair, side);
            },
            _ => {},
        }
    }
}

proof fn lemma_act_lowers_work<T>(pair: Pair<T>, side: Side)
    requires
        pair.inv(),
        pair.can_act(side),
    ensures
        pair.act(side).work() < pair.work(),
        pair.work() <= 10,
{
    let peer = side.peer();
    assert(pair.steady_at(side));
    assert(pair.steady_at(peer));
    if pair.both_alive() {
        assert(pair.paired_at(side));
        assert(pair.paired_at(peer));
    }
}

} // verus!
