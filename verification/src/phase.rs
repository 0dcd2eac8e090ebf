//! The course of one call of `swap`, as a state machine.
//!
//! A call starts `Idle`, holding the caller's value. It takes and clears the
//! exchange slot. If the slot held the partner's value the call is
//! `Consuming`: the exchange has happened, and what is left is to wake the
//! partner. If the slot was empty the call is `Publishing`: it offers its value
//! to the slot and, once the slot has accepted it, is `Blocked` until the
//! partner wakes it. A slot that refuses the value has been filled by the
//! partner in the meantime, and the call goes back to `Idle`. A blocked call
//! whose wait fails is `Withdrawing`: it takes its publication back from the
//! slot, so that nothing of the call stays behind. A call ends `Done`,
//! holding the partner's value, or `Failed`, holding what it has kept.
//!
//! Each transition is a function of what the endpoint observed when it
//! performed the operation of its phase, and of nothing else.
use crate::SwapError;
use vstd::prelude::*;

verus! {

/// Where a call of `swap` stands.
#[derive(Debug, PartialEq, Eq)]
pub enum Phase<T> {
    /// Holding the caller's value; next the slot is taken and cleared.
    Idle { mine: T },
    /// The slot was found occupied and its value taken; next the partner,
    /// which is blocked, is woken with the caller's value.
    Consuming { theirs: T, mine: T },
    /// The slot was found empty; next the caller's value is offered to it.
    Publishing { mine: T },
    /// The caller's value is in the slot; next the call waits to be woken.
    Blocked,
    /// The wait has failed; next the call takes back what is in the slot.
    Withdrawing,
    /// The call is over and holds the partner's value.
    Done { got: T },
    /// The call is over: the partner is gone. The call hands back the value
    /// that it has kept, if it has kept one.
    Failed { kept: Option<T> },
}

/// What a call does once an operation has led it to a new phase.
#[derive(Debug, PartialEq, Eq)]
pub enum Turn<T> {
    /// The call returns this result.
    Return(Result<T, (SwapError, Option<T>)>),
    /// The call goes on from `phase`, and puts up with `budget` more refused
    /// publications.
    GoOn { phase: Phase<T>, budget: u64 },
}

impl<T> Phase<T> {
    /// The phase in which a call that offers `value` starts.
    pub open spec fn begun(value: T) -> Phase<T> {
        Phase::Idle { mine: value }
    }

    /// The phase after the slot was taken and cleared and gave `taken`.
    pub open spec fn took(mine: T, taken: Option<T>) -> Phase<T> {
        match taken {
            Some(theirs) => Phase::Consuming { theirs, mine },
            None => Phase::Publishing { mine },
        }
    }

    /// The phase after a value was offered to the slot and the slot answered
    /// `answer`: blocked if it accepted, idle again with the value that it
    /// gave back if it refused.
    pub open spec fn offered(answer: Result<(), T>) -> Phase<T> {
        match answer {
            Ok(_) => Phase::Blocked,
            Err(mine) => Phase::Idle { mine },
        }
    }

    /// The phase after a consumer tried to wake its partner. The exchange
    /// was made when the slot was taken, so a consumer that fails keeps the
    /// partner's value.
    pub open spec fn signalled(theirs: T, sent: Result<(), SwapError>) -> Phase<T> {
        match sent {
            Ok(_) => Phase::Done { got: theirs },
            Err(_) => Phase::Failed { kept: Some(theirs) },
        }
    }

    /// The phase after a blocked call stopped waiting.
    pub open spec fn woke(woken: Result<T, SwapError>) -> Phase<T> {
        match woken {
            Ok(got) => Phase::Done { got },
            Err(_) => Phase::Withdrawing,
        }
    }

    /// The phase after a call whose wait had failed took and cleared the
    /// slot and got `taken`: the call keeps what it got.
    pub open spec fn withdrew(taken: Option<T>) -> Phase<T> {
        Phase::Failed { kept: taken }
    }

    /// Whether the call is over.
    pub open spec fn terminal(self) -> bool {
        self is Done || self is Failed
    }

    /// What the call returns, once it is over: the partner's value, or the
    /// error with the value that the call has kept.
    pub open spec fn result(self) -> Option<Result<T, (SwapError, Option<T>)>> {
        match self {
            Phase::Done { got } => Some(Ok(got)),
            Phase::Failed { kept } => Some(Err((SwapError, kept))),
            _ => None,
        }
    }

    /// How far the phase is from the end of the call, counted in transitions
    /// that do not go back to `Idle`.
    pub open spec fn rank(self) -> nat {
        match self {
            Phase::Idle { .. } => 4,
            Phase::Publishing { .. } => 3,
            Phase::Blocked => 2,
            Phase::Consuming { .. } => 1,
            Phase::Withdrawing => 1,
            Phase::Done { .. } => 0,
            Phase::Failed { .. } => 0,
        }
    }

    /// Whether `next` is a phase that one operation can lead to from `self`,
    /// whatever the slot and the partner do. A call never loses its own value
    /// before it has the partner's: the value stays with the call until the
    /// slot accepts it or the partner's value was taken. A consumer ends with
    /// the very value that it took, whether it succeeds or fails.
    pub open spec fn leads_to(self, next: Phase<T>) -> bool {
        match self {
            Phase::Idle { mine } => next == (Phase::Publishing { mine }) || (next is Consuming
                && next->Consuming_mine == mine),
            Phase::Publishing { mine } => next == Phase::<T>::Blocked || next == (Phase::Idle {
                mine,
            }),
            Phase::Consuming { theirs, mine } => next == (Phase::Done { got: theirs }) || next
                == (Phase::Failed { kept: Some(theirs) }),
            Phase::Blocked => next is Done || next == Phase::<T>::Withdrawing,
            Phase::Withdrawing => next is Failed,
            Phase::Done { .. } => next == self,
            Phase::Failed { .. } => next == self,
        }
    }

    /// What a call does once an operation has led it to `self`, when it can
    /// put up with `budget` more refused publications. A call that is over
    /// returns its result. A call that is idle again has had its publication
    /// refused: it goes on with one refusal less to spare, and if it has none
    /// it returns the error and hands back its value. Any other call goes on
    /// as it is.
    pub open spec fn settled(self, budget: u64) -> Turn<T> {
        match self {
            Phase::Done { got } => Turn::Return(Ok(got)),
            Phase::Failed { kept } => Turn::Return(Err((SwapError, kept))),
            Phase::Idle { mine } => if budget == 0 {
                Turn::Return(Err((SwapError, Some(mine))))
            } else {
                Turn::GoOn { phase: Phase::Idle { mine }, budget: (budget - 1) as u64 }
            },
            under_way => Turn::GoOn { phase: under_way, budget },
        }
    }

    /// Whether each phase of `run` leads to the one that follows it.
    pub open spec fn is_run(run: Seq<Phase<T>>) -> bool {
        forall|i: int| 0 <= i < run.len() - 1 ==> (#[trigger] run[i]).leads_to(run[i + 1])
    }

    /// How many publications were refused in `run`: how often the call came
    /// back to `Idle` after its start.
    pub open spec fn refusals(run: Seq<Phase<T>>) -> nat
        decreases run.len(),
    {
        if run.len() <= 1 {
            0
        } else {
            Self::refusals(run.drop_last()) + if run.last() is Idle {
                1nat
            } else {
                0nat
            }
        }
    }

    /// Whether `run` is the course of a call that offers `value`, puts up
    /// with `budget` refused publications and returns `result`.
    ///
    /// The run starts idle with `value`, and each of its phases leads to the
    /// next. No phase before the last is the end of a call, and no more than
    /// `budget` publications were refused before the last. At the last phase
    /// the call returns `result`, by `settled` with what is left of the
    /// budget.
    pub open spec fn is_call(
        run: Seq<Phase<T>>,
        value: T,
        budget: u64,
        result: Result<T, (SwapError, Option<T>)>,
    ) -> bool {
        &&& run.len() > 1
        &&& run.first() == Self::begun(value)
        &&& Self::is_run(run)
        &&& forall|i: int| 0 <= i < run.len() - 1 ==> !(#[trigger] run[i]).terminal()
        &&& Self::refusals(run.drop_last()) <= budget
        &&& run.last().settled((budget - Self::refusals(run.drop_last())) as u64) == Turn::Return(
            result,
        )
    }

    /// Starts a call that offers `value`.
    pub fn start(value: T) -> (phase: Phase<T>)
        ensures
            phase == Self::begun(value),
    {
        Phase::Idle { mine: value }
    }

    /// Moves on from `Idle`, given what taking and clearing the slot gave.
    pub fn after_take(mine: T, taken: Option<T>) -> (next: Phase<T>)
        ensures
            next == Self::took(mine, taken),
    {
        match taken {
            Some(theirs) => Phase::Consuming { theirs, mine },
            None => Phase::Publishing { mine },
        }
    }

    /// Moves on from `Publishing`, given the slot's answer to the offer.
    pub fn after_publish(answer: Result<(), T>) -> (next: Phase<T>)
        ensures
            next == Self::offered(answer),
    {
        match answer {
            Ok(_) => Phase::Blocked,
            Err(mine) => Phase::Idle { mine },
        }
    }

    /// Moves on from `Consuming`, given whether the partner could be woken.
    pub fn after_signal(theirs: T, sent: Result<(), SwapError>) -> (next: Phase<T>)
        ensures
            next == Self::signalled(theirs, sent),
    {
        match sent {
            Ok(_) => Phase::Done { got: theirs },
            Err(_) => Phase::Failed { kept: Some(theirs) },
        }
    }

    /// Moves on from `Blocked`, given what the wait ended with.
    pub fn after_wait(woken: Result<T, SwapError>) -> (next: Phase<T>)
        ensures
            next == Self::woke(woken),
    {
        match woken {
            Ok(got) => Phase::Done { got },
            Err(_) => Phase::Withdrawing,
        }
    }

    /// Moves on from `Withdrawing`, given what taking and clearing the slot
    /// gave.
    pub fn after_withdraw(taken: Option<T>) -> (next: Phase<T>)
        ensures
            next == Self::withdrew(taken),
    {
        Phase::Failed { kept: taken }
    }

    /// Decides what a call does once an operation has led it to `self`, when
    /// it can put up with `budget` more refused publications.
    pub fn settle(self, budget: u64) -> (turn: Turn<T>)
        ensures
            turn == self.settled(budget),
    {
        match self {
            Phase::Done { got } => Turn::Return(Ok(got)),
            Phase::Failed { kept } => Turn::Return(Err((SwapError, kept))),
            Phase::Idle { mine } => if budget == 0 {
                Turn::Return(Err((SwapError, Some(mine))))
            } else {
                Turn::GoOn { phase: Phase::Idle { mine }, budget: budget - 1 }
            },
            under_way => Turn::GoOn { phase: under_way, budget },
        }
    }

    /// What the call returns: nothing while it is under way.
    pub fn outcome(self) -> (returned: Option<Result<T, (SwapError, Option<T>)>>)
        ensures
            returned == self.result(),
    {
        match self {
            Phase::Done { got } => Some(Ok(got)),
            Phase::Failed { kept } => Some(Err((SwapError, kept))),
            _ => None,
        }
    }
}

/// A run that is extended by a phase to which its last phase leads is a run,
/// and has one refusal more if that phase is `Idle`.
pub proof fn lemma_run_extends<T>(run: Seq<Phase<T>>, next: Phase<T>)
    requires
        run.len() > 0,
        Phase::is_run(run),
        run.last().leads_to(next),
    ensures
        Phase::is_run(run.push(next)),
        run.push(next).drop_last() == run,
        Phase::refusals(run.push(next)) == Phase::refusals(run) + if next is Idle {
            1nat
        } else {
            0nat
        },
{
    let longer = run.push(next);
    assert(longer.drop_last() =~= run);
    assert forall|i: int| 0 <= i < longer.len() - 1 implies (#[trigger] longer[i]).leads_to(
        longer[i + 1],
    ) by {
        if i < run.len() - 1 {
            assert(run[i].leads_to(run[i + 1]));
        }
    }
}

/// A call offers nothing but the value that it was started with: wherever
/// a run that starts idle with `value` holds a value of its own, in `Idle`,
/// in `Publishing` or in `Consuming`, that value is `value`.
pub proof fn lemma_run_keeps_value<T>(run: Seq<Phase<T>>, value: T, i: int)
    requires
        Phase::is_run(run),
        0 <= i < run.len(),
        run.first() == Phase::begun(value),
    ensures
        run[i] matches Phase::Idle { mine } ==> mine == value,
        run[i] matches Phase::Publishing { mine } ==> mine == value,
        run[i] matches Phase::Consuming { mine, .. } ==> mine == value,
    decreases i,
{
    if i > 0 {
        lemma_run_keeps_value(run, value, i - 1);
        assert(run[i - 1].leads_to(run[i]));
    }
}

/// How a call ends. A call performs at least two operations. It succeeds
/// only after an exchange: as a consumer, with the very value that it took
/// from the slot, or as a publisher that was blocked and then woken. It fails
/// in three ways only. A consumer that could not wake its partner keeps the
/// value that it took. A publisher whose wait failed keeps what it took back
/// from the slot. A call whose publication was refused once more than the
/// budget allows keeps its own value.
pub proof fn lemma_call_ends<T>(
    run: Seq<Phase<T>>,
    value: T,
    budget: u64,
    result: Result<T, (SwapError, Option<T>)>,
)
    requires
        Phase::is_call(run, value, budget, result),
    ensures
        run.len() >= 3,
        result matches Ok(got) ==> {
            &&& run.last() == (Phase::Done { got })
            &&& (run[run.len() - 2] is Blocked || run[run.len() - 2] == (Phase::Consuming {
                theirs: got,
                mine: value,
            }))
        },
        result matches Err(failure) ==> {
            ||| {
                &&& run.last() == (Phase::Failed { kept: failure.1 })
                &&& run[run.len() - 2] == (Phase::Consuming { theirs: failure.1->0, mine: value })
                &&& failure.1 is Some
            }
            ||| {
                &&& run.last() == (Phase::Failed { kept: failure.1 })
                &&& run[run.len() - 2] is Withdrawing
                &&& run.len() >= 5
                &&& run[run.len() - 3] is Blocked
            }
            ||| {
                &&& run.last() == (Phase::Idle { mine: value })
                &&& run[run.len() - 2] is Publishing
                &&& failure.1 == Some(value)
                &&& Phase::refusals(run) == budget + 1
            }
        },
{
    let last = run.len() - 1;
    assert(run[0].leads_to(run[1]));
    assert(run[last - 1].leads_to(run[last]));
    assert(!run[last - 1].terminal());
    lemma_run_keeps_value(run, value, last - 1);
    lemma_run_keeps_value(run, value, last);
    if run[last - 1] is Withdrawing {
        assert(run[last - 2].leads_to(run[last - 1]));
        assert(run[last - 2] is Blocked);
        assert(run[last - 3].leads_to(run[last - 2]));
    }
}

} // verus!
