//! A rendezvous at which two threads exchange ownership of a value.
//!
//! `swapper` makes a pair of endpoints, one for each thread. A thread calls
//! `swap` with the value that it owns and gets back the value that its partner
//! passed to `swap`. The call blocks until the partner has come to the
//! rendezvous, and fails when the partner is gone.
//!
//! The two endpoints share an exchange slot and two notification lines. A
//! call takes what the slot holds; if that is the partner's value, the
//! exchange is made and the partner is woken. Otherwise the call publishes
//! its own value in the slot and waits to be woken. Values change hands by
//! moves alone: at every moment a value is owned by one call, by the slot or
//! by a line.
//!
//! A call that fails hands back, with the error, the value that it has
//! kept, so that its caller is not left empty-handed.
//!
//! What an endpoint finds in the slot and on its line depends on what the
//! other thread has done, so the contract of `swap` cannot say which value
//! comes back. That is the matter of `laws`, which proves of a model of the
//! pair, `protocol`, that every interleaving of two calls ends with each
//! call holding the value of the other.
use crate::line::lay_pair;
use crate::line::Notifier;
use crate::line::Side;
use crate::line::Waiter;
use crate::phase::lemma_run_extends;
use crate::phase::Phase;
use crate::phase::Turn;
use crate::slot::Slot;
use crate::sync::guarded;
use std::sync::mpsc::RecvError;
use std::sync::mpsc::SendError;
use std::sync::Arc;
use std::sync::Mutex;
use vstd::prelude::*;

pub mod laws;
pub mod line;
pub mod phase;
pub mod protocol;
pub mod slot;
pub mod sync;

verus! {

/// The partner of this endpoint is gone, so the exchange cannot complete.
#[derive(Copy, Clone, Debug, Eq, PartialEq)]
pub struct SwapError;

impl From<RecvError> for SwapError {
    fn from(_gone: RecvError) -> (error: SwapError) {
        SwapError
    }
}

impl vstd::std_specs::convert::FromSpecImpl<RecvError> for SwapError {
    open spec fn obeys_from_spec() -> bool {
        true
    }

    open spec fn from_spec(_gone: RecvError) -> SwapError {
        SwapError
    }
}

impl<T> From<SendError<T>> for SwapError {
    fn from(_gone: SendError<T>) -> (error: SwapError) {
        SwapError
    }
}

impl<T> vstd::std_specs::convert::FromSpecImpl<SendError<T>> for SwapError {
    open spec fn obeys_from_spec() -> bool {
        true
    }

    open spec fn from_spec(_gone: SendError<T>) -> SwapError {
        SwapError
    }
}

/// How many refused publications one call of `swap` puts up with.
///
/// A publication is refused when the partner has published in the moment
/// between the two operations of a call. The partner is then blocked, so the
/// next attempt consumes: in a pair no call is refused twice
/// (`laws::law_single_retry`). The budget is what makes the loop of `swap`
/// provably finite, and it is out of reach in practice.
pub const RETRY_BUDGET: u64 = 0xffff_ffff_ffff_ffff;

/// One endpoint of a pair.
#[verifier::reject_recursive_types(T)]
pub struct Swapper<T> {
    contents: Arc<Mutex<Slot<T>>>,
    wait: Waiter<T>,
    notify: Notifier<T>,
    side: Ghost<Side>,
    made_with: Ghost<Option<T>>,
}

impl<T> Swapper<T> {
    /// Which endpoint of its pair this is.
    pub closed spec fn side(&self) -> Side {
        self.side@
    }

    /// The lock that guards the exchange slot of the pair.
    pub closed spec fn slot(&self) -> Arc<Mutex<Slot<T>>> {
        self.contents
    }

    /// What the exchange slot held when the pair was made.
    pub closed spec fn slot_made_with(&self) -> Option<T> {
        self.made_with@
    }

    /// The line over which this endpoint wakes its partner.
    pub closed spec fn wakes_over(&self) -> int {
        self.notify.line()
    }

    /// The line on which this endpoint waits.
    pub closed spec fn waits_on(&self) -> int {
        self.wait.line()
    }

    /// Whether `self` and `other` are the two endpoints of one pair: they
    /// are on opposite sides, they share the exchange slot, the line over
    /// which each wakes is the line on which the other waits, and these are
    /// two lines.
    pub open spec fn paired_with(&self, other: &Swapper<T>) -> bool {
        &&& self.side() == other.side().peer()
        &&& self.slot() == other.slot()
        &&& self.slot_made_with() == other.slot_made_with()
        &&& self.wakes_over() == other.waits_on()
        &&& other.wakes_over() == self.waits_on()
        &&& self.wakes_over() != self.waits_on()
    }

    /// Takes and clears the shared slot.
    fn take_and_clear(&self) -> (taken: Option<T>) {
        let mut guard = match self.contents.lock() {
            Ok(guard) => guard,
            Err(poisoned) => poisoned.into_inner(),
        };
        guarded(&mut guard).take_and_clear()
    }

    /// Offers `value` to the shared slot. A slot that refuses hands the value
    /// back.
    fn publish_if_empty(&self, value: T) -> (answer: Result<(), T>)
        ensures
            answer matches Err(back) ==> back == value,
    {
        let mut guard = match self.contents.lock() {
            Ok(guard) => guard,
            Err(poisoned) => poisoned.into_inner(),
        };
        guarded(&mut guard).publish_if_empty(value)
    }

    /// Performs the one operation that `phase` calls for, and hands out the
    /// phase that the call is in after it. In `Blocked` this waits until the
    /// partner wakes the endpoint or is gone. A call that is over stays as it
    /// is.
    ///
    /// `swap` is a loop over `step`. A caller that steps through a call
    /// itself hands each phase to the endpoint that started the call, and
    /// goes on until the call is over: the laws of the pair speak of calls
    /// that are driven in this way. A call that is given up while it is
    /// `Blocked` leaves its value in the slot, where the next call of the
    /// same endpoint finds it and takes it for the partner's. `swap` gives
    /// up no call: a call whose wait fails takes its value back.
    pub fn step(&self, phase: Phase<T>) -> (next: Phase<T>)
        ensures
            phase.leads_to(next),
    {
        match phase {
            Phase::Idle { mine } => Phase::after_take(mine, self.take_and_clear()),
            Phase::Publishing { mine } => Phase::after_publish(self.publish_if_empty(mine)),
            Phase::Consuming { theirs, mine } => Phase::after_signal(
                theirs,
                self.notify.signal(mine),
            ),
            Phase::Blocked => Phase::after_wait(self.wait.wait()),
            Phase::Withdrawing => Phase::after_withdraw(self.take_and_clear()),
            Phase::Done { got } => Phase::Done { got },
            Phase::Failed { kept } => Phase::Failed { kept },
        }
    }

    /// Exchanges `value` for the value that the partner passes to its own
    /// call of `swap`, and blocks until the exchange is complete.
    ///
    /// If the partner is blocked waiting to swap, this takes its value and
    /// wakes it with `value`. Otherwise it publishes `value` and waits for
    /// the partner to do so. A publication that the slot refuses is tried
    /// again from the start.
    ///
    /// Fails when the partner is gone, or when the slot has refused more
    /// than `RETRY_BUDGET` publications. A call that fails hands back, with
    /// the error, the value that it has kept. A call whose wait fails takes
    /// its publication back from the slot: it keeps what it finds there, and
    /// leaves the slot empty for the calls that follow. A call that could not
    /// publish keeps `value`. A call that has taken the partner's value and
    /// cannot wake the partner keeps the partner's value.
    ///
    /// Which value comes back is decided by the partner, and so is whether
    /// the call fails. The contract claims no more than that the result has
    /// a course: that there is a run of phases from `Idle` with `value`,
    /// each leading to the next, at whose last phase `settled` returns this
    /// result. Every result has such a course for some behaviour of the
    /// partner; which course the call has taken is not stated.
    pub fn swap(&self, value: T) -> (result: Result<T, (SwapError, Option<T>)>)
        ensures
            exists|run: Seq<Phase<T>>| #[trigger] Phase::is_call(run, value, RETRY_BUDGET, result),
    {
        let mut phase = Phase::start(value);
        let mut budget: u64 = RETRY_BUDGET;
        let ghost mut run: Seq<Phase<T>> = seq![phase];
        loop
            invariant
                run.len() > 0,
                run.first() == Phase::begun(value),
                run.last() == phase,
                Phase::is_run(run),
                forall|i: int| 0 <= i < run.len() ==> !(#[trigger] run[i]).terminal(),
                Phase::refusals(run) + budget == RETRY_BUDGET,
            decreases budget, phase.rank(),
        {
            let next = self.step(phase);
            proof {
                lemma_run_extends(run, next);
                run = run.push(next);
            }
            match next.settle(budget) {
                Turn::Return(result) => {
                    proof {
                        assert(Phase::is_call(run, value, RETRY_BUDGET, result));
                    }
                    return result;
                },
                Turn::GoOn { phase: under_way, budget: left } => {
                    phase = under_way;
                    budget = left;
                },
            }
        }
    }
}

/// Makes a new pair of endpoints: two endpoints that share one exchange
/// slot, which is made empty, and two notification lines, each of which leads
/// from one endpoint to the other.
pub fn swapper<T>() -> (pair: (Swapper<T>, Swapper<T>))
    ensures
        pair.0.side() == Side::Left,
        pair.1.side() == Side::Right,
        pair.0.paired_with(&pair.1),
        pair.0.slot_made_with() == None::<T>,
        pair.1.slot_made_with() == None::<T>,
{
    let slot = Slot::empty();
    let ghost made_with = slot@;
    let contents = Arc::new(Mutex::new(slot));
    let ((notify_a, wait_a), (notify_b, wait_b)) = lay_pair();
    let swapper_a = Swapper {
        contents: contents.clone(),
        notify: notify_b,
        wait: wait_a,
        side: Ghost(Side::Left),
        made_with: Ghost(made_with),
    };
    let swapper_b = Swapper {
        contents: contents,
        notify: notify_a,
        wait: wait_b,
        side: Ghost(Side::Right),
        made_with: Ghost(made_with),
    };
    (swapper_a, swapper_b)
}

} // verus!
