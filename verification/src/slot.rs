//! The exchange slot: one place that is empty or holds the value that one
//! endpoint has published for its partner.
//!
//! The slot changes in two ways only, each of them a single step for whoever
//! looks on: it is taken and cleared, or a value is published into it if it is
//! empty. An endpoint performs each step under the lock that guards the shared
//! slot, so no other access can fall between the test and the change.
use vstd::prelude::*;

verus! {

/// The content of the exchange slot.
pub struct Slot<T> {
    occupant: Option<T>,
}

/// What the slot holds after `value` was offered to a slot holding
/// `occupant`: the value, if the slot was empty, and what it held before
/// otherwise.
pub open spec fn publish_leaves<T>(occupant: Option<T>, value: T) -> Option<T> {
    if occupant is None {
        Some(value)
    } else {
        occupant
    }
}

/// What the publisher learns when `value` was offered to a slot holding
/// `occupant`: success if the slot was empty, and its own value back
/// otherwise.
pub open spec fn publish_answers<T>(occupant: Option<T>, value: T) -> Result<(), T> {
    if occupant is None {
        Ok(())
    } else {
        Err(value)
    }
}

impl<T> Slot<T> {
    /// The occupant, if there is one.
    pub closed spec fn view(&self) -> Option<T> {
        self.occupant
    }

    /// A slot with no occupant.
    pub fn empty() -> (slot: Slot<T>)
        ensures
            slot@ == None::<T>,
    {
        Slot { occupant: None }
    }

    /// Removes the occupant and hands it out, leaving the slot empty.
    pub fn take_and_clear(&mut self) -> (taken: Option<T>)
        ensures
            taken == old(self)@,
            final(self)@ == None::<T>,
    {
        self.occupant.take()
    }

    /// Puts `value` into the slot if it is empty. An occupied slot is left as
    /// it is, and `value` comes back in the error.
    pub fn publish_if_empty(&mut self, value: T) -> (answer: Result<(), T>)
        ensures
            answer == publish_answers(old(self)@, value),
            final(self)@ == publish_leaves(old(self)@, value),
    {
        if self.occupant.is_none() {
            self.occupant = Some(value);
            Ok(())
        } else {
            Err(value)
        }
    }
}

} // verus!
