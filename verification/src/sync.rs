//! The items of `std::sync` that the library calls.
//!
//! Everything here is taken on trust: none of it is proved. The lock and the
//! channels are shared between threads, so what they hand back depends on what
//! the other thread has done; for that reason nothing at all is claimed of any
//! result. The code that calls these items is verified for every value they
//! may return.
use std::ops::DerefMut;
use std::sync::mpsc::Receiver;
use std::sync::mpsc::RecvError;
use std::sync::mpsc::SendError;
use std::sync::mpsc::Sender;
use std::sync::Mutex;
use std::sync::MutexGuard;
use std::sync::PoisonError;
use vstd::prelude::*;

verus! {

/// `std::sync::Mutex`, carried through as an opaque value.
#[verifier::external_type_specification]
#[verifier::external_body]
#[verifier::reject_recursive_types(T)]
pub struct ExMutex<T: ?Sized>(Mutex<T>);

/// `std::sync::MutexGuard`, carried through as an opaque value.
#[verifier::external_type_specification]
#[verifier::external_body]
#[verifier::reject_recursive_types(T)]
pub struct ExMutexGuard<'a, T: ?Sized + 'a>(MutexGuard<'a, T>);

/// `std::sync::PoisonError`, carried through as an opaque value.
#[verifier::external_type_specification]
#[verifier::external_body]
#[verifier::reject_recursive_types(T)]
pub struct ExPoisonError<T>(PoisonError<T>);

/// `std::sync::mpsc::Sender`, carried through as an opaque value.
#[verifier::external_type_specification]
#[verifier::external_body]
#[verifier::reject_recursive_types(T)]
pub struct ExSender<T>(Sender<T>);

/// `std::sync::mpsc::Receiver`, carried through as an opaque value.
#[verifier::external_type_specification]
#[verifier::external_body]
#[verifier::reject_recursive_types(T)]
pub struct ExReceiver<T>(Receiver<T>);

/// `std::sync::mpsc::SendError`, carried through as an opaque value.
#[verifier::external_type_specification]
#[verifier::external_body]
#[verifier::reject_recursive_types(T)]
pub struct ExSendError<T>(SendError<T>);

/// `std::sync::mpsc::RecvError`, carried through as an opaque value.
#[verifier::external_type_specification]
#[verifier::external_body]
pub struct ExRecvError(RecvError);

/// `Mutex::new` wraps a value in a lock. A lock's content is not visible to
/// specifications, so nothing is claimed of the lock that comes back.
pub assume_specification<T>[ Mutex::<T>::new ](t: T) -> (lock: Mutex<T>);

/// `Mutex::lock` blocks until the lock is held and hands back its guard, or
/// the guard inside an error if a thread panicked while holding the lock.
/// Nothing is claimed of either.
pub assume_specification<'a, T: ?Sized>[ Mutex::<T>::lock ](lock: &'a Mutex<T>) -> (held: Result<
    MutexGuard<'a, T>,
    PoisonError<MutexGuard<'a, T>>,
>);

/// `PoisonError::into_inner` hands back the guard that the error carries.
/// Nothing is claimed of it.
pub assume_specification<T>[ PoisonError::<T>::into_inner ](error: PoisonError<T>) -> (guard: T);

/// `DerefMut::deref_mut` of a `MutexGuard`: the data that the guard protects,
/// for as long as the guard is borrowed. Nothing is claimed of what the data
/// is, as another thread may have changed it before the lock was taken.
#[verifier::external_body]
pub(crate) fn guarded<'a, 'b, T>(guard: &'a mut MutexGuard<'b, T>) -> (data: &'a mut T) {
    guard.deref_mut()
}

/// `Sender::send` queues a value without blocking, and fails when the
/// receiving end is gone. Which of the two happens is not stated.
pub assume_specification<T>[ Sender::<T>::send ](sender: &Sender<T>, t: T) -> (sent: Result<
    (),
    SendError<T>,
>);

/// `Receiver::recv` blocks until a value arrives, and fails when every sender
/// is gone and nothing is queued. Which of the two happens, and which value
/// arrives, is not stated.
pub assume_specification<T>[ Receiver::<T>::recv ](receiver: &Receiver<T>) -> (received: Result<
    T,
    RecvError,
>);

} // verus!
