//! The notification lines of a pair.
//!
//! A pair has two lines, one towards each endpoint. The endpoint that consumes
//! its partner's value wakes the partner over the line that leads to it, and
//! the wake-up carries the consumer's own value, which completes the exchange.
//! When the other end of a line is gone, waking and waiting fail instead of
//! blocking for ever.
//!
//! A line has two ends, which are made together. Specifications tell lines
//! apart by `line`: two ends with the same `line` are the two ends of one
//! line, and the two lines of a pair have different ones.
use crate::SwapError;
use std::sync::mpsc::Receiver;
use std::sync::mpsc::Sender;
use vstd::prelude::*;

verus! {

/// One of the two endpoints of a pair.
pub enum Side {
    Left,
    Right,
}

impl Side {
    /// The other endpoint.
    pub open spec fn peer(self) -> Side {
        match self {
            Side::Left => Side::Right,
            Side::Right => Side::Left,
        }
    }
}

/// The end of a line from which the endpoint at the other end is woken.
#[verifier::reject_recursive_types(T)]
pub(crate) struct Notifier<T> {
    end: Sender<T>,
    line: Ghost<int>,
}

/// The end of a line at which its endpoint waits.
#[verifier::reject_recursive_types(T)]
pub(crate) struct Waiter<T> {
    end: Receiver<T>,
    line: Ghost<int>,
}

impl<T> Notifier<T> {
    /// The line that this end belongs to.
    pub closed spec fn line(&self) -> int {
        self.line@
    }

    /// Wakes the endpoint at the other end with `value`, without blocking.
    /// Fails if that endpoint is gone.
    pub fn signal(&self, value: T) -> (sent: Result<(), SwapError>) {
        match self.end.send(value) {
            Ok(_) => Ok(()),
            Err(gone) => Err(SwapError::from(gone)),
        }
    }
}

impl<T> Waiter<T> {
    /// The line that this end belongs to.
    pub closed spec fn line(&self) -> int {
        self.line@
    }

    /// Blocks until the endpoint at the other end wakes this one, and hands
    /// out the value that the wake-up carried. Fails if that endpoint is gone
    /// and no wake-up is on its way.
    pub fn wait(&self) -> (woken: Result<T, SwapError>) {
        match self.end.recv() {
            Ok(got) => Ok(got),
            Err(gone) => Err(SwapError::from(gone)),
        }
    }
}

/// `std::sync::mpsc::channel`, called once for each of the two lines of a
/// pair. This is taken on trust: a call makes a fresh channel and hands out
/// its sending and its receiving end, so the two ends that one call hands out
/// belong to one line, and the lines of the two calls are two lines.
#[verifier::external_body]
pub(crate) fn lay_pair<T>() -> (lines: ((Notifier<T>, Waiter<T>), (Notifier<T>, Waiter<T>)))
    ensures
        lines.0.0.line() == lines.0.1.line(),
        lines.1.0.line() == lines.1.1.line(),
        lines.0.0.line() != lines.1.0.line(),
{
    let (sender_a, receiver_a) = std::sync::mpsc::channel();
    let (sender_b, receiver_b) = std::sync::mpsc::channel();
    (
        (Notifier { end: sender_a, line: Ghost(0) }, Waiter { end: receiver_a, line: Ghost(0) }),
        (Notifier { end: sender_b, line: Ghost(1) }, Waiter { end: receiver_b, line: Ghost(1) }),
    )
}

} // verus!
