//! The handles of a channel: senders, the receiver, and the operation that
//! awaits the value. All of them share one [`Chan`] under a lock, and each
//! of their operations is one or two transitions of that cell, run while the
//! lock is held. Wakers are woken, cloned and dropped only after the lock
//! has been given back.
//!
//! The channel wakes the receiver's task through the `Waker` that the task's
//! scheduler supplied. It relies on that waker to return from `wake_by_ref`
//! without unwinding: a waker that panics there is not supported.

use vstd::prelude::*;
use std::future::Future;
use std::pin::Pin;
use std::sync::{Arc, Mutex};
use std::task::{Context, Poll, Waker};
use crate::chan::{Chan, Polled};
use crate::lock::{held, lock, unlock};
use crate::task::{into_poll, pinned, wake};

verus! {

/// The sending half. It can be cloned, and all clones together get one
/// successful [`send`](Sender::send).
///
/// A successful send, and the destruction of the last sender when nothing
/// was sent, wake the waiting receiver by `Waker::wake_by_ref`. A waker that
/// unwinds from that call is not supported: the destructor cannot let a
/// panic pass.
#[verifier::reject_recursive_types(T)]
pub struct Sender<T> {
    chan: Arc<Mutex<Chan<T>>>,
}

/// The receiving half.
#[verifier::reject_recursive_types(T)]
pub struct Receiver<T> {
    chan: Arc<Mutex<Chan<T>>>,
}

/// One await of the value: a future that completes with `Some` of the value
/// that was sent, or with `None` if there is none to come.
///
/// The waker of the first pending poll is registered with the channel, and
/// stays registered for as long as the channel lives. It is the one that a
/// sender wakes, and it must return from `wake_by_ref` without unwinding: a
/// waker that panics there is not supported.
#[verifier::reject_recursive_types(T)]
pub struct Recv<T> {
    chan: Arc<Mutex<Chan<T>>>,
}

/// Creates a channel and returns its two halves, which share one cell.
pub fn oneshot<T>() -> (pair: (Sender<T>, Receiver<T>))
    ensures
        pair.0.shared() == pair.1.shared(),
{
    let chan = Arc::new(Mutex::new(Chan::new()));
    (Sender { chan: chan.clone() }, Receiver { chan })
}

/// Wakes the waiter that a transition has handed out, if it handed one out.
fn notify(waiter: Option<Arc<Waker>>)
    opens_invariants none
    no_unwind
{
    match &waiter {
        Some(w) => wake(w),
        None => {},
    }
}

impl<T> Sender<T> {
    /// The cell that this handle works on.
    pub closed spec fn shared(&self) -> Arc<Mutex<Chan<T>>> {
        self.chan
    }

    /// Attempts to send `data`. Whatever other handles do meanwhile, the
    /// answer is `Ok(())`, and then the value is in the cell and the waiting
    /// receiver has been woken, or `Err(data)` with the caller's own value,
    /// and then the cell is as it was. Which of the two is decided by
    /// [`Chan::set`] on the cell as this call finds it.
    pub fn send(&self, data: T) -> (r: Result<(), T>)
        ensures
            r == Ok::<(), T>(()) || r == Err::<(), T>(data),
    {
        let mut guard = lock(&self.chan);
        let (r, waiter) = held(&mut guard).set(data);
        unlock(guard);
        notify(waiter);
        r
    }
}

impl<T> Clone for Sender<T> {
    /// Another sender on the same cell, counted as alive from now on.
    fn clone(&self) -> (s: Self)
        ensures
            s.shared() == self.shared(),
    {
        let mut guard = lock(&self.chan);
        held(&mut guard).add_producer();
        unlock(guard);
        Sender { chan: self.chan.clone() }
    }
}

impl<T> Drop for Sender<T> {
    /// Counts this sender out. If it was the last and nothing was sent, the
    /// waiting receiver is woken, and finds the channel abandoned.
    fn drop(&mut self)
        opens_invariants none
        no_unwind
    {
        let mut guard = lock(&self.chan);
        let waiter = held(&mut guard).release_producer();
        unlock(guard);
        notify(waiter);
    }
}

impl<T> Receiver<T> {
    /// The cell that this handle works on.
    pub closed spec fn shared(&self) -> Arc<Mutex<Chan<T>>> {
        self.chan
    }

    /// Starts an await on this channel. Only one should be in progress at a
    /// time: of two that wait together only the first is woken.
    pub fn recv(&self) -> (r: Recv<T>)
        ensures
            r.shared() == self.shared(),
    {
        Recv { chan: self.chan.clone() }
    }
}

impl<T> Recv<T> {
    /// The cell that this await works on.
    pub closed spec fn shared(&self) -> Arc<Mutex<Chan<T>>> {
        self.chan
    }

    /// Polls once, on behalf of the task that `waker` wakes.
    ///
    /// First [`Chan::poll_ready`]: if the cell is settled, the poll is
    /// complete, and `waker` is neither cloned nor registered. Else `waker`
    /// is cloned and offered by [`Chan::poll_register`], which looks at the
    /// cell again: a value that arrived, or a last sender that left, between
    /// the two steps completes the poll all the same. Only if the cell is
    /// still open then is the poll pending, and the registered task is woken
    /// when the cell settles.
    pub fn poll_with(&self, waker: &Waker) -> (r: Polled<Option<T>>)
    {
        let mut guard = lock(&self.chan);
        let first = held(&mut guard).poll_ready();
        unlock(guard);
        match first {
            Polled::Ready(v) => Polled::Ready(v),
            Polled::Pending => {
                let w = Arc::new(waker.clone());
                let mut guard = lock(&self.chan);
                // A handle that is not kept stays in `_rejected` to the end
                // of this block, and so outlives the lock.
                let (second, _rejected) = held(&mut guard).poll_register(w);
                unlock(guard);
                second
            },
        }
    }
}

impl<T> Future for Recv<T> {
    type Output = Option<T>;

    /// [`Recv::poll_with`] with the waker of the task that polls.
    fn poll(self: Pin<&mut Self>, cx: &mut Context<'_>) -> (p: Poll<Option<T>>)
    {
        let this = pinned(&self);
        into_poll(this.poll_with(cx.waker()))
    }
}

} // verus!
