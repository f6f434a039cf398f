//! The parts of `std::task` and `std::pin` that the channel touches.

use vstd::prelude::*;
use std::pin::Pin;
use std::task::{Context, Poll, Waker};
use crate::chan::Polled;

verus! {

/// `std::task::Waker`, the handle by which a scheduler is told to poll a
/// task again. Nothing is known of what is inside one.
#[verifier::external_type_specification]
#[verifier::external_body]
pub struct ExWaker(Waker);

/// `std::task::Context`, which a scheduler hands to `Future::poll`.
#[verifier::external_type_specification]
#[verifier::external_body]
pub struct ExContext<'a>(Context<'a>);

/// `std::pin::Pin`.
#[verifier::external_type_specification]
#[verifier::external_body]
#[verifier::reject_recursive_types(P)]
pub struct ExPin<P>(Pin<P>);

/// `std::task::Poll`, the result type of `Future::poll`.
#[verifier::external_type_specification]
#[verifier::external_body]
#[verifier::reject_recursive_types(T)]
pub struct ExPoll<T>(Poll<T>);

/// `Context::waker` hands out the waker of the task that is being polled.
/// Nothing is claimed of it.
pub assume_specification<'a>[ Context::<'a>::waker ](cx: &Context<'a>) -> (w: &'a Waker);

/// `Waker::clone` makes another handle for the same task. Nothing is claimed
/// of the copy.
pub assume_specification[ <Waker as Clone>::clone ](w: &Waker) -> (c: Waker);

/// `Waker::wake_by_ref` tells the scheduler to poll the task again, and
/// leaves the handle as it is. It has no result. The claim made here is that
/// it returns without unwinding. That is a demand on the waker, not
/// something that `std` promises of every waker: the call runs the
/// scheduler's code, and a sender's destructor has to make it. A waker that
/// unwinds from `wake_by_ref` is outside what the channel supports, as the
/// documentation of [`Sender`](crate::channel::Sender) and
/// [`Recv`](crate::channel::Recv) says.
#[verifier::external_body]
pub(crate) fn wake(w: &Waker)
    opens_invariants none
    no_unwind
{
    w.wake_by_ref()
}

/// `Deref::deref` of `Pin<&mut V>`: shared access to what is pinned.
#[verifier::external_body]
pub(crate) fn pinned<'a, 'b, V>(p: &'a Pin<&'b mut V>) -> (v: &'a V)
{
    std::ops::Deref::deref(p)
}

/// Rewrites a [`Polled`] as the `std::task::Poll` that `Future::poll` has to
/// return: `Ready` as `Poll::Ready` with the same value, `Pending` as
/// `Poll::Pending`.
#[verifier::external_body]
pub(crate) fn into_poll<V>(p: Polled<V>) -> (q: Poll<V>)
{
    match p {
        Polled::Ready(v) => Poll::Ready(v),
        Polled::Pending => Poll::Pending,
    }
}

} // verus!
