//! The cell that a channel's handles share, as a plain value with exclusive
//! access: what it holds, and each operation as one transition.
//!
//! The cell keeps the waiter that was registered with it for as long as it
//! lives. A transition that has somebody to wake hands out a share of that
//! waiter, and whoever ran the transition wakes it by reference.

use vstd::prelude::*;
use std::sync::Arc;
use std::task::Waker;

verus! {

/// What one poll of a receiver comes to.
#[derive(Debug, PartialEq, Eq)]
pub enum Polled<V> {
    /// The poll is complete, with this result.
    Ready(V),
    /// Nothing to report yet: the task will be woken.
    Pending,
}

/// What a cell holds, as a mathematical value.
pub struct ChanView<T> {
    /// Whether the one write has happened. Once true it stays true.
    pub written: bool,
    /// The value that was written, until it is taken.
    pub value: Option<T>,
    /// How many sender handles are alive.
    pub live_producers: nat,
    /// The handle of the receiver's task, once one was registered. It is
    /// set at most once and never cleared.
    pub waiter: Option<Arc<Waker>>,
}

impl<T> ChanView<T> {
    /// A cell as it is made: nothing written, one sender, nobody waiting.
    pub open spec fn fresh() -> Self {
        ChanView { written: false, value: None, live_producers: 1, waiter: None }
    }

    /// What holds of every cell: a value is held only once the write has
    /// happened, and the count of senders fits the machine.
    pub open spec fn wf(self) -> bool {
        &&& self.value is Some ==> self.written
        &&& self.live_producers <= usize::MAX
    }

    /// The write has happened.
    pub open spec fn is_set(self) -> bool {
        self.written
    }

    /// No sender is left.
    pub open spec fn is_dropped(self) -> bool {
        self.live_producers == 0
    }

    /// The cell has reached an end: written, or left by every sender. A
    /// receiver that finds it so completes at once.
    pub open spec fn is_settled(self) -> bool {
        self.is_set() || self.is_dropped()
    }

    /// The cell after an attempt to write `data`: the first attempt stores
    /// the value, any later one changes nothing. The count of senders and
    /// the waiter are as they were either way.
    pub open spec fn set(self, data: T) -> Self {
        if self.written {
            self
        } else {
            ChanView { written: true, value: Some(data), ..self }
        }
    }

    /// What an attempt to write `data` answers: the first succeeds, any
    /// later one gets its own value back.
    pub open spec fn set_reply(self, data: T) -> Result<(), T> {
        if self.written {
            Err(data)
        } else {
            Ok(())
        }
    }

    /// The waiter that an attempt to write has to resume: the registered one
    /// if the attempt succeeds, none if it is rejected.
    pub open spec fn set_wakes(self) -> Option<Arc<Waker>> {
        if self.written {
            None
        } else {
            self.waiter
        }
    }

    /// What taking the value answers: the stored value if the write has
    /// happened and the value is still there.
    pub open spec fn taken(self) -> Option<T> {
        if self.written {
            self.value
        } else {
            None
        }
    }

    /// The cell after its value was taken: empty, and still written.
    pub open spec fn take(self) -> Self {
        ChanView { value: None, ..self }
    }

    /// Whether a waiter can be registered: none is registered yet.
    pub open spec fn accepts_waiter(self) -> bool {
        self.waiter is None
    }

    /// The cell after `w` was offered as the waiter: the first offer is
    /// kept, any later one is ignored.
    pub open spec fn register(self, w: Arc<Waker>) -> Self {
        if self.accepts_waiter() {
            ChanView { waiter: Some(w), ..self }
        } else {
            self
        }
    }

    /// What an offer of `w` as the waiter gives back: nothing if it was
    /// kept, `w` itself if it was ignored.
    pub open spec fn register_reply(self, w: Arc<Waker>) -> Option<Arc<Waker>> {
        if self.accepts_waiter() {
            None
        } else {
            Some(w)
        }
    }

    /// The cell after a sender was cloned: one more is alive. A cell that
    /// every sender has left stays so, and the count stops at `usize::MAX`.
    pub open spec fn add_producer(self) -> Self {
        if 0 < self.live_producers < usize::MAX {
            ChanView { live_producers: self.live_producers + 1, ..self }
        } else {
            self
        }
    }

    /// Whether the sender that goes next is the last, and goes without a
    /// value ever having been written.
    pub open spec fn release_abandons(self) -> bool {
        self.live_producers == 1 && !self.written
    }

    /// The cell after a sender was destroyed: one less is alive, and
    /// nothing else has changed. A count of zero stays zero.
    pub open spec fn release_producer(self) -> Self {
        if self.live_producers == 0 {
            self
        } else {
            ChanView { live_producers: (self.live_producers - 1) as nat, ..self }
        }
    }

    /// The waiter that the destruction of a sender has to resume: the
    /// registered one, if this sender is the last and nothing was written.
    pub open spec fn release_wakes(self) -> Option<Arc<Waker>> {
        if self.release_abandons() {
            self.waiter
        } else {
            None
        }
    }

    /// What the first step of a poll answers: on a settled cell the poll is
    /// complete, with what taking the value gives; on an open cell nothing
    /// yet.
    pub open spec fn poll_ready_reply(self) -> Polled<Option<T>> {
        if self.is_settled() {
            Polled::Ready(self.taken())
        } else {
            Polled::Pending
        }
    }

    /// The cell after the first step of a poll: a settled cell gives up its
    /// value, an open cell is left as it is.
    pub open spec fn poll_ready(self) -> Self {
        if self.is_settled() {
            self.take()
        } else {
            self
        }
    }

    /// The cell after the second step of a poll, which offers `w` as the
    /// waiter and looks again.
    pub open spec fn poll_register(self, w: Arc<Waker>) -> Self {
        self.register(w).poll_ready()
    }

    /// What the second step of a poll answers.
    pub open spec fn poll_register_reply(self, w: Arc<Waker>) -> Polled<Option<T>> {
        self.register(w).poll_ready_reply()
    }
}

/// The cell shared by the handles of one channel.
pub struct Chan<T> {
    written: bool,
    value: Option<T>,
    live_producers: usize,
    waiter: Option<Arc<Waker>>,
}

impl<T> View for Chan<T> {
    type V = ChanView<T>;

    closed spec fn view(&self) -> ChanView<T> {
        ChanView {
            written: self.written,
            value: self.value,
            live_producers: self.live_producers as nat,
            waiter: self.waiter,
        }
    }
}

impl<T> Chan<T> {
    #[verifier::type_invariant]
    spec fn inv(self) -> bool {
        self@.wf()
    }

    /// A new cell: nothing written, one sender, nobody waiting.
    pub fn new() -> (cell: Self)
        ensures
            cell@ == ChanView::<T>::fresh(),
            cell@.wf(),
    {
        Chan { written: false, value: None, live_producers: 1, waiter: None }
    }

    /// A share of the registered waiter, if there is one. The cell keeps
    /// its own.
    fn waiter_share(&self) -> (w: Option<Arc<Waker>>)
        ensures
            w == self@.waiter,
        opens_invariants none
        no_unwind
    {
        match &self.waiter {
            Some(w) => Some(w.clone()),
            None => None,
        }
    }

    /// Attempts the one write. The first call on a cell stores `data` and
    /// hands out a share of the registered waiter, which the caller has to
    /// wake. Every later call leaves the cell as it is and gives `data`
    /// back. The count of senders and the waiter stay as they were.
    pub fn set(&mut self, data: T) -> (r: (Result<(), T>, Option<Arc<Waker>>))
        ensures
            final(self)@ == old(self)@.set(data),
            final(self)@.waiter == old(self)@.waiter,
            final(self)@.live_producers == old(self)@.live_producers,
            final(self)@.wf(),
            r.0 == old(self)@.set_reply(data),
            r.1 == old(self)@.set_wakes(),
    {
        proof {
            use_type_invariant(&*self);
        }
        if self.written {
            return (Err(data), None);
        }
        self.written = true;
        self.value = Some(data);
        (Ok(()), self.waiter_share())
    }

    /// Takes the value out: the stored value if the write has happened and
    /// nobody has taken it yet, nothing otherwise. The cell stays written.
    pub fn take(&mut self) -> (r: Option<T>)
        ensures
            final(self)@ == old(self)@.take(),
            final(self)@.wf(),
            r == old(self)@.taken(),
    {
        proof {
            use_type_invariant(&*self);
        }
        if !self.written {
            return None;
        }
        let mut value: Option<T> = None;
        std::mem::swap(&mut self.value, &mut value);
        value
    }

    /// Whether the write has happened.
    pub fn is_set(&self) -> (r: bool)
        ensures
            r == self@.is_set(),
            self@.wf(),
    {
        proof {
            use_type_invariant(self);
        }
        self.written
    }

    /// Whether every sender has gone.
    pub fn is_dropped(&self) -> (r: bool)
        ensures
            r == self@.is_dropped(),
            self@.wf(),
    {
        proof {
            use_type_invariant(self);
        }
        self.live_producers == 0
    }

    /// Offers `w` as the handle to wake when the cell settles. The first
    /// offer is kept, for as long as the cell lives. Any later one is
    /// ignored and handed back, so that the caller disposes of it.
    pub fn register_waiter(&mut self, w: Arc<Waker>) -> (rejected: Option<Arc<Waker>>)
        ensures
            final(self)@ == old(self)@.register(w),
            final(self)@.wf(),
            rejected == old(self)@.register_reply(w),
    {
        proof {
            use_type_invariant(&*self);
        }
        match &self.waiter {
            Some(_) => Some(w),
            None => {
                self.waiter = Some(w);
                None
            },
        }
    }

    /// Counts one more sender, for a handle that is being cloned.
    pub fn add_producer(&mut self)
        ensures
            final(self)@ == old(self)@.add_producer(),
            final(self)@.wf(),
    {
        proof {
            use_type_invariant(&*self);
        }
        if 0 < self.live_producers && self.live_producers < usize::MAX {
            self.live_producers = self.live_producers + 1;
        }
    }

    /// Counts one sender less, for a handle that is being destroyed, and
    /// changes nothing else. If it was the last and nothing was ever
    /// written, a share of the registered waiter is handed out, and the
    /// caller has to wake it.
    pub fn release_producer(&mut self) -> (wakes: Option<Arc<Waker>>)
        ensures
            final(self)@ == old(self)@.release_producer(),
            final(self)@.written == old(self)@.written,
            final(self)@.value == old(self)@.value,
            final(self)@.waiter == old(self)@.waiter,
            final(self)@.wf(),
            wakes == old(self)@.release_wakes(),
        opens_invariants none
        no_unwind
    {
        proof {
            use_type_invariant(&*self);
        }
        if self.live_producers == 0 {
            return None;
        }
        self.live_producers = self.live_producers - 1;
        if self.live_producers == 0 && !self.written {
            self.waiter_share()
        } else {
            None
        }
    }

    /// The first step of a poll, which registers nothing: on a settled cell
    /// the poll completes with the value, or with nothing if there is none
    /// to take; on an open cell it is pending and the cell is untouched.
    pub fn poll_ready(&mut self) -> (r: Polled<Option<T>>)
        ensures
            final(self)@ == old(self)@.poll_ready(),
            final(self)@.wf(),
            r == old(self)@.poll_ready_reply(),
    {
        proof {
            use_type_invariant(&*self);
        }
        if self.is_set() || self.is_dropped() {
            Polled::Ready(self.take())
        } else {
            Polled::Pending
        }
    }

    /// The second step of a poll: offers `w` as the waiter and looks again,
    /// so that a write or the last sender's departure since the first step
    /// is not missed. The second part of the result is `w` handed back, if
    /// it was not kept.
    pub fn poll_register(&mut self, w: Arc<Waker>) -> (r: (
        Polled<Option<T>>,
        Option<Arc<Waker>>,
    ))
        ensures
            final(self)@ == old(self)@.poll_register(w),
            final(self)@.wf(),
            r.0 == old(self)@.poll_register_reply(w),
            r.1 == old(self)@.register_reply(w),
    {
        let rejected = self.register_waiter(w);
        (self.poll_ready(), rejected)
    }
}

} // verus!
