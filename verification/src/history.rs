//! Histories: what holds of a cell after any sequence of operations, in
//! whatever order the handles of a channel happened to get the lock.
//!
//! A history is a sequence of [`Op`]s. Each stands for one transition of
//! [`Chan`](crate::chan::Chan), by the same spec functions that the
//! transition's contract uses, so what is proved here of histories is proved
//! of the cell that the handles share.

use vstd::prelude::*;
use std::sync::Arc;
use std::task::Waker;
use crate::chan::{ChanView, Polled};

verus! {

/// One operation on a cell.
pub enum Op<T> {
    /// [`Chan::set`](crate::chan::Chan::set) with this value.
    Send(T),
    /// [`Chan::take`](crate::chan::Chan::take).
    Take,
    /// [`Chan::register_waiter`](crate::chan::Chan::register_waiter) with
    /// this handle.
    RegisterWaiter(Arc<Waker>),
    /// [`Chan::add_producer`](crate::chan::Chan::add_producer).
    AddProducer,
    /// [`Chan::release_producer`](crate::chan::Chan::release_producer).
    ReleaseProducer,
    /// [`Chan::poll_ready`](crate::chan::Chan::poll_ready).
    PollReady,
    /// [`Chan::poll_register`](crate::chan::Chan::poll_register) with this
    /// handle.
    PollRegister(Arc<Waker>),
}

impl<T> ChanView<T> {
    /// The cell after one operation.
    pub open spec fn step(self, op: Op<T>) -> Self {
        match op {
            Op::Send(data) => self.set(data),
            Op::Take => self.take(),
            Op::RegisterWaiter(w) => self.register(w),
            Op::AddProducer => self.add_producer(),
            Op::ReleaseProducer => self.release_producer(),
            Op::PollReady => self.poll_ready(),
            Op::PollRegister(w) => self.poll_register(w),
        }
    }

    /// The cell after the first `n` operations of `ops`.
    pub open spec fn after(self, ops: Seq<Op<T>>, n: nat) -> Self
        decreases n,
    {
        if n == 0 {
            self
        } else {
            self.after(ops, (n - 1) as nat).step(ops[n - 1])
        }
    }

    /// Whether `op`, run on this cell, is a send that succeeds.
    pub open spec fn accepts(self, op: Op<T>) -> bool {
        match op {
            Op::Send(data) => self.set_reply(data) is Ok,
            _ => false,
        }
    }

    /// The value that `op`, run on this cell, hands to the receiving side.
    pub open spec fn delivers(self, op: Op<T>) -> Option<T> {
        match op {
            Op::Take => self.taken(),
            Op::PollReady => match self.poll_ready_reply() {
                Polled::Ready(v) => v,
                Polled::Pending => None,
            },
            Op::PollRegister(w) => match self.poll_register_reply(w) {
                Polled::Ready(v) => v,
                Polled::Pending => None,
            },
            _ => None,
        }
    }

    /// Whether `op`, run on this cell, completes a poll.
    pub open spec fn completes(self, op: Op<T>) -> bool {
        match op {
            Op::PollReady => self.poll_ready_reply() is Ready,
            Op::PollRegister(w) => self.poll_register_reply(w) is Ready,
            _ => false,
        }
    }

    /// Whether `op`, run on this cell, registers the handle it brings.
    pub open spec fn registers(self, op: Op<T>) -> bool {
        match op {
            Op::RegisterWaiter(_) => self.accepts_waiter(),
            Op::PollRegister(_) => self.accepts_waiter(),
            _ => false,
        }
    }

    /// The waiter that `op`, run on this cell, hands out to be woken.
    pub open spec fn wakes(self, op: Op<T>) -> Option<Arc<Waker>> {
        match op {
            Op::Send(_) => self.set_wakes(),
            Op::ReleaseProducer => self.release_wakes(),
            _ => None,
        }
    }
}

/// Whether `op` may take the value out of a cell.
pub open spec fn consumes<T>(op: Op<T>) -> bool {
    op is Take || op is PollReady || op is PollRegister
}

/// Every operation keeps a cell well formed.
pub proof fn lemma_step_wf<T>(s: ChanView<T>, op: Op<T>)
    requires
        s.wf(),
    ensures
        s.step(op).wf(),
{
}

/// A cell stays well formed through any history.
pub proof fn lemma_after_wf<T>(s: ChanView<T>, ops: Seq<Op<T>>, n: nat)
    requires
        s.wf(),
        n <= ops.len(),
    ensures
        s.after(ops, n).wf(),
    decreases n,
{
    if n > 0 {
        lemma_after_wf(s, ops, (n - 1) as nat);
        lemma_step_wf(s.after(ops, (n - 1) as nat), ops[n - 1]);
    }
}

/// What has happened stays so: a written cell stays written, a cell that
/// every sender has left stays left, and a cell whose value was taken stays
/// empty.
pub proof fn lemma_settled_stays<T>(s: ChanView<T>, ops: Seq<Op<T>>, i: nat, j: nat)
    requires
        s.wf(),
        i <= j <= ops.len(),
    ensures
        s.after(ops, i).written ==> s.after(ops, j).written,
        s.after(ops, i).is_dropped() ==> s.after(ops, j).is_dropped(),
        s.after(ops, i).is_settled() ==> s.after(ops, j).is_settled(),
        s.after(ops, i).written && s.after(ops, i).value is None ==> s.after(ops, j).value
            is None,
    decreases j,
{
    if i < j {
        lemma_settled_stays(s, ops, i, (j - 1) as nat);
        lemma_after_wf(s, ops, (j - 1) as nat);
    }
}

/// A registered waiter stays registered, and stays the same, whatever
/// happens to the cell: no operation clears or replaces it.
pub proof fn lemma_waiter_stays<T>(s: ChanView<T>, ops: Seq<Op<T>>, i: nat, j: nat)
    requires
        i <= j <= ops.len(),
        s.after(ops, i).waiter is Some,
    ensures
        s.after(ops, j).waiter == s.after(ops, i).waiter,
    decreases j,
{
    if i < j {
        lemma_waiter_stays(s, ops, i, (j - 1) as nat);
    }
}

/// While no send is made, a cell that was not written stays so.
pub proof fn lemma_unwritten_without_send<T>(s: ChanView<T>, ops: Seq<Op<T>>, n: nat)
    requires
        !s.written,
        n <= ops.len(),
        forall|k: int| 0 <= k < n ==> !(#[trigger] ops[k] is Send),
    ensures
        !s.after(ops, n).written,
    decreases n,
{
    if n > 0 {
        lemma_unwritten_without_send(s, ops, (n - 1) as nat);
    }
}

/// Write-once, first part: of the sends in a history at most one succeeds.
/// If the operation at `i` is a send that succeeds, then no later operation
/// is.
pub proof fn lemma_write_once<T>(s: ChanView<T>, ops: Seq<Op<T>>, i: nat, j: nat)
    requires
        s.wf(),
        i < j < ops.len(),
        s.after(ops, i).accepts(ops[i as int]),
    ensures
        !s.after(ops, j).accepts(ops[j as int]),
{
    assert(s.after(ops, i + 1) == s.after(ops, i).step(ops[i as int]));
    lemma_settled_stays(s, ops, i + 1, j);
}

/// Write-once, second part: on a cell that was not written, the first send
/// of a history succeeds. With [`lemma_write_once`]: exactly one send
/// succeeds, and it is the first.
pub proof fn lemma_first_send_wins<T>(s: ChanView<T>, ops: Seq<Op<T>>, i: nat)
    requires
        !s.written,
        i < ops.len(),
        ops[i as int] is Send,
        forall|k: int| 0 <= k < i ==> !(#[trigger] ops[k] is Send),
    ensures
        s.after(ops, i).accepts(ops[i as int]),
{
    lemma_unwritten_without_send(s, ops, i);
}

/// Write-once, third part: a send that does not succeed gets its own value
/// back and leaves the cell as it was, and hands out no waiter.
pub proof fn lemma_rejected_send<T>(s: ChanView<T>, ops: Seq<Op<T>>, i: nat, data: T)
    requires
        i < ops.len(),
        ops[i as int] == Op::Send(data),
        !s.after(ops, i).accepts(ops[i as int]),
    ensures
        s.after(ops, i).set_reply(data) == Err::<(), T>(data),
        s.after(ops, i).set_wakes() is None,
        s.after(ops, i + 1) == s.after(ops, i),
{
    assert(s.after(ops, i + 1) == s.after(ops, i).step(ops[i as int]));
}

/// The send that succeeds marks the cell written and stores its value, and
/// changes nothing else: the count of senders and the waiter are as they
/// were. The waiter it hands out to be woken is the registered one.
pub proof fn lemma_accepted_send<T>(s: ChanView<T>, ops: Seq<Op<T>>, i: nat, data: T)
    requires
        i < ops.len(),
        ops[i as int] == Op::Send(data),
        s.after(ops, i).accepts(ops[i as int]),
    ensures
        s.after(ops, i).set_reply(data) == Ok::<(), T>(()),
        s.after(ops, i + 1).written,
        s.after(ops, i + 1).value == Some(data),
        s.after(ops, i + 1).live_producers == s.after(ops, i).live_producers,
        s.after(ops, i + 1).waiter == s.after(ops, i).waiter,
        s.after(ops, i).wakes(ops[i as int]) == s.after(ops, i).waiter,
{
    assert(s.after(ops, i + 1) == s.after(ops, i).step(ops[i as int]));
}

/// The departure of a sender lowers the count by one and changes nothing
/// else: what was written, the value and the waiter are as they were. The
/// cell is left by all exactly if that sender was the last.
pub proof fn lemma_departure<T>(s: ChanView<T>, ops: Seq<Op<T>>, i: nat)
    requires
        i < ops.len(),
        ops[i as int] is ReleaseProducer,
        s.after(ops, i).live_producers >= 1,
    ensures
        s.after(ops, i + 1).live_producers == s.after(ops, i).live_producers - 1,
        s.after(ops, i + 1).is_dropped() <==> s.after(ops, i).live_producers == 1,
        s.after(ops, i + 1).written == s.after(ops, i).written,
        s.after(ops, i + 1).value == s.after(ops, i).value,
        s.after(ops, i + 1).waiter == s.after(ops, i).waiter,
{
    assert(s.after(ops, i + 1) == s.after(ops, i).step(ops[i as int]));
}

/// While nothing takes it, the value of a written cell stays where it is,
/// whatever else happens: further sends, senders that come and go, a
/// waiter that is offered.
pub proof fn lemma_value_kept<T>(s: ChanView<T>, ops: Seq<Op<T>>, i: nat, j: nat)
    requires
        s.wf(),
        i <= j <= ops.len(),
        s.after(ops, i).written,
        forall|k: int| i <= k < j ==> !consumes(#[trigger] ops[k]),
    ensures
        s.after(ops, j).written,
        s.after(ops, j).value == s.after(ops, i).value,
    decreases j,
{
    if i < j {
        lemma_value_kept(s, ops, i, (j - 1) as nat);
        assert(!consumes(ops[j - 1]));
    }
}

/// The value that was sent is the value that is received. If the send at
/// `i` succeeds with `data`, then the first operation after it that may take
/// the value, a take or either step of a poll, hands out `data`. This holds
/// also when every sender has gone meanwhile: a write counts for more than
/// the departure of the last sender.
pub proof fn lemma_delivers_sent_value<T>(
    s: ChanView<T>,
    ops: Seq<Op<T>>,
    i: nat,
    j: nat,
    data: T,
)
    requires
        s.wf(),
        i < j < ops.len(),
        ops[i as int] == Op::Send(data),
        s.after(ops, i).accepts(ops[i as int]),
        forall|k: int| i < k < j ==> !consumes(#[trigger] ops[k]),
        consumes(ops[j as int]),
    ensures
        s.after(ops, j).delivers(ops[j as int]) == Some(data),
        ops[j as int] is Take || s.after(ops, j).completes(ops[j as int]),
{
    assert(s.after(ops, i + 1) == s.after(ops, i).step(ops[i as int]));
    lemma_after_wf(s, ops, i);
    lemma_value_kept(s, ops, i + 1, j);
}

/// A write counts for more than abandonment, in whichever order the two
/// come. On a cell that was not written and has at most one sender left,
/// a write followed by that sender's departure, and the departure followed
/// by a write, both leave a cell that is written and left by all, and a
/// poll of it completes with the value, not with `None`.
pub proof fn lemma_write_beats_abandonment<T>(s: ChanView<T>, data: T, w: Arc<Waker>)
    requires
        s.wf(),
        !s.written,
        s.live_producers <= 1,
    ensures
        s.set(data).release_producer().is_dropped(),
        s.set(data).release_producer().poll_ready_reply() == Polled::Ready(Some(data)),
        s.set(data).release_producer().poll_register_reply(w) == Polled::Ready(Some(data)),
        s.release_producer().set(data).is_dropped(),
        s.release_producer().set(data).poll_ready_reply() == Polled::Ready(Some(data)),
        s.release_producer().set(data).poll_register_reply(w) == Polled::Ready(Some(data)),
{
}

/// A poll of a cell that is written, still holds its value `data`, and has
/// no sender left completes with `Some(data)` at its first step, and so
/// would its second step: never with `None`, and never pending.
pub proof fn lemma_poll_of_written_and_left_cell<T>(s: ChanView<T>, data: T, w: Arc<Waker>)
    requires
        s.wf(),
        s.written,
        s.value == Some(data),
        s.is_dropped(),
    ensures
        s.poll_ready_reply() == Polled::Ready(Some(data)),
        s.poll_register_reply(w) == Polled::Ready(Some(data)),
{
}

/// A poll of a cell that was never written and has no sender left completes
/// with `None` at its first step, and so would its second step: it is never
/// pending, whether a waiter is registered or not. The cell stays unwritten
/// and empty.
pub proof fn lemma_poll_of_abandoned_cell<T>(s: ChanView<T>, w: Arc<Waker>)
    requires
        s.wf(),
        !s.written,
        s.is_dropped(),
    ensures
        s.poll_ready_reply() == Polled::Ready(None::<T>),
        s.poll_register_reply(w) == Polled::Ready(None::<T>),
        !s.poll_ready().written && s.poll_ready().value is None,
        !s.poll_register(w).written && s.poll_register(w).value is None,
{
}

/// The value is received once. If the operation at `i` hands out a value,
/// then no later operation does: every later take answers `None`, and every
/// later poll completes with `None`.
pub proof fn lemma_delivered_once<T>(s: ChanView<T>, ops: Seq<Op<T>>, i: nat, j: nat)
    requires
        s.wf(),
        i < j < ops.len(),
        s.after(ops, i).delivers(ops[i as int]) is Some,
    ensures
        s.after(ops, j).delivers(ops[j as int]) is None,
        ops[j as int] is PollReady ==> s.after(ops, j).poll_ready_reply() == Polled::Ready(
            None::<T>,
        ),
        ops[j as int] matches Op::PollRegister(w) ==> s.after(ops, j).poll_register_reply(w)
            == Polled::Ready(None::<T>),
{
    assert(s.after(ops, i + 1) == s.after(ops, i).step(ops[i as int]));
    lemma_after_wf(s, ops, i);
    lemma_settled_stays(s, ops, i + 1, j);
}

/// A channel that every sender has left without a send answers `None`. If
/// the cell was not written, no send is among the first `m` operations, and
/// after `n` of them no sender is alive, then a poll at `m` completes at its
/// first step with `None`, and so would its second step.
pub proof fn lemma_abandoned_is_absent<T>(
    s: ChanView<T>,
    ops: Seq<Op<T>>,
    n: nat,
    m: nat,
    w: Arc<Waker>,
)
    requires
        s.wf(),
        !s.written,
        n <= m <= ops.len(),
        forall|k: int| 0 <= k < m ==> !(#[trigger] ops[k] is Send),
        s.after(ops, n).is_dropped(),
    ensures
        s.after(ops, m).poll_ready_reply() == Polled::Ready(None::<T>),
        s.after(ops, m).poll_register_reply(w) == Polled::Ready(None::<T>),
        s.after(ops, m).taken() == None::<T>,
{
    lemma_unwritten_without_send(s, ops, m);
    lemma_settled_stays(s, ops, n, m);
}

/// No wake-up is lost. If a waiter is registered on an open cell after `i`
/// operations and the cell is settled after `j`, then one of the operations
/// in between handed that waiter out to be woken: the send that succeeded,
/// or the departure of the last sender.
pub proof fn lemma_waiter_is_woken<T>(
    s: ChanView<T>,
    ops: Seq<Op<T>>,
    i: nat,
    j: nat,
    w: Arc<Waker>,
)
    requires
        s.wf(),
        i <= j <= ops.len(),
        s.after(ops, i).waiter == Some(w),
        !s.after(ops, i).is_settled(),
        s.after(ops, j).is_settled(),
    ensures
        exists|k: int| i <= k < j && #[trigger] s.after(ops, k as nat).wakes(ops[k]) == Some(w),
    decreases j - i,
{
    assert(i < j);
    assert(s.after(ops, i + 1) == s.after(ops, i).step(ops[i as int]));
    if s.after(ops, i).wakes(ops[i as int]) == Some(w) {
    } else {
        assert(s.after(ops, i + 1).waiter == Some(w));
        assert(!s.after(ops, i + 1).is_settled());
        lemma_waiter_is_woken(s, ops, i + 1, j, w);
    }
}

/// A waiter is woken once. If the operation at `i` hands out a waiter, then
/// no later departure does, and no later send does unless it is a first
/// write to a cell that every sender has left already. No handle can make
/// such a write, since it takes a live sender to send: so of the operations
/// that the handles of a channel run, at most one wakes.
pub proof fn lemma_wakes_once<T>(s: ChanView<T>, ops: Seq<Op<T>>, i: nat, j: nat)
    requires
        s.wf(),
        i < j < ops.len(),
        s.after(ops, i).wakes(ops[i as int]) is Some,
    ensures
        s.after(ops, j).wakes(ops[j as int]) is Some ==> ops[j as int] is Send && s.after(
            ops,
            j,
        ).is_dropped(),
{
    assert(s.after(ops, i + 1) == s.after(ops, i).step(ops[i as int]));
    lemma_after_wf(s, ops, i);
    lemma_settled_stays(s, ops, i + 1, j);
}

/// After the write nobody is woken again: once a send has succeeded, no
/// later operation hands out a waiter, whether a further send or the
/// departure of the last sender.
pub proof fn lemma_no_wake_after_write<T>(s: ChanView<T>, ops: Seq<Op<T>>, i: nat, j: nat)
    requires
        s.wf(),
        i <= j < ops.len(),
        s.after(ops, i).written,
    ensures
        s.after(ops, j).wakes(ops[j as int]) is None,
{
    lemma_settled_stays(s, ops, i, j);
}

/// A waiter is registered at most once. If the operation at `i` registers
/// the handle it brings, then no later operation does: later offers are
/// handed back, and the cell keeps the first.
pub proof fn lemma_registers_once<T>(s: ChanView<T>, ops: Seq<Op<T>>, i: nat, j: nat)
    requires
        i < j < ops.len(),
        s.after(ops, i).registers(ops[i as int]),
    ensures
        !s.after(ops, j).registers(ops[j as int]),
        s.after(ops, j).waiter == s.after(ops, i + 1).waiter,
{
    assert(s.after(ops, i + 1) == s.after(ops, i).step(ops[i as int]));
    lemma_waiter_stays(s, ops, i + 1, j);
}

/// A poll of a cell that holds a value `data` completes with `Some(data)` at
/// its first step, however many senders are alive. That step takes the
/// value and touches nothing else: where no waiter was registered none is
/// afterwards, so the poll has stored no handle and waits for no wake-up.
pub proof fn lemma_poll_of_written_cell<T>(s: ChanView<T>, data: T)
    requires
        s.wf(),
        s.value == Some(data),
    ensures
        s.poll_ready_reply() == Polled::Ready(Some(data)),
        s.poll_ready().written && s.poll_ready().value is None,
        s.poll_ready().waiter == s.waiter,
        s.waiter is None ==> s.poll_ready().waiter is None,
        s.poll_ready().live_producers == s.live_producers,
        s.wakes(Op::PollReady) is None,
{
}

/// The fast path. A poll of a settled cell completes at its first step, with
/// the value if one is there. That step registers nothing and wakes nobody:
/// the waiter is as it was, so where none was registered none is, and the
/// poll neither needs nor waits for a wake-up.
pub proof fn lemma_fast_path<T>(s: ChanView<T>)
    requires
        s.wf(),
        s.is_settled(),
    ensures
        s.poll_ready_reply() == Polled::Ready(s.value),
        s.poll_ready().waiter == s.waiter,
        s.poll_ready().live_producers == s.live_producers,
        s.wakes(Op::PollReady) is None,
        !s.registers(Op::PollReady),
{
}

} // verus!
