use crate::time::{apply, runnable, trace, Clock, ClockOp};
use vstd::prelude::*;

verus! {

/// A Lamport clock: one counter, starting at 0.
#[derive(Clone, Copy, Debug)]
pub struct LamportClock {
    pub time: i64,
}

impl View for LamportClock {
    type V = i64;

    open spec fn view(&self) -> i64 {
        self.time
    }
}

/// The larger of two counter values.
pub open spec fn max_time(a: i64, b: i64) -> i64 {
    if a >= b { a } else { b }
}

impl Clock<i64> for LamportClock {
    open spec fn wf(m: i64) -> bool {
        true
    }

    open spec fn stamp(m: i64) -> i64 {
        m
    }

    open spec fn ticked(m: i64) -> i64 {
        (m + 1) as i64
    }

    open spec fn merged(m: i64, t: i64) -> i64 {
        (max_time(m, t) + 1) as i64
    }

    open spec fn can_tick(m: i64) -> bool {
        m < i64::MAX
    }

    open spec fn can_merge(m: i64, t: i64) -> bool {
        max_time(m, t) < i64::MAX
    }

    /// Whenever an event occurs on this node, the counter moves forward by one.
    fn advance_clock(&mut self) -> (r: i64)
        ensures
            r > old(self).time,
    {
        self.time = self.time + 1;
        self.time
    }

    /// On receipt, the counter first catches up with the message's timestamp,
    /// then counts the receipt itself as an event.
    fn update_clock(&mut self, message_timestamp: &i64) -> (r: i64)
        ensures
            r > old(self).time,
            r > *message_timestamp,
    {
        if *message_timestamp > self.time {
            self.time = *message_timestamp;
        }
        self.advance_clock()
    }

    fn get_clock(&self) -> (r: i64) {
        self.time
    }

    fn tick_fits(&self) -> (r: bool) {
        self.time < i64::MAX
    }

    fn merge_fits(&self, message_timestamp: &i64) -> (r: bool) {
        self.time < i64::MAX && *message_timestamp < i64::MAX
    }
}

impl LamportClock {
    /// A clock that has seen no event.
    pub fn new() -> (r: Self)
        ensures
            r@ == 0,
            Self::wf(r@),
    {
        Self { time: 0 }
    }
}

/// The states of a Lamport clock under any run of local events and
/// receipts: the first is `m`, the last is the state after all of `ops`.
pub proof fn lemma_lamport_trace_shape(m: i64, ops: Seq<ClockOp<i64>>)
    ensures
        trace::<LamportClock, i64>(m, ops).len() == ops.len() + 1,
        trace::<LamportClock, i64>(m, ops)[0] == m,
    decreases ops.len(),
{
    if ops.len() > 0 {
        lemma_lamport_trace_shape(apply::<LamportClock, i64>(m, ops[0]), ops.drop_first());
    }
}

/// Along any run of local events and receipts on one Lamport clock, every
/// value it reads is strictly greater than every value it read before.
pub proof fn lemma_lamport_monotone(m: i64, ops: Seq<ClockOp<i64>>)
    requires
        LamportClock::wf(m),
        runnable::<LamportClock, i64>(m, ops),
    ensures
        forall|i: int, j: int|
            0 <= i < j < trace::<LamportClock, i64>(m, ops).len() ==> trace::<LamportClock, i64>(
                m,
                ops,
            )[i] < trace::<LamportClock, i64>(m, ops)[j],
    decreases ops.len(),
{
    lemma_lamport_trace_shape(m, ops);
    if ops.len() > 0 {
        let m2 = apply::<LamportClock, i64>(m, ops[0]);
        let rest = ops.drop_first();
        lemma_lamport_monotone(m2, rest);
        lemma_lamport_trace_shape(m2, rest);
        let tr = trace::<LamportClock, i64>(m, ops);
        let tr2 = trace::<LamportClock, i64>(m2, rest);
        assert(tr == seq![m] + tr2);
        assert(m < m2);
        assert forall|i: int, j: int| 0 <= i < j < tr.len() implies tr[i] < tr[j] by {
            if i == 0 {
                if j > 1 {
                    assert(tr2[0] < tr2[j - 1]);
                }
            } else {
                assert(tr2[i - 1] < tr2[j - 1]);
            }
        }
    }
}

/// On receipt of timestamp `t`, a Lamport clock moves past both its own value
/// and `t`.
pub proof fn lemma_lamport_merge_dominates(m: i64, t: i64)
    requires
        LamportClock::wf(m),
        LamportClock::can_merge(m, t),
    ensures
        LamportClock::merged(m, t) > m,
        LamportClock::merged(m, t) > t,
{
}

/// Causality: once a Lamport clock has received timestamp `t` (the time of an
/// event at the sender), every value it reads from then on, whatever local
/// events and receipts follow, is strictly greater than `t`.
pub proof fn lemma_lamport_causality(m: i64, t: i64, ops: Seq<ClockOp<i64>>)
    requires
        LamportClock::wf(m),
        LamportClock::can_merge(m, t),
        runnable::<LamportClock, i64>(LamportClock::merged(m, t), ops),
    ensures
        forall|i: int|
            0 <= i < trace::<LamportClock, i64>(LamportClock::merged(m, t), ops).len() ==> t
                < trace::<LamportClock, i64>(LamportClock::merged(m, t), ops)[i],
{
    let m2 = LamportClock::merged(m, t);
    lemma_lamport_monotone(m2, ops);
    lemma_lamport_trace_shape(m2, ops);
    let tr = trace::<LamportClock, i64>(m2, ops);
    assert forall|i: int| 0 <= i < tr.len() implies t < tr[i] by {
        if i > 0 {
            assert(tr[0] < tr[i]);
        }
    }
}

} // verus!
