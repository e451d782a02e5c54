use crate::time::{apply, applicable, runnable, trace, Clock, ClockOp};
use vstd::prelude::*;

verus! {

/// A vector clock owned by node `node_id`: one counter per node.
#[derive(Clone, Debug)]
pub struct VectorClock {
    pub node_id: usize,
    pub time_vector: Vec<i64>,
}

impl View for VectorClock {
    /// The owner's index and the counters.
    type V = (usize, Seq<i64>);

    open spec fn view(&self) -> (usize, Seq<i64>) {
        (self.node_id, self.time_vector@)
    }
}

/// `v` with entry `id` moved forward by one.
pub open spec fn tick_at(v: Seq<i64>, id: int) -> Seq<i64> {
    v.update(id, (v[id] + 1) as i64)
}

/// The element-wise maximum of two vectors of the same length.
pub open spec fn join(a: Seq<i64>, b: Seq<i64>) -> Seq<i64> {
    Seq::new(a.len(), |i: int| if a[i] >= b[i] { a[i] } else { b[i] })
}

/// `a` is component-wise at most `b`.
pub open spec fn dominated(a: Seq<i64>, b: Seq<i64>) -> bool {
    a.len() == b.len() && forall|i: int| 0 <= i < a.len() ==> a[i] <= b[i]
}

/// `a` is component-wise at most `b` and smaller in at least one entry.
pub open spec fn strictly_dominated(a: Seq<i64>, b: Seq<i64>) -> bool {
    dominated(a, b) && exists|i: int| 0 <= i < a.len() && a[i] < b[i]
}

/// `n` zero counters.
pub open spec fn zeros(n: nat) -> Seq<i64> {
    Seq::new(n, |i: int| 0i64)
}

impl Clock<Vec<i64>> for VectorClock {
    open spec fn wf(m: (usize, Seq<i64>)) -> bool {
        m.0 < m.1.len()
    }

    open spec fn stamp(m: (usize, Seq<i64>)) -> Seq<i64> {
        m.1
    }

    open spec fn ticked(m: (usize, Seq<i64>)) -> (usize, Seq<i64>) {
        (m.0, tick_at(m.1, m.0 as int))
    }

    open spec fn merged(m: (usize, Seq<i64>), t: Seq<i64>) -> (usize, Seq<i64>) {
        (m.0, tick_at(join(m.1, t), m.0 as int))
    }

    open spec fn can_tick(m: (usize, Seq<i64>)) -> bool {
        m.1[m.0 as int] < i64::MAX
    }

    open spec fn can_merge(m: (usize, Seq<i64>), t: Seq<i64>) -> bool {
        t.len() == m.1.len() && join(m.1, t)[m.0 as int] < i64::MAX
    }

    /// A local event moves the owner's own entry forward by one.
    fn advance_clock(&mut self) -> (r: Vec<i64>)
        ensures
            strictly_dominated(old(self).time_vector@, r@),
    {
        let id = self.node_id;
        let v = self.time_vector[id] + 1;
        self.time_vector.set(id, v);
        proof {
            assert(self.time_vector@ =~= tick_at(old(self).time_vector@, id as int));
        }
        proof {
            assert(old(self).time_vector@[id as int] < self.time_vector@[id as int]);
        }
        self.time_vector.clone()
    }

    /// On receipt, each entry becomes the larger of the local and the received
    /// entry; the receipt then counts as a local event.
    fn update_clock(&mut self, message_timestamp: &Vec<i64>) -> (r: Vec<i64>)
        ensures
            strictly_dominated(old(self).time_vector@, r@),
            strictly_dominated(message_timestamp@, r@),
    {
        let n = self.time_vector.len();
        let mut i: usize = 0;
        while i < n
            invariant
                n == self.time_vector@.len(),
                n == message_timestamp@.len(),
                n == old(self).time_vector@.len(),
                self.node_id == old(self).node_id,
                0 <= i <= n,
                forall|k: int|
                    0 <= k < i ==> self.time_vector@[k] == join(
                        old(self).time_vector@,
                        message_timestamp@,
                    )[k],
                forall|k: int| i <= k < n ==> self.time_vector@[k] == old(self).time_vector@[k],
            decreases n - i,
        {
            let b = message_timestamp[i];
            if b > self.time_vector[i] {
                self.time_vector.set(i, b);
            }
            i = i + 1;
        }
        proof {
            assert(self.time_vector@ =~= join(old(self).time_vector@, message_timestamp@));
        }
        let r = self.advance_clock();
        proof {
            lemma_vector_merge_dominates(old(self)@, message_timestamp@);
        }
        r
    }

    fn get_clock(&self) -> (r: Vec<i64>) {
        self.time_vector.clone()
    }

    fn tick_fits(&self) -> (r: bool) {
        self.time_vector[self.node_id] < i64::MAX
    }

    fn merge_fits(&self, message_timestamp: &Vec<i64>) -> (r: bool) {
        if message_timestamp.len() != self.time_vector.len() {
            return false;
        }
        let id = self.node_id;
        self.time_vector[id] < i64::MAX && message_timestamp[id] < i64::MAX
    }
}

impl VectorClock {
    /// The clock of node `node_id` in a system of `num_nodes` nodes, all entries
    /// zero. It can record events only if `node_id` is one of the nodes.
    pub fn new(node_id: usize, num_nodes: usize) -> (r: Self)
        ensures
            r@ == (node_id, zeros(num_nodes as nat)),
            Self::wf(r@) <==> node_id < num_nodes,
    {
        let mut time_vector: Vec<i64> = Vec::new();
        let mut i: usize = 0;
        while i < num_nodes
            invariant
                0 <= i <= num_nodes,
                time_vector@ =~= zeros(i as nat),
            decreases num_nodes - i,
        {
            time_vector.push(0);
            i = i + 1;
        }
        Self { node_id, time_vector }
    }
}

/// One operation moves a vector clock forward: no entry decreases and the
/// owner's own entry increases.
pub proof fn lemma_vector_step(m: (usize, Seq<i64>), op: ClockOp<Seq<i64>>)
    requires
        VectorClock::wf(m),
        applicable::<VectorClock, Vec<i64>>(m, op),
    ensures
        VectorClock::wf(apply::<VectorClock, Vec<i64>>(m, op)),
        apply::<VectorClock, Vec<i64>>(m, op).0 == m.0,
        dominated(m.1, apply::<VectorClock, Vec<i64>>(m, op).1),
        m.1[m.0 as int] < apply::<VectorClock, Vec<i64>>(m, op).1[m.0 as int],
{
    match op {
        ClockOp::Advance => {},
        ClockOp::Merge(t) => {
            lemma_vector_merge_dominates(m, t);
        },
    }
}

/// On receipt of timestamp `t`, a vector clock comes to dominate both its own
/// former value and `t`, each strictly: its owner's entry exceeds both.
pub proof fn lemma_vector_merge_dominates(m: (usize, Seq<i64>), t: Seq<i64>)
    requires
        VectorClock::wf(m),
        VectorClock::can_merge(m, t),
    ensures
        VectorClock::wf(VectorClock::merged(m, t)),
        VectorClock::merged(m, t).0 == m.0,
        dominated(m.1, VectorClock::merged(m, t).1),
        dominated(t, VectorClock::merged(m, t).1),
        m.1[m.0 as int] < VectorClock::merged(m, t).1[m.0 as int],
        t[m.0 as int] < VectorClock::merged(m, t).1[m.0 as int],
        strictly_dominated(m.1, VectorClock::merged(m, t).1),
        strictly_dominated(t, VectorClock::merged(m, t).1),
{
    let r = VectorClock::merged(m, t).1;
    let id = m.0 as int;
    assert(m.1[id] < r[id]);
    assert(t[id] < r[id]);
}

/// The states of a vector clock under any run: the first is `m`, and the
/// owner and the number of entries never change.
pub proof fn lemma_vector_trace_shape(m: (usize, Seq<i64>), ops: Seq<ClockOp<Seq<i64>>>)
    requires
        VectorClock::wf(m),
        runnable::<VectorClock, Vec<i64>>(m, ops),
    ensures
        trace::<VectorClock, Vec<i64>>(m, ops).len() == ops.len() + 1,
        trace::<VectorClock, Vec<i64>>(m, ops)[0] == m,
        forall|i: int|
            0 <= i < trace::<VectorClock, Vec<i64>>(m, ops).len() ==> {
                &&& VectorClock::wf(#[trigger] trace::<VectorClock, Vec<i64>>(m, ops)[i])
                &&& trace::<VectorClock, Vec<i64>>(m, ops)[i].0 == m.0
                &&& trace::<VectorClock, Vec<i64>>(m, ops)[i].1.len() == m.1.len()
            },
    decreases ops.len(),
{
    if ops.len() > 0 {
        let m2 = apply::<VectorClock, Vec<i64>>(m, ops[0]);
        let rest = ops.drop_first();
        lemma_vector_step(m, ops[0]);
        lemma_vector_trace_shape(m2, rest);
        let tr = trace::<VectorClock, Vec<i64>>(m, ops);
        let tr2 = trace::<VectorClock, Vec<i64>>(m2, rest);
        assert(tr == seq![m] + tr2);
        assert forall|i: int| 0 <= i < tr.len() implies {
            &&& VectorClock::wf(#[trigger] tr[i])
            &&& tr[i].0 == m.0
            &&& tr[i].1.len() == m.1.len()
        } by {
            if i > 0 {
                assert(tr[i] == tr2[i - 1]);
            }
        }
    }
}

/// Along any run of local events and receipts on one vector clock, no entry
/// ever decreases, and the owner's own entry strictly increases: every value
/// it reads strictly dominates every value it read before.
pub proof fn lemma_vector_monotone(m: (usize, Seq<i64>), ops: Seq<ClockOp<Seq<i64>>>)
    requires
        VectorClock::wf(m),
        runnable::<VectorClock, Vec<i64>>(m, ops),
    ensures
        forall|i: int, j: int|
            0 <= i < j < trace::<VectorClock, Vec<i64>>(m, ops).len() ==> {
                &&& dominated(
                    trace::<VectorClock, Vec<i64>>(m, ops)[i].1,
                    trace::<VectorClock, Vec<i64>>(m, ops)[j].1,
                )
                &&& trace::<VectorClock, Vec<i64>>(m, ops)[i].1[m.0 as int] < trace::<
                    VectorClock,
                    Vec<i64>,
                >(m, ops)[j].1[m.0 as int]
                &&& strictly_dominated(
                    trace::<VectorClock, Vec<i64>>(m, ops)[i].1,
                    trace::<VectorClock, Vec<i64>>(m, ops)[j].1,
                )
            },
    decreases ops.len(),
{
    lemma_vector_trace_shape(m, ops);
    if ops.len() > 0 {
        let m2 = apply::<VectorClock, Vec<i64>>(m, ops[0]);
        let rest = ops.drop_first();
        lemma_vector_step(m, ops[0]);
        lemma_vector_monotone(m2, rest);
        lemma_vector_trace_shape(m2, rest);
        let tr = trace::<VectorClock, Vec<i64>>(m, ops);
        let tr2 = trace::<VectorClock, Vec<i64>>(m2, rest);
        assert(tr == seq![m] + tr2);
        let id = m.0 as int;
        assert forall|i: int, j: int| 0 <= i < j < tr.len() implies {
            &&& dominated(tr[i].1, tr[j].1)
            &&& tr[i].1[id] < tr[j].1[id]
            &&& strictly_dominated(tr[i].1, tr[j].1)
        } by {
            assert(tr[j] == tr2[j - 1]);
            if i == 0 {
                if j > 1 {
                    assert(dominated(tr2[0].1, tr2[j - 1].1));
                    assert(tr2[0].1[id] < tr2[j - 1].1[id]);
                }
            } else {
                assert(tr[i] == tr2[i - 1]);
                assert(dominated(tr2[i - 1].1, tr2[j - 1].1));
                assert(tr2[i - 1].1[id] < tr2[j - 1].1[id]);
            }
            assert(tr[i].1[id] < tr[j].1[id]);
        }
    }
}

/// Strict dominance is transitive, so causality carries along a chain of
/// messages: each hop's stamp strictly dominates the one before.
pub proof fn lemma_strictly_dominated_transitive(a: Seq<i64>, b: Seq<i64>, c: Seq<i64>)
    requires
        strictly_dominated(a, b),
        strictly_dominated(b, c),
    ensures
        strictly_dominated(a, c),
{
    let i = choose|i: int| 0 <= i < a.len() && a[i] < b[i];
    assert(b[i] <= c[i]);
}

/// Causality: once a vector clock has received timestamp `t` (the stamp of an
/// event at the sender), every value it reads from then on strictly dominates
/// `t`, whatever local events and receipts follow.
pub proof fn lemma_vector_causality(
    m: (usize, Seq<i64>),
    t: Seq<i64>,
    ops: Seq<ClockOp<Seq<i64>>>,
)
    requires
        VectorClock::wf(m),
        VectorClock::can_merge(m, t),
        runnable::<VectorClock, Vec<i64>>(VectorClock::merged(m, t), ops),
    ensures
        forall|i: int|
            0 <= i < trace::<VectorClock, Vec<i64>>(VectorClock::merged(m, t), ops).len()
                ==> strictly_dominated(
                t,
                #[trigger] trace::<VectorClock, Vec<i64>>(VectorClock::merged(m, t), ops)[i].1,
            ),
{
    let m2 = VectorClock::merged(m, t);
    lemma_vector_merge_dominates(m, t);
    lemma_vector_monotone(m2, ops);
    lemma_vector_trace_shape(m2, ops);
    let tr = trace::<VectorClock, Vec<i64>>(m2, ops);
    let id = m.0 as int;
    assert forall|i: int| 0 <= i < tr.len() implies strictly_dominated(t, #[trigger] tr[i].1) by {
        if i > 0 {
            assert(dominated(tr[0].1, tr[i].1));
            assert(tr[0].1[id] < tr[i].1[id]);
        }
        assert(dominated(t, tr[i].1));
        assert(t[id] < tr[i].1[id]);
    }
}

} // verus!
