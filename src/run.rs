use crate::data::{decimal, decimal_string};
use crate::lamport::LamportClock;
use crate::time::Clock;
use crate::vector::{zeros, VectorClock};
use vstd::prelude::*;

verus! {

/// A message between nodes: the sender's id, the sender's timestamp, the payload.
pub type Message<T> = (usize, T, String);

/// What a node does in one iteration of its event loop.
#[derive(Clone, Copy, Debug, PartialEq, Eq, Structural)]
pub enum Action {
    LocalEvent,
    Send,
    Idle,
}

/// How many equally likely draws decide an action: one for a local event, one
/// for a send, the rest for idling.
pub const ACTION_DRAWS: usize = 4;

/// The action that a draw in `0..ACTION_DRAWS` selects.
pub open spec fn action_of(draw: usize) -> Action {
    if draw == 0 {
        Action::LocalEvent
    } else if draw == 1 {
        Action::Send
    } else {
        Action::Idle
    }
}

/// Select an action from a uniform draw.
pub fn action_from_draw(draw: usize) -> (a: Action)
    ensures
        a == action_of(draw),
{
    if draw == 0 {
        Action::LocalEvent
    } else if draw == 1 {
        Action::Send
    } else {
        Action::Idle
    }
}

/// The id of the peer in slot `slot` of node `me`'s outbound list, which holds
/// every other node in increasing order of id.
pub open spec fn peer_id(me: int, slot: int) -> int {
    if slot < me {
        slot
    } else {
        slot + 1
    }
}

/// The node id behind slot `slot` of node `node_num`'s peer list.
pub fn peer_of_slot(node_num: usize, num_nodes: usize, slot: usize) -> (r: usize)
    requires
        node_num < num_nodes,
        slot + 1 < num_nodes,
    ensures
        r == peer_id(node_num as int, slot as int),
        r < num_nodes,
        r != node_num,
{
    if slot < node_num {
        slot
    } else {
        slot + 1
    }
}

/// The ids of the peers of node `node_num` among `num_nodes` nodes, in the
/// order in which its outbound handles are laid out.
pub fn peers_of(node_num: usize, num_nodes: usize) -> (r: Vec<usize>)
    requires
        node_num < num_nodes,
    ensures
        r@.len() == num_nodes - 1,
        forall|k: int| 0 <= k < r@.len() ==> r@[k] == peer_id(node_num as int, k),
        forall|j: usize| j < num_nodes && j != node_num ==> #[trigger] r@.contains(j),
        forall|k: int| 0 <= k < r@.len() ==> r@[k] != node_num && r@[k] < num_nodes,
{
    let mut r: Vec<usize> = Vec::new();
    let mut slot: usize = 0;
    while slot + 1 < num_nodes
        invariant
            node_num < num_nodes,
            slot < num_nodes,
            r@.len() == slot,
            forall|k: int| 0 <= k < r@.len() ==> r@[k] == peer_id(node_num as int, k),
        decreases num_nodes - slot,
    {
        let p = peer_of_slot(node_num, num_nodes, slot);
        r.push(p);
        slot = slot + 1;
    }
    assert forall|k: int| 0 <= k < r@.len() implies r@[k] != node_num && r@[k] < num_nodes by {
        assert(r@[k] == peer_id(node_num as int, k));
    }
    assert forall|j: usize| j < num_nodes && j != node_num implies #[trigger] r@.contains(j) by {
        let k: int = if j < node_num { j as int } else { j - 1 };
        assert(0 <= k < r@.len());
        assert(r@[k] == peer_id(node_num as int, k));
        assert(r@[k] == j);
    }
    r
}

/// The clock state after one iteration that took `action` in state `m`: a local
/// event and a send each count as one event; an idle turn changes nothing.
pub open spec fn step_model<C: Clock<T>, T: View>(m: C::V, action: Action) -> C::V {
    if action == Action::Idle {
        m
    } else {
        C::ticked(m)
    }
}

/// The clock state after iterations that took `actions` in turn from state
/// `m`, with no message received in between.
pub open spec fn play<C: Clock<T>, T: View>(m: C::V, actions: Seq<Action>) -> C::V
    decreases actions.len(),
{
    if actions.len() == 0 {
        m
    } else {
        play::<C, T>(step_model::<C, T>(m, actions[0]), actions.drop_first())
    }
}

/// How many of `actions` are local events.
pub open spec fn local_count(actions: Seq<Action>) -> nat
    decreases actions.len(),
{
    if actions.len() == 0 {
        0
    } else {
        (if actions[0] == Action::LocalEvent {
            1nat
        } else {
            0nat
        }) + local_count(actions.drop_first())
    }
}

/// Iterations without sends or receipts add to a vector clock's own entry
/// exactly the number of local events, and leave every other entry alone.
proof fn lemma_vector_quiet_from(id: usize, v: Seq<i64>, actions: Seq<Action>)
    requires
        id < v.len(),
        forall|i: int| 0 <= i < actions.len() ==> actions[i] != Action::Send,
        v[id as int] + local_count(actions) <= i64::MAX,
    ensures
        play::<VectorClock, Vec<i64>>((id, v), actions) == (
            id,
            v.update(id as int, (v[id as int] + local_count(actions)) as i64),
        ),
    decreases actions.len(),
{
    let rest = actions.drop_first();
    if actions.len() == 0 {
        assert(v.update(id as int, v[id as int]) =~= v);
    } else if actions[0] == Action::Idle {
        lemma_vector_quiet_from(id, v, rest);
    } else {
        let w = v.update(id as int, (v[id as int] + 1) as i64);
        lemma_vector_quiet_from(id, w, rest);
        assert(w.update(id as int, (w[id as int] + local_count(rest)) as i64) =~= v.update(
            id as int,
            (v[id as int] + local_count(actions)) as i64,
        ));
    }
}

/// A run in which a node only has local events and idle turns (no sends, so
/// no receipts anywhere) leaves its vector clock with its own entry equal to
/// the number of local events drawn and every other entry at zero.
pub proof fn lemma_vector_quiet_run(id: usize, num_nodes: usize, actions: Seq<Action>)
    requires
        id < num_nodes,
        forall|i: int| 0 <= i < actions.len() ==> actions[i] != Action::Send,
        local_count(actions) <= i64::MAX,
    ensures
        play::<VectorClock, Vec<i64>>((id, zeros(num_nodes as nat)), actions) == (
            id,
            zeros(num_nodes as nat).update(id as int, local_count(actions) as i64),
        ),
{
    lemma_vector_quiet_from(id, zeros(num_nodes as nat), actions);
}

/// Iterations without sends or receipts move a Lamport clock forward by
/// exactly the number of local events.
proof fn lemma_lamport_quiet_from(m: i64, actions: Seq<Action>)
    requires
        forall|i: int| 0 <= i < actions.len() ==> actions[i] != Action::Send,
        m + local_count(actions) <= i64::MAX,
    ensures
        play::<LamportClock, i64>(m, actions) == m + local_count(actions),
    decreases actions.len(),
{
    if actions.len() > 0 {
        let rest = actions.drop_first();
        if actions[0] == Action::Idle {
            lemma_lamport_quiet_from(m, rest);
        } else {
            lemma_lamport_quiet_from((m + 1) as i64, rest);
        }
    }
}

/// A run in which a node only has local events and idle turns leaves its
/// Lamport clock at the number of local events drawn.
pub proof fn lemma_lamport_quiet_run(actions: Seq<Action>)
    requires
        forall|i: int| 0 <= i < actions.len() ==> actions[i] != Action::Send,
        local_count(actions) <= i64::MAX,
    ensures
        play::<LamportClock, i64>(0, actions) == local_count(actions),
{
    lemma_lamport_quiet_from(0, actions);
}

/// What one iteration of a node's event loop produced.
#[derive(Debug)]
pub enum Outcome<T> {
    /// A local event, stamped `time`.
    Local { time: T },
    /// A message to be delivered to node `to`.
    Sent { to: usize, message: Message<T> },
    /// Nothing happened; the clock reads `time`.
    Idle { time: T },
}

/// One iteration of node `node_num`'s event loop, with its random choices
/// given: the action, and for a send the slot of the receiving peer.
pub fn event_step<C: Clock<T>, T: View>(
    clock: &mut C,
    node_num: usize,
    num_nodes: usize,
    iteration: usize,
    action: Action,
    slot: usize,
) -> (r: Outcome<T>)
    requires
        C::wf(old(clock)@),
        node_num < num_nodes,
        action != Action::Idle ==> C::can_tick(old(clock)@),
        action == Action::Send ==> slot + 1 < num_nodes,
    ensures
        C::wf(final(clock)@),
        final(clock)@ == step_model::<C, T>(old(clock)@, action),
        match action {
            Action::LocalEvent => {
                &&& final(clock)@ == C::ticked(old(clock)@)
                &&& r matches Outcome::Local { time }
                &&& time@ == C::stamp(final(clock)@)
            },
            Action::Send => {
                &&& final(clock)@ == C::ticked(old(clock)@)
                &&& r matches Outcome::Sent { to, message }
                &&& to == peer_id(node_num as int, slot as int)
                &&& message.0 == node_num
                &&& message.1@ == C::stamp(final(clock)@)
                &&& message.2@ == decimal(iteration as nat)
            },
            Action::Idle => {
                &&& final(clock)@ == old(clock)@
                &&& r matches Outcome::Idle { time }
                &&& time@ == C::stamp(old(clock)@)
            },
        },
{
    match action {
        Action::LocalEvent => {
            let time = clock.advance_clock();
            Outcome::Local { time }
        },
        Action::Send => {
            let time = clock.advance_clock();
            let to = peer_of_slot(node_num, num_nodes, slot);
            Outcome::Sent { to, message: (node_num, time, decimal_string(iteration)) }
        },
        Action::Idle => {
            let time = clock.get_clock();
            Outcome::Idle { time }
        },
    }
}

/// Relies on `rand::random_range`: a value drawn from `0..n`, which is
/// non-empty (the function panics on an empty range).
#[verifier::external_body]
fn random_below(n: usize) -> (r: usize)
    requires
        n > 0,
    ensures
        r < n,
{
    rand::random_range(0..n)
}

/// One iteration of node `node_num`'s event loop with its choices drawn at
/// random: a local event or a send with probability one in four each, an idle
/// turn otherwise, and for a send a peer drawn uniformly.
pub fn next_step<C: Clock<T>, T: View>(
    clock: &mut C,
    node_num: usize,
    num_nodes: usize,
    iteration: usize,
) -> (r: Outcome<T>)
    requires
        C::wf(old(clock)@),
        C::can_tick(old(clock)@),
        node_num < num_nodes,
        2 <= num_nodes,
    ensures
        C::wf(final(clock)@),
        r is Idle ==> final(clock)@ == old(clock)@ && r->Idle_time@ == C::stamp(old(clock)@),
        r is Local ==> final(clock)@ == C::ticked(old(clock)@) && r->Local_time@ == C::stamp(
            final(clock)@,
        ),
        r matches Outcome::Sent { to, message } ==> {
            &&& final(clock)@ == C::ticked(old(clock)@)
            &&& to < num_nodes
            &&& to != node_num
            &&& message.0 == node_num
            &&& message.1@ == C::stamp(final(clock)@)
            &&& message.2@ == decimal(iteration as nat)
        },
{
    let action = action_from_draw(random_below(ACTION_DRAWS));
    let slot = if action == Action::Send {
        random_below(num_nodes - 1)
    } else {
        0
    };
    event_step(clock, node_num, num_nodes, iteration, action, slot)
}

/// The listener's handling of one received message: returns the clock's
/// reading before the merge and the timestamp that the merge produced.
pub fn on_receive<C: Clock<T>, T: View>(clock: &mut C, message: &Message<T>) -> (r: (T, T))
    requires
        C::wf(old(clock)@),
        C::can_merge(old(clock)@, message.1@),
    ensures
        C::wf(final(clock)@),
        final(clock)@ == C::merged(old(clock)@, message.1@),
        r.0@ == C::stamp(old(clock)@),
        r.1@ == C::stamp(final(clock)@),
{
    let before = clock.get_clock();
    let after = clock.update_clock(&message.1);
    (before, after)
}

} // verus!
