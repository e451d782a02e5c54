use crate::time::Clock;
use vstd::prelude::*;

verus! {

/// The decimal digit `d` (below ten) as a character.
pub open spec fn digit(d: nat) -> char {
    seq!['0', '1', '2', '3', '4', '5', '6', '7', '8', '9'][d as int]
}

/// The decimal notation of `n`, without sign or leading zeros.
pub open spec fn decimal(n: nat) -> Seq<char>
    decreases n,
{
    if n < 10 {
        seq![digit(n)]
    } else {
        decimal(n / 10).push(digit(n % 10))
    }
}

/// Relies on `ToString` for `usize`, which goes through its `Display`: the
/// decimal notation of the number.
#[verifier::external_body]
pub(crate) fn decimal_string(n: usize) -> (r: String)
    ensures
        r@ == decimal(n as nat),
{
    n.to_string()
}

/// A timestamped payload of the producer/consumer topology, where all parties
/// share one scalar clock.
#[derive(Clone, Debug)]
pub struct Message {
    pub time: i64,
    pub data: String,
}

/// Stamp `data` with a fresh local event of `clock`, ready to be sent.
pub fn stamp_payload<C: Clock<i64>>(clock: &mut C, data: String) -> (m: Message)
    requires
        C::wf(old(clock)@),
        C::can_tick(old(clock)@),
    ensures
        C::wf(final(clock)@),
        final(clock)@ == C::ticked(old(clock)@),
        m.time == C::stamp(final(clock)@),
        m.data == data,
{
    let time = clock.advance_clock();
    Message { time, data }
}

/// Merge the timestamp of a received message into `clock`; returns the new time.
pub fn accept_message<C: Clock<i64>>(clock: &mut C, message: &Message) -> (r: i64)
    requires
        C::wf(old(clock)@),
        C::can_merge(old(clock)@, message.time),
    ensures
        C::wf(final(clock)@),
        final(clock)@ == C::merged(old(clock)@, message.time),
        r == C::stamp(final(clock)@),
{
    clock.update_clock(&message.time)
}

/// The payload source of the producers: the numbers one to nine, in order.
#[derive(Clone, Copy, Debug)]
pub struct SimpleGenerator;

/// How many payloads a producer emits.
pub const PAYLOAD_COUNT: usize = 9;

impl SimpleGenerator {
    /// The payloads in the order in which they are emitted: "1" to "9".
    pub fn payloads(&self) -> (r: Vec<String>)
        ensures
            r@.len() == PAYLOAD_COUNT,
            forall|i: int| 0 <= i < r@.len() ==> r@[i]@ == decimal((i + 1) as nat),
    {
        let mut r: Vec<String> = Vec::new();
        let mut i: usize = 1;
        while i <= PAYLOAD_COUNT
            invariant
                1 <= i <= PAYLOAD_COUNT + 1,
                r@.len() == i - 1,
                forall|k: int| 0 <= k < r@.len() ==> r@[k]@ == decimal((k + 1) as nat),
            decreases PAYLOAD_COUNT + 1 - i,
        {
            r.push(decimal_string(i));
            i = i + 1;
        }
        r
    }
}

} // verus!
