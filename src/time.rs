use vstd::prelude::*;

verus! {

/// A logical clock whose timestamps have type `T`.
///
/// A clock is modelled by its view `Self::V`; the spec functions below say
/// what each operation does to that model, and the executable methods are
/// tied to them exactly.
pub trait Clock<T: View>: View + Sized {
    /// The model is a state that the clock can be in.
    spec fn wf(m: Self::V) -> bool;

    /// The timestamp that the clock reads in state `m`.
    spec fn stamp(m: Self::V) -> T::V;

    /// The state after one local event.
    spec fn ticked(m: Self::V) -> Self::V;

    /// The state after receiving timestamp `t` (merge, then one local event).
    spec fn merged(m: Self::V, t: T::V) -> Self::V;

    /// A local event can be recorded in state `m` without leaving the counters' range.
    spec fn can_tick(m: Self::V) -> bool;

    /// `t` is a timestamp that state `m` can merge.
    spec fn can_merge(m: Self::V, t: T::V) -> bool;

    /// Advance the clock by one unit and return the new timestamp.
    fn advance_clock(&mut self) -> (r: T)
        requires
            Self::wf(old(self)@),
            Self::can_tick(old(self)@),
        ensures
            final(self)@ == Self::ticked(old(self)@),
            Self::wf(final(self)@),
            r@ == Self::stamp(final(self)@),
    ;

    /// Update the clock on receipt of a message carrying `message_timestamp`.
    fn update_clock(&mut self, message_timestamp: &T) -> (r: T)
        requires
            Self::wf(old(self)@),
            Self::can_merge(old(self)@, message_timestamp@),
        ensures
            final(self)@ == Self::merged(old(self)@, message_timestamp@),
            Self::wf(final(self)@),
            r@ == Self::stamp(final(self)@),
    ;

    /// The current timestamp.
    fn get_clock(&self) -> (r: T)
        requires
            Self::wf(self@),
        ensures
            r@ == Self::stamp(self@),
    ;

    /// Whether a local event can be recorded now.
    fn tick_fits(&self) -> (r: bool)
        requires
            Self::wf(self@),
        ensures
            r == Self::can_tick(self@),
    ;

    /// Whether `message_timestamp` can be merged now.
    fn merge_fits(&self, message_timestamp: &T) -> (r: bool)
        requires
            Self::wf(self@),
        ensures
            r == Self::can_merge(self@, message_timestamp@),
    ;
}

/// An operation on a clock, at the level of its model: a local event, or
/// the receipt of a message stamped with the given timestamp.
pub enum ClockOp<S> {
    Advance,
    Merge(S),
}

/// The state after applying `op` to state `m`.
pub open spec fn apply<C: Clock<T>, T: View>(m: C::V, op: ClockOp<T::V>) -> C::V {
    match op {
        ClockOp::Advance => C::ticked(m),
        ClockOp::Merge(t) => C::merged(m, t),
    }
}

/// `op` can be applied to state `m`.
pub open spec fn applicable<C: Clock<T>, T: View>(m: C::V, op: ClockOp<T::V>) -> bool {
    match op {
        ClockOp::Advance => C::can_tick(m),
        ClockOp::Merge(t) => C::can_merge(m, t),
    }
}

/// Every operation of `ops`, applied in turn from state `m`, can be applied.
pub open spec fn runnable<C: Clock<T>, T: View>(m: C::V, ops: Seq<ClockOp<T::V>>) -> bool
    decreases ops.len(),
{
    ops.len() == 0 || (applicable::<C, T>(m, ops[0]) && runnable::<C, T>(
        apply::<C, T>(m, ops[0]),
        ops.drop_first(),
    ))
}

/// The states that a clock goes through from state `m` under `ops`: `m`
/// first, then the state after each operation.
pub open spec fn trace<C: Clock<T>, T: View>(m: C::V, ops: Seq<ClockOp<T::V>>) -> Seq<C::V>
    decreases ops.len(),
{
    if ops.len() == 0 {
        seq![m]
    } else {
        seq![m] + trace::<C, T>(apply::<C, T>(m, ops[0]), ops.drop_first())
    }
}

} // verus!
