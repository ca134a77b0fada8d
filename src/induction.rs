use vstd::prelude::*;
use crate::num::{UInt, Succ, Zero};
use crate::num::uint::uint_as_succ;
use crate::term::{Value, den, value_lt};
use crate::var::{Brands, Guard};

verus! {

/// The step of a proof by induction on an unsigned value: from a state that
/// establishes the property at `a`, one that establishes it at `a + 1`.
pub trait InductiveStep<N: UInt, S> {
    /// The state `s` establishes the property at `n`. Implementors state
    /// their property here; without it, every state qualifies.
    open spec fn holds(&self, n: int, s: S) -> bool {
        true
    }

    fn call(&self, a: Value<N>, hyp: S) -> (r: S)
        requires
            self.holds(den(a.term()), hyp),
        ensures
            self.holds(den(a.term()) + 1, r),
    ;
}

/// The step of a descent to zero: from a state at `Succ(p)`, one at `p`.
pub trait DescentStep<N: UInt, S> {
    /// The state `s` belongs to `n`. Implementors state their property
    /// here; without it, every state qualifies.
    open spec fn holds(&self, n: int, s: S) -> bool {
        true
    }

    fn call(&self, p: Value<N>, s: S) -> (r: S)
        requires
            self.holds(den(p.term()) + 1, s),
        ensures
            self.holds(den(p.term()), r),
    ;
}

/// Induction: from the base state at zero and the step, the state at `x`.
/// The base case is combined first, then the steps for `0, 1, ..., x - 1`
/// in that order, in a loop rather than by recursion.
pub fn compute_by_induction<N: UInt, S, I: InductiveStep<N, S>>(base: S, step: &I, x: Value<N>) -> (r: S)
    requires
        step.holds(0, base),
    ensures
        step.holds(den(x.term()), r),
{
    x.holds();
    proof {
        N::lemma_bounds(&x.rep());
        N::lemma_unsigned();
    }
    let mut i: Value<N> = Zero();
    let mut s = base;
    loop
        invariant
            0 <= den(i.term()) <= den(x.term()),
            den(x.term()) <= N::highest(),
            N::lowest() == 0,
            step.holds(den(i.term()), s),
        ensures
            step.holds(den(x.term()), s),
        decreases den(x.term()) - den(i.term()),
    {
        match value_lt(i.duplicate(), x.duplicate()) {
            Some(lt) => {
                lt.holds();
                s = step.call(i.duplicate(), s);
                i = Succ(i);
            },
            None => {
                break ;
            },
        }
    }
    s
}

/// The body of a loop that opens a fresh brand each round and runs until it
/// yields a result.
pub trait UntilErr<S, R> {
    /// The state `s` is one the loop can be in.
    spec fn inv(&self, s: S) -> bool;

    /// An upper bound on the rounds left from `s` that go on to a next state.
    spec fn rounds(&self, s: S) -> nat;

    /// `r` is a result the loop may end with.
    spec fn finished(&self, r: R) -> bool;

    /// One round, under the brand of `guard`: the next state, or the result.
    fn call(&self, guard: Guard, s: S) -> (r: Result<S, R>)
        requires
            self.inv(s),
        ensures
            r matches Ok(next) ==> self.inv(next) && self.rounds(next) < self.rounds(s),
            r matches Err(x) ==> self.finished(x),
    ;
}

/// Runs `body` from `initial`, each round under a fresh brand of `brands`,
/// until it yields a result.
pub fn until_err<S, R, B: UntilErr<S, R>>(brands: &mut Brands, initial: S, body: &B) -> (r: R)
    requires
        body.inv(initial),
        old(brands).issued() + body.rounds(initial) + 1 <= u64::MAX,
    ensures
        body.finished(r),
        final(brands).issued() <= old(brands).issued() + body.rounds(initial) + 1,
{
    let ghost start = brands.issued();
    let ghost total = body.rounds(initial);
    let mut state = initial;
    loop
        invariant
            body.inv(state),
            brands.issued() + body.rounds(state) <= start + total,
            start + total + 1 <= u64::MAX,
            start == old(brands).issued(),
            total == body.rounds(initial),
        decreases body.rounds(state),
    {
        let guard = brands.guard();
        match body.call(guard, state) {
            Ok(next) => {
                state = next;
            },
            Err(res) => {
                return res;
            },
        }
    }
}

/// One round of a descent to zero: split the current value into `Succ(p)`
/// and hand `p` to the descent step, or stop at zero.
struct Descent<'b, N: UInt, S, B: DescentStep<N, S>> {
    body: &'b B,
    marker: core::marker::PhantomData<(N, S)>,
}

impl<'b, N: UInt, S, B: DescentStep<N, S>> UntilErr<(Value<N>, S), S> for Descent<'b, N, S, B> {
    closed spec fn inv(&self, s: (Value<N>, S)) -> bool {
        &&& s.0.valid()
        &&& 0 <= den(s.0.term())
        &&& self.body.holds(den(s.0.term()), s.1)
    }

    closed spec fn rounds(&self, s: (Value<N>, S)) -> nat {
        den(s.0.term()) as nat
    }

    closed spec fn finished(&self, r: S) -> bool {
        self.body.holds(0, r)
    }

    fn call(&self, guard: Guard, s: (Value<N>, S)) -> (r: Result<(Value<N>, S), S>) {
        let (cur, st) = s;
        match uint_as_succ(guard, cur) {
            Ok((p, _eq)) => {
                p.holds();
                let next = self.body.call(p.duplicate(), st);
                Ok((p, next))
            },
            Err(_eq) => Err(st),
        }
    }
}

/// Walks `num` down to zero, naming each predecessor under a fresh brand of
/// `brands` and handing it to `body` with the state; returns the state at zero.
pub fn repeat_to_zero<N: UInt, S, B: DescentStep<N, S>>(
    brands: &mut Brands,
    num: Value<N>,
    initial: S,
    body: &B,
) -> (r: S)
    requires
        body.holds(den(num.term()), initial),
        old(brands).issued() + den(num.term()) + 1 <= u64::MAX,
    ensures
        body.holds(0, r),
        final(brands).issued() <= old(brands).issued() + den(num.term()) + 1,
{
    num.holds();
    proof {
        N::lemma_bounds(&num.rep());
        N::lemma_unsigned();
    }
    let descent = Descent { body, marker: core::marker::PhantomData };
    until_err(brands, (num, initial), &descent)
}

} // verus!
