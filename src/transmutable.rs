//! Re-tagging values along evidence.
//!
//! A value moves from one term to another without any change to its runtime
//! representation: the runtime value is moved as it is and only the ghost tag
//! changes. Evidence that two terms are equal is what such a move needs
//! ([`crate::type_eq::Equiv`]); bounded indices may also move to a larger
//! bound along evidence of `<=` ([`crate::fin::Fin::transm`]).
use vstd::prelude::*;
use crate::term::{Repr, Value};
use crate::type_eq::ValueEq;

verus! {

/// Re-tags `x` with the other side of `eq`. The runtime value moves over
/// unchanged.
pub fn coerce<T: Repr>(x: Value<T>, eq: ValueEq) -> (r: Value<T>)
    requires
        x.term() == eq.lhs(),
    ensures
        r.rep() == x.rep(),
        r.term() == eq.rhs(),
{
    eq.holds();
    Value::definition(x.into_inner(), Ghost(eq.rhs()))
}

/// Re-tags a boxed value with the other side of `eq`, in its box.
pub fn coerce_box<T: Repr>(x: Box<Value<T>>, eq: ValueEq) -> (r: Box<Value<T>>)
    requires
        x.term() == eq.lhs(),
    ensures
        r.rep() == x.rep(),
        r.term() == eq.rhs(),
{
    Box::new(coerce(*x, eq))
}

/// Re-tags every value of `xs`, each tagged with the left side of `eq`, with
/// the right side; the runtime values and their order are kept.
pub fn coerce_vec<T: Repr>(xs: Vec<Value<T>>, eq: ValueEq) -> (r: Vec<Value<T>>)
    requires
        forall|i: int| 0 <= i < xs@.len() ==> (#[trigger] xs@[i]).term() == eq.lhs(),
    ensures
        r@.len() == xs@.len(),
        forall|i: int|
            0 <= i < r@.len() ==> (#[trigger] r@[i]).rep() == xs@[i].rep() && r@[i].term()
                == eq.rhs(),
{
    let ghost orig = xs@;
    let mut src = xs;
    let mut rev: Vec<Value<T>> = Vec::new();
    loop
        invariant
            orig.len() == src@.len() + rev@.len(),
            forall|i: int| 0 <= i < src@.len() ==> src@[i] == orig[i],
            forall|i: int|
                0 <= i < rev@.len() ==> (#[trigger] rev@[i]).rep() == orig[orig.len() - 1 - i].rep()
                    && rev@[i].term() == eq.rhs(),
            forall|i: int| 0 <= i < orig.len() ==> (#[trigger] orig[i]).term() == eq.lhs(),
        ensures
            src@.len() == 0,
            orig.len() == rev@.len(),
            forall|i: int|
                0 <= i < rev@.len() ==> (#[trigger] rev@[i]).rep() == orig[orig.len() - 1 - i].rep()
                    && rev@[i].term() == eq.rhs(),
        decreases src@.len(),
    {
        match src.pop() {
            Some(x) => {
                proof {
                    assert(x == orig[src@.len() as int]);
                }
                rev.push(coerce(x, eq));
            },
            None => {
                break ;
            },
        }
    }
    let mut out: Vec<Value<T>> = Vec::new();
    loop
        invariant
            orig.len() == rev@.len() + out@.len(),
            forall|i: int|
                0 <= i < rev@.len() ==> (#[trigger] rev@[i]).rep() == orig[orig.len() - 1 - i].rep()
                    && rev@[i].term() == eq.rhs(),
            forall|i: int|
                0 <= i < out@.len() ==> (#[trigger] out@[i]).rep() == orig[i].rep() && out@[i].term()
                    == eq.rhs(),
        ensures
            rev@.len() == 0,
            orig.len() == out@.len(),
            forall|i: int|
                0 <= i < out@.len() ==> (#[trigger] out@[i]).rep() == orig[i].rep() && out@[i].term()
                    == eq.rhs(),
        decreases rev@.len(),
    {
        match rev.pop() {
            Some(x) => {
                out.push(x);
            },
            None => {
                break ;
            },
        }
    }
    out
}

/// Coercing a value along `eq` and back along `back` gives back the same
/// value: the runtime value is untouched and the tag returns to the original.
pub proof fn lemma_coerce_round_trip<T: Repr>(x: Value<T>, eq: ValueEq, y: Value<T>, back: ValueEq, z: Value<T>)
    requires
        x.term() == eq.lhs(),
        y.rep() == x.rep(),
        y.term() == eq.rhs(),
        back.lhs() == eq.rhs(),
        back.rhs() == eq.lhs(),
        z.rep() == y.rep(),
        z.term() == back.rhs(),
    ensures
        z == x,
{
    Value::lemma_ext_equal(z, x);
}

} // verus!
