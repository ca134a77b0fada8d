use vstd::prelude::*;
use crate::term::{Repr, Term, Value, den, lemma_den_one, mk_pred, mk_succ};
use crate::type_eq::{ValueEq, ValueLe};
use crate::var::{Guard, Var, fresh_name};
use super::{Pred, UInt, is_zero, succ_eq};
use super::sub::s_sub_a_s_0_eq_a;

verus! {

/// `0 <= a`, for `a` of an unsigned representation.
pub fn a_ge_0<N: UInt>(a: &Value<N>) -> (r: ValueLe)
    ensures
        r.lhs() == Term::Zero,
        r.rhs() == a.term(),
{
    a.holds();
    proof {
        N::lemma_bounds(&a.rep());
        N::lemma_unsigned();
    }
    ValueLe::definition(Ghost(Term::Zero), Ghost(a.term()))
}

/// The value of `v - 1`, or evidence of `v == 0`.
pub fn uint_pred<N: UInt>(v: Value<N>) -> (r: Result<Value<N>, ValueEq>)
    ensures
        r is Err <==> den(v.term()) == 0,
        r matches Ok(p) ==> p.term() == mk_pred(v.term()),
        r matches Err(w) ==> w.lhs() == v.term() && w.rhs() == Term::Zero,
{
    v.holds();
    proof {
        N::lemma_bounds(&v.rep());
        N::lemma_unsigned();
    }
    match is_zero(&v) {
        Ok(eq) => Err(eq),
        Err(_ne) => Ok(Pred(v)),
    }
}

/// The zero-or-successor split: for `v != 0`, a fresh name `p` of `guard`'s
/// brand with the value `v - 1` and evidence of `v == Succ(p)`; for `v == 0`,
/// evidence of it.
pub fn uint_as_succ<N: UInt>(guard: Guard, v: Value<N>) -> (r: Result<(Value<N>, ValueEq), ValueEq>)
    ensures
        r is Err <==> den(v.term()) == 0,
        r matches Ok((p, w)) ==> p.term() == fresh_name(guard.id(), den(v.term()) - 1)
            && den(p.term()) == den(v.term()) - 1 && w.lhs() == v.term() && w.rhs() == mk_succ(
            p.term(),
        ),
        r matches Err(w) ==> w.lhs() == v.term() && w.rhs() == Term::Zero,
{
    let ghost a = v.term();
    proof {
        lemma_den_one();
    }
    match uint_pred(v) {
        Ok(pred) => {
            let (var, eq) = Var::alias(guard, pred);
            // v == Succ(v - 1) == Succ(p)
            let w = s_sub_a_s_0_eq_a(Ghost(a)).invert().trans(succ_eq(eq));
            Ok((var, w))
        },
        Err(eq) => Err(eq),
    }
}

/// The zero-or-successor split round-trips: where `v` was split into `p` with
/// evidence of `v == Succ(p)`, the value of `Succ(p)` holds the runtime value
/// of `v`.
pub proof fn lemma_split_round_trip<N: UInt>(v: Value<N>, p: Value<N>, w: ValueEq, s: Value<N>)
    requires
        v.valid(),
        p.valid(),
        s.valid(),
        w.valid(),
        w.lhs() == v.term(),
        w.rhs() == mk_succ(p.term()),
        s.term() == mk_succ(p.term()),
    ensures
        s.rep() == v.rep(),
{
    N::lemma_den_injective(&s.rep(), &v.rep());
}

} // verus!
