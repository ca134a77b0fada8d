use vstd::prelude::*;
use crate::term::{Term, Value, den, is_bool, mk_and};
use crate::type_eq::ValueEq;

verus! {

/// The value of `a && b`.
#[allow(non_snake_case)]
pub fn And(a: Value<bool>, b: Value<bool>) -> (r: Value<bool>)
    ensures
        r.term() == mk_and(a.term(), b.term()),
        r.rep() == (a.rep() && b.rep()),
{
    a.holds();
    b.holds();
    let ghost t = mk_and(a.term(), b.term());
    let x = a.into_inner();
    let y = b.into_inner();
    Value::definition(x && y, Ghost(t))
}

/// `a0 == a1 && b0 == b1  ==>  (a0 && b0) == (a1 && b1)`
pub fn and_eq(a: ValueEq, b: ValueEq) -> (r: ValueEq)
    ensures
        r.lhs() == mk_and(a.lhs(), b.lhs()),
        r.rhs() == mk_and(a.rhs(), b.rhs()),
{
    a.holds();
    b.holds();
    ValueEq::definition(Ghost(mk_and(a.lhs(), b.lhs())), Ghost(mk_and(a.rhs(), b.rhs())))
}

/// `a && False == False`
pub fn and_false_eq_false(a: Ghost<Term>) -> (r: ValueEq)
    ensures
        r.lhs() == mk_and(a@, Term::False),
        r.rhs() == Term::False,
{
    proof {
        reveal_with_fuel(den, 2);
    }
    ValueEq::definition(Ghost(mk_and(a@, Term::False)), Ghost(Term::False))
}

/// `a && True == a`
pub fn and_true_eq_a(a: Ghost<Term>) -> (r: ValueEq)
    requires
        is_bool(a@),
    ensures
        r.lhs() == mk_and(a@, Term::True),
        r.rhs() == a@,
{
    proof {
        reveal_with_fuel(den, 2);
    }
    ValueEq::definition(Ghost(mk_and(a@, Term::True)), Ghost(a@))
}

/// `a && a == a`
pub fn and_a_a_eq_a(a: Ghost<Term>) -> (r: ValueEq)
    requires
        is_bool(a@),
    ensures
        r.lhs() == mk_and(a@, a@),
        r.rhs() == a@,
{
    ValueEq::definition(Ghost(mk_and(a@, a@)), Ghost(a@))
}

/// `a && b == b && a`
pub fn and_commutative(a: Ghost<Term>, b: Ghost<Term>) -> (r: ValueEq)
    ensures
        r.lhs() == mk_and(a@, b@),
        r.rhs() == mk_and(b@, a@),
{
    ValueEq::definition(Ghost(mk_and(a@, b@)), Ghost(mk_and(b@, a@)))
}

/// `False && b == False`
pub fn false_and_eq_false(b: Ghost<Term>) -> (r: ValueEq)
    ensures
        r.lhs() == mk_and(Term::False, b@),
        r.rhs() == Term::False,
{
    and_commutative(Ghost(Term::False), b).trans(and_false_eq_false(b))
}

/// `True && b == b`
pub fn true_and_eq_b(b: Ghost<Term>) -> (r: ValueEq)
    requires
        is_bool(b@),
    ensures
        r.lhs() == mk_and(Term::True, b@),
        r.rhs() == b@,
{
    and_commutative(Ghost(Term::True), b).trans(and_true_eq_a(b))
}

} // verus!
