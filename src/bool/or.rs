use vstd::prelude::*;
use crate::term::{Term, Value, den, is_bool, mk_or};
use crate::type_eq::ValueEq;

verus! {

/// The value of `a || b`.
#[allow(non_snake_case)]
pub fn Or(a: Value<bool>, b: Value<bool>) -> (r: Value<bool>)
    ensures
        r.term() == mk_or(a.term(), b.term()),
        r.rep() == (a.rep() || b.rep()),
{
    a.holds();
    b.holds();
    let ghost t = mk_or(a.term(), b.term());
    let x = a.into_inner();
    let y = b.into_inner();
    Value::definition(x || y, Ghost(t))
}

/// `a0 == a1 && b0 == b1  ==>  (a0 || b0) == (a1 || b1)`
pub fn or_eq(a: ValueEq, b: ValueEq) -> (r: ValueEq)
    ensures
        r.lhs() == mk_or(a.lhs(), b.lhs()),
        r.rhs() == mk_or(a.rhs(), b.rhs()),
{
    a.holds();
    b.holds();
    ValueEq::definition(Ghost(mk_or(a.lhs(), b.lhs())), Ghost(mk_or(a.rhs(), b.rhs())))
}

/// `a || False == a`
pub fn or_false_eq_a(a: Ghost<Term>) -> (r: ValueEq)
    requires
        is_bool(a@),
    ensures
        r.lhs() == mk_or(a@, Term::False),
        r.rhs() == a@,
{
    proof {
        reveal_with_fuel(den, 2);
    }
    ValueEq::definition(Ghost(mk_or(a@, Term::False)), Ghost(a@))
}

/// `a || True == True`
pub fn or_true_eq_true(a: Ghost<Term>) -> (r: ValueEq)
    ensures
        r.lhs() == mk_or(a@, Term::True),
        r.rhs() == Term::True,
{
    proof {
        reveal_with_fuel(den, 2);
    }
    ValueEq::definition(Ghost(mk_or(a@, Term::True)), Ghost(Term::True))
}

/// `a || a == a`
pub fn or_a_a_eq_a(a: Ghost<Term>) -> (r: ValueEq)
    requires
        is_bool(a@),
    ensures
        r.lhs() == mk_or(a@, a@),
        r.rhs() == a@,
{
    ValueEq::definition(Ghost(mk_or(a@, a@)), Ghost(a@))
}

/// `a || b == b || a`
pub fn or_commutative(a: Ghost<Term>, b: Ghost<Term>) -> (r: ValueEq)
    ensures
        r.lhs() == mk_or(a@, b@),
        r.rhs() == mk_or(b@, a@),
{
    ValueEq::definition(Ghost(mk_or(a@, b@)), Ghost(mk_or(b@, a@)))
}

/// `False || b == b`
pub fn false_or_eq_b(b: Ghost<Term>) -> (r: ValueEq)
    requires
        is_bool(b@),
    ensures
        r.lhs() == mk_or(Term::False, b@),
        r.rhs() == b@,
{
    or_commutative(Ghost(Term::False), b).trans(or_false_eq_a(b))
}

/// `True || b == True`
pub fn true_or_eq_true(b: Ghost<Term>) -> (r: ValueEq)
    ensures
        r.lhs() == mk_or(Term::True, b@),
        r.rhs() == Term::True,
{
    or_commutative(Ghost(Term::True), b).trans(or_true_eq_true(b))
}

} // verus!
