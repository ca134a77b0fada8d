use vstd::prelude::*;
use crate::term::{Term, Value, den, is_bool, mk_xor, mk_not};
use crate::type_eq::ValueEq;

verus! {

/// The value of `a ^ b`.
#[allow(non_snake_case)]
pub fn Xor(a: Value<bool>, b: Value<bool>) -> (r: Value<bool>)
    ensures
        r.term() == mk_xor(a.term(), b.term()),
        r.rep() == (a.rep() != b.rep()),
{
    a.holds();
    b.holds();
    let ghost t = mk_xor(a.term(), b.term());
    let x = a.into_inner();
    let y = b.into_inner();
    Value::definition(x != y, Ghost(t))
}

/// `a0 == a1 && b0 == b1  ==>  (a0 ^ b0) == (a1 ^ b1)`
pub fn xor_eq(a: ValueEq, b: ValueEq) -> (r: ValueEq)
    ensures
        r.lhs() == mk_xor(a.lhs(), b.lhs()),
        r.rhs() == mk_xor(a.rhs(), b.rhs()),
{
    a.holds();
    b.holds();
    ValueEq::definition(Ghost(mk_xor(a.lhs(), b.lhs())), Ghost(mk_xor(a.rhs(), b.rhs())))
}

/// `a ^ False == a`
pub fn xor_false_eq_a(a: Ghost<Term>) -> (r: ValueEq)
    requires
        is_bool(a@),
    ensures
        r.lhs() == mk_xor(a@, Term::False),
        r.rhs() == a@,
{
    proof {
        reveal_with_fuel(den, 2);
    }
    ValueEq::definition(Ghost(mk_xor(a@, Term::False)), Ghost(a@))
}

/// `a ^ True == !a`
pub fn xor_true_eq_not_a(a: Ghost<Term>) -> (r: ValueEq)
    ensures
        r.lhs() == mk_xor(a@, Term::True),
        r.rhs() == mk_not(a@),
{
    proof {
        reveal_with_fuel(den, 2);
    }
    ValueEq::definition(Ghost(mk_xor(a@, Term::True)), Ghost(mk_not(a@)))
}

/// `a ^ a == False`
pub fn xor_a_a_eq_false(a: Ghost<Term>) -> (r: ValueEq)
    ensures
        r.lhs() == mk_xor(a@, a@),
        r.rhs() == Term::False,
{
    ValueEq::definition(Ghost(mk_xor(a@, a@)), Ghost(Term::False))
}

/// `a ^ b == b ^ a`
pub fn xor_commutative(a: Ghost<Term>, b: Ghost<Term>) -> (r: ValueEq)
    ensures
        r.lhs() == mk_xor(a@, b@),
        r.rhs() == mk_xor(b@, a@),
{
    ValueEq::definition(Ghost(mk_xor(a@, b@)), Ghost(mk_xor(b@, a@)))
}

/// `False ^ b == b`
pub fn false_xor_eq_b(b: Ghost<Term>) -> (r: ValueEq)
    requires
        is_bool(b@),
    ensures
        r.lhs() == mk_xor(Term::False, b@),
        r.rhs() == b@,
{
    xor_commutative(Ghost(Term::False), b).trans(xor_false_eq_a(b))
}

/// `True ^ b == !b`
pub fn true_xor_eq_not_b(b: Ghost<Term>) -> (r: ValueEq)
    ensures
        r.lhs() == mk_xor(Term::True, b@),
        r.rhs() == mk_not(b@),
{
    xor_commutative(Ghost(Term::True), b).trans(xor_true_eq_not_a(b))
}

} // verus!
