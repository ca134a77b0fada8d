use vstd::prelude::*;
use crate::term::{Term, den, mk_add, mk_neg, mk_one, mk_pred, mk_succ, mk_sub};
use crate::type_eq::ValueEq;
use super::{add_eq, neg_eq, sub_eq};
use super::add::{a_plus_0_eq_a, add_0_a_eq_a, s_a_eq_a_plus_1};
use super::sub::{
    a_minus_0_eq_a, a_minus_a_eq_0, a_minus_sub_b_c_eq_a_plus_sub_c_b, add_sub_associative,
    sub_add_associative, sub_sub_associative,
};

verus! {

/// Negation is subtraction from zero: `-a == 0 - a`
pub fn neg_a_eq_0_minus_a(a: Ghost<Term>) -> (r: ValueEq)
    ensures
        r.lhs() == mk_neg(a@),
        r.rhs() == mk_sub(Term::Zero, a@),
{
    proof {
        reveal_with_fuel(den, 2);
    }
    ValueEq::definition(Ghost(mk_neg(a@)), Ghost(mk_sub(Term::Zero, a@)))
}

/// `--a == a`
pub fn neg_neg_a_eq_a(a: Ghost<Term>) -> (r: ValueEq)
    ensures
        r.lhs() == mk_neg(mk_neg(a@)),
        r.rhs() == a@,
{
    let zero = Ghost(Term::Zero);
    // --a == 0 - -a == 0 - (0 - a) == (0 - 0) + a == 0 + a == a
    neg_a_eq_0_minus_a(Ghost(mk_neg(a@))).trans(
        sub_eq(ValueEq::refl(zero), neg_a_eq_0_minus_a(a)),
    ).trans(sub_sub_associative(zero, zero, a)).trans(
        add_eq(a_minus_a_eq_0(zero), ValueEq::refl(a)),
    ).trans(add_0_a_eq_a(a))
}

/// `a + -b == a - b`
pub fn a_plus_neg_b_eq_a_sub_b(a: Ghost<Term>, b: Ghost<Term>) -> (r: ValueEq)
    ensures
        r.lhs() == mk_add(a@, mk_neg(b@)),
        r.rhs() == mk_sub(a@, b@),
{
    // a + -b == a + (0 - b) == (a + 0) - b == a - b
    add_eq(ValueEq::refl(a), neg_a_eq_0_minus_a(b)).trans(
        add_sub_associative(a, Ghost(Term::Zero), b),
    ).trans(sub_eq(a_plus_0_eq_a(a), ValueEq::refl(b)))
}

/// `-(a + b) == -a - b`
pub fn neg_add_a_b_eq_neg_a_minus_b(a: Ghost<Term>, b: Ghost<Term>) -> (r: ValueEq)
    ensures
        r.lhs() == mk_neg(mk_add(a@, b@)),
        r.rhs() == mk_sub(mk_neg(a@), b@),
{
    // -(a + b) == 0 - (a + b) == (0 - a) - b == -a - b
    neg_a_eq_0_minus_a(Ghost(mk_add(a@, b@))).trans(
        sub_add_associative(Ghost(Term::Zero), a, b),
    ).trans(sub_eq(neg_a_eq_0_minus_a(a).invert(), ValueEq::refl(b)))
}

/// `-(a - b) == b - a`
pub fn neg_sub_a_b_eq_b_minus_a(a: Ghost<Term>, b: Ghost<Term>) -> (r: ValueEq)
    ensures
        r.lhs() == mk_neg(mk_sub(a@, b@)),
        r.rhs() == mk_sub(b@, a@),
{
    // -(a - b) == 0 - (a - b) == 0 + (b - a) == b - a
    neg_a_eq_0_minus_a(Ghost(mk_sub(a@, b@))).trans(
        a_minus_sub_b_c_eq_a_plus_sub_c_b(Ghost(Term::Zero), a, b),
    ).trans(add_0_a_eq_a(Ghost(mk_sub(b@, a@))))
}

/// `-0 == 0`
pub fn neg_zero_eq_zero() -> (r: ValueEq)
    ensures
        r.lhs() == mk_neg(Term::Zero),
        r.rhs() == Term::Zero,
{
    neg_a_eq_0_minus_a(Ghost(Term::Zero)).trans(a_minus_0_eq_a(Ghost(Term::Zero)))
}

/// `-Succ(a) == -a - Succ(0)`
pub fn neg_s_a_eq_neg_a_minus_1(a: Ghost<Term>) -> (r: ValueEq)
    ensures
        r.lhs() == mk_neg(mk_succ(a@)),
        r.rhs() == mk_pred(mk_neg(a@)),
{
    // -Succ(a) == -(a + Succ(0)) == -a - Succ(0)
    neg_eq(s_a_eq_a_plus_1(a)).trans(neg_add_a_b_eq_neg_a_minus_b(a, Ghost(mk_one())))
}

/// `-a == -b  ==>  a == b`
pub fn neg_eq_to_eq(eq: ValueEq, a: Ghost<Term>, b: Ghost<Term>) -> (r: ValueEq)
    requires
        eq.lhs() == mk_neg(a@),
        eq.rhs() == mk_neg(b@),
    ensures
        r.lhs() == a@,
        r.rhs() == b@,
{
    // a == --a == --b == b
    neg_neg_a_eq_a(a).invert().trans(neg_eq(eq)).trans(neg_neg_a_eq_a(b))
}

} // verus!
