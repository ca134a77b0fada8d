use vstd::prelude::*;
use crate::term::{Term, Value, is_bool, mk_not};
use crate::type_eq::{ValueEq, ValueNe};
use super::{ne_false_implies_true, ne_ne_implies_eq, ne_true_implies_false, true_ne_false};

verus! {

/// The value of `!a`.
#[allow(non_snake_case)]
pub fn Not(a: Value<bool>) -> (r: Value<bool>)
    ensures
        r.term() == mk_not(a.term()),
        r.rep() == !a.rep(),
{
    a.holds();
    let ghost t = mk_not(a.term());
    Value::definition(!a.into_inner(), Ghost(t))
}

/// `a0 == a1  ==>  !a0 == !a1`
pub fn not_eq(eq: ValueEq) -> (r: ValueEq)
    ensures
        r.lhs() == mk_not(eq.lhs()),
        r.rhs() == mk_not(eq.rhs()),
{
    eq.holds();
    ValueEq::definition(Ghost(mk_not(eq.lhs())), Ghost(mk_not(eq.rhs())))
}

/// Negation changes a boolean: `!a != a`
pub fn not_a_ne_a(a: Ghost<Term>) -> (r: ValueNe)
    ensures
        r.lhs() == mk_not(a@),
        r.rhs() == a@,
{
    ValueNe::definition(Ghost(mk_not(a@)), a)
}

/// `a != b  ==>  a == !b`
pub fn ne_implies_eq_not(ne: ValueNe) -> (r: ValueEq)
    requires
        is_bool(ne.lhs()),
        is_bool(ne.rhs()),
    ensures
        r.lhs() == ne.lhs(),
        r.rhs() == mk_not(ne.rhs()),
{
    ne_ne_implies_eq(ne, not_a_ne_a(Ghost(ne.rhs())))
}

/// `!!a == a`
pub fn not_not_a_eq_a(a: Ghost<Term>) -> (r: ValueEq)
    requires
        is_bool(a@),
    ensures
        r.lhs() == mk_not(mk_not(a@)),
        r.rhs() == a@,
{
    // !!a != !a && a != !a  ==>  !!a == a
    ne_ne_implies_eq(not_a_ne_a(Ghost(mk_not(a@))), not_a_ne_a(a).invert())
}

/// `!True == False`
pub fn not_true_is_false() -> (r: ValueEq)
    ensures
        r.lhs() == mk_not(Term::True),
        r.rhs() == Term::False,
{
    ne_true_implies_false(not_a_ne_a(Ghost(Term::True)))
}

/// `!False == True`
pub fn not_false_is_true() -> (r: ValueEq)
    ensures
        r.lhs() == mk_not(Term::False),
        r.rhs() == Term::True,
{
    ne_false_implies_true(not_a_ne_a(Ghost(Term::False)))
}

/// `a == b  ==>  !a != b`
pub fn a_eq_b_implies_not_a_ne_b(eq: ValueEq) -> (r: ValueNe)
    ensures
        r.lhs() == mk_not(eq.lhs()),
        r.rhs() == eq.rhs(),
{
    // !a != a == b
    not_a_ne_a(Ghost(eq.lhs())).trans(eq)
}

/// `!a == b  ==>  a != b`
pub fn not_a_eq_b_implies_a_ne_b(eq: ValueEq, a: Ghost<Term>) -> (r: ValueNe)
    requires
        eq.lhs() == mk_not(a@),
    ensures
        r.lhs() == a@,
        r.rhs() == eq.rhs(),
{
    // a != !a == b
    not_a_ne_a(a).invert().trans(eq)
}

/// `t == True  ==>  !t != True`
pub fn true_implies_ne_not_true(eq: ValueEq) -> (r: ValueNe)
    requires
        eq.rhs() == Term::True,
    ensures
        r.lhs() == mk_not(eq.lhs()),
        r.rhs() == Term::True,
{
    // !t == !True == False != True
    not_eq(eq).trans(not_true_is_false()).trans_ne(true_ne_false().invert())
}

/// `!t == True  ==>  t != True`
pub fn not_true_implies_ne_true(eq: ValueEq, t: Ghost<Term>) -> (r: ValueNe)
    requires
        eq.lhs() == mk_not(t@),
        eq.rhs() == Term::True,
        is_bool(t@),
    ensures
        r.lhs() == t@,
        r.rhs() == Term::True,
{
    // t == !!t == !True == False != True
    not_not_a_eq_a(t).invert().trans(not_eq(eq)).trans(not_true_is_false()).trans_ne(
        true_ne_false().invert(),
    )
}

} // verus!
