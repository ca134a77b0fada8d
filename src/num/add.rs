use vstd::prelude::*;
use crate::term::{Term, Value, den, mk_add, mk_one, mk_succ};
use crate::type_eq::{ValueEq, ValueLe};
use super::{UInt, add_eq, succ_eq};
use super::uint::a_ge_0;

verus! {

/// `a + 0 == a`
pub fn a_plus_0_eq_a(a: Ghost<Term>) -> (r: ValueEq)
    ensures
        r.lhs() == mk_add(a@, Term::Zero),
        r.rhs() == a@,
{
    proof {
        reveal_with_fuel(den, 2);
    }
    ValueEq::definition(Ghost(mk_add(a@, Term::Zero)), a)
}

/// `a + Succ(b) == Succ(a + b)`
pub fn a_plus_s_b_eq_s_add_a_b(a: Ghost<Term>, b: Ghost<Term>) -> (r: ValueEq)
    ensures
        r.lhs() == mk_add(a@, mk_succ(b@)),
        r.rhs() == mk_succ(mk_add(a@, b@)),
{
    proof {
        reveal_with_fuel(den, 2);
    }
    ValueEq::definition(Ghost(mk_add(a@, mk_succ(b@))), Ghost(mk_succ(mk_add(a@, b@))))
}

/// `a <= b && c <= d  ==>  a + c <= b + d`
pub fn add_le(a_le_b: ValueLe, c_le_d: ValueLe) -> (r: ValueLe)
    ensures
        r.lhs() == mk_add(a_le_b.lhs(), c_le_d.lhs()),
        r.rhs() == mk_add(a_le_b.rhs(), c_le_d.rhs()),
{
    a_le_b.holds();
    c_le_d.holds();
    ValueLe::definition(
        Ghost(mk_add(a_le_b.lhs(), c_le_d.lhs())),
        Ghost(mk_add(a_le_b.rhs(), c_le_d.rhs())),
    )
}

/// `a + c == b + d && c == d  ==>  a == b`
pub fn add_eq_to_left_eq(eq: ValueEq, c_eq_d: ValueEq, a: Ghost<Term>, b: Ghost<Term>) -> (r: ValueEq)
    requires
        eq.lhs() == mk_add(a@, c_eq_d.lhs()),
        eq.rhs() == mk_add(b@, c_eq_d.rhs()),
    ensures
        r.lhs() == a@,
        r.rhs() == b@,
{
    eq.holds();
    c_eq_d.holds();
    ValueEq::definition(a, b)
}

/// `a + b == b + a`
pub fn add_commutative(a: Ghost<Term>, b: Ghost<Term>) -> (r: ValueEq)
    ensures
        r.lhs() == mk_add(a@, b@),
        r.rhs() == mk_add(b@, a@),
{
    ValueEq::definition(Ghost(mk_add(a@, b@)), Ghost(mk_add(b@, a@)))
}

/// `a + (b + c) == (a + b) + c`
pub fn add_associative(a: Ghost<Term>, b: Ghost<Term>, c: Ghost<Term>) -> (r: ValueEq)
    ensures
        r.lhs() == mk_add(a@, mk_add(b@, c@)),
        r.rhs() == mk_add(mk_add(a@, b@), c@),
{
    proof {
        reveal_with_fuel(den, 2);
    }
    ValueEq::definition(Ghost(mk_add(a@, mk_add(b@, c@))), Ghost(mk_add(mk_add(a@, b@), c@)))
}

/// `a + c == b + d && a == b  ==>  c == d`
pub fn add_eq_to_right_eq(eq: ValueEq, a_eq_b: ValueEq, c: Ghost<Term>, d: Ghost<Term>) -> (r: ValueEq)
    requires
        eq.lhs() == mk_add(a_eq_b.lhs(), c@),
        eq.rhs() == mk_add(a_eq_b.rhs(), d@),
    ensures
        r.lhs() == c@,
        r.rhs() == d@,
{
    // c + a == a + c == b + d == d + b
    let swapped = add_commutative(c, Ghost(a_eq_b.lhs())).trans(eq).trans(
        add_commutative(Ghost(a_eq_b.rhs()), d),
    );
    add_eq_to_left_eq(swapped, a_eq_b, c, d)
}

/// `0 + a == a`
pub fn add_0_a_eq_a(a: Ghost<Term>) -> (r: ValueEq)
    ensures
        r.lhs() == mk_add(Term::Zero, a@),
        r.rhs() == a@,
{
    add_commutative(Ghost(Term::Zero), a).trans(a_plus_0_eq_a(a))
}

/// `Succ(a) == a + Succ(0)`
pub fn s_a_eq_a_plus_1(a: Ghost<Term>) -> (r: ValueEq)
    ensures
        r.lhs() == mk_succ(a@),
        r.rhs() == mk_add(a@, mk_one()),
{
    succ_eq(a_plus_0_eq_a(a)).invert().trans(a_plus_s_b_eq_s_add_a_b(a, Ghost(Term::Zero)).invert())
}

/// `Succ(a) + b == Succ(a + b)`
pub fn s_a_plus_b_eq_s_add_a_b(a: Ghost<Term>, b: Ghost<Term>) -> (r: ValueEq)
    ensures
        r.lhs() == mk_add(mk_succ(a@), b@),
        r.rhs() == mk_succ(mk_add(a@, b@)),
{
    add_commutative(Ghost(mk_succ(a@)), b).trans(a_plus_s_b_eq_s_add_a_b(b, a)).trans(
        succ_eq(add_commutative(b, a)),
    )
}

/// `Succ(a) + b == a + Succ(b)`
pub fn s_a_plus_b_eq_a_plus_s_b(a: Ghost<Term>, b: Ghost<Term>) -> (r: ValueEq)
    ensures
        r.lhs() == mk_add(mk_succ(a@), b@),
        r.rhs() == mk_add(a@, mk_succ(b@)),
{
    s_a_plus_b_eq_s_add_a_b(a, b).trans(a_plus_s_b_eq_s_add_a_b(a, b).invert())
}

/// `an == Succ(a) && bn == Succ(b)  ==>  an + b == a + bn`
pub fn sa_eq_s_a_and_sb_eq_s_b_implies_sa_plus_b_eq_a_plus_sb(
    an_eq_s_a: ValueEq,
    bn_eq_s_b: ValueEq,
    a: Ghost<Term>,
    b: Ghost<Term>,
) -> (r: ValueEq)
    requires
        an_eq_s_a.rhs() == mk_succ(a@),
        bn_eq_s_b.rhs() == mk_succ(b@),
    ensures
        r.lhs() == mk_add(an_eq_s_a.lhs(), b@),
        r.rhs() == mk_add(a@, bn_eq_s_b.lhs()),
{
    add_eq(an_eq_s_a, ValueEq::refl(b)).trans(s_a_plus_b_eq_a_plus_s_b(a, b)).trans(
        add_eq(ValueEq::refl(a), bn_eq_s_b).invert(),
    )
}

/// `a <= a + b`, for `b` of an unsigned representation.
pub fn a_le_a_plus_b<N: UInt>(a: Ghost<Term>, b: &Value<N>) -> (r: ValueLe)
    ensures
        r.lhs() == a@,
        r.rhs() == mk_add(a@, b.term()),
{
    // a <= a + 0 <= a + b
    a_plus_0_eq_a(a).invert().le().trans(add_le(ValueLe::refl(a), a_ge_0(b)))
}

} // verus!
