use vstd::prelude::*;
use crate::term::{Term, den, mk_add, mk_one, mk_pred, mk_succ, mk_sub};
use crate::type_eq::ValueEq;
use super::{add_eq, sub_eq, succ_eq, succ_eq_to_eq};
use super::add::{
    a_plus_0_eq_a, a_plus_s_b_eq_s_add_a_b, add_0_a_eq_a, add_associative, add_commutative,
    add_eq_to_left_eq, s_a_plus_b_eq_s_add_a_b,
};

verus! {

/// Subtraction undoes addition: `(a - b) + b == a`
pub fn a_minus_b_plus_b_eq_a(a: Ghost<Term>, b: Ghost<Term>) -> (r: ValueEq)
    ensures
        r.lhs() == mk_add(mk_sub(a@, b@), b@),
        r.rhs() == a@,
{
    proof {
        reveal_with_fuel(den, 2);
    }
    ValueEq::definition(Ghost(mk_add(mk_sub(a@, b@), b@)), a)
}

/// `a + (b - c) == (a + b) - c`
pub fn add_sub_associative(a: Ghost<Term>, b: Ghost<Term>, c: Ghost<Term>) -> (r: ValueEq)
    ensures
        r.lhs() == mk_add(a@, mk_sub(b@, c@)),
        r.rhs() == mk_sub(mk_add(a@, b@), c@),
{
    let b_c = Ghost(mk_sub(b@, c@));
    let ab = Ghost(mk_add(a@, b@));
    // (a + (b - c)) + c == a + ((b - c) + c) == a + b == ((a + b) - c) + c
    let lemma = add_associative(a, b_c, c).invert().trans(
        add_eq(ValueEq::refl(a), a_minus_b_plus_b_eq_a(b, c)),
    ).trans(a_minus_b_plus_b_eq_a(ab, c).invert());
    add_eq_to_left_eq(lemma, ValueEq::refl(c), Ghost(mk_add(a@, b_c@)), Ghost(mk_sub(ab@, c@)))
}

/// `(a + b) - b == a`
pub fn a_plus_b_minus_b_eq_a(a: Ghost<Term>, b: Ghost<Term>) -> (r: ValueEq)
    ensures
        r.lhs() == mk_sub(mk_add(a@, b@), b@),
        r.rhs() == a@,
{
    let ab = Ghost(mk_add(a@, b@));
    add_eq_to_left_eq(a_minus_b_plus_b_eq_a(ab, b), ValueEq::refl(b), Ghost(mk_sub(ab@, b@)), a)
}

/// `a - (b + c) == (a - b) - c`
pub fn sub_add_associative(a: Ghost<Term>, b: Ghost<Term>, c: Ghost<Term>) -> (r: ValueEq)
    ensures
        r.lhs() == mk_sub(a@, mk_add(b@, c@)),
        r.rhs() == mk_sub(mk_sub(a@, b@), c@),
{
    let bc = Ghost(mk_add(b@, c@));
    let a_b = Ghost(mk_sub(a@, b@));
    let a_b_c = Ghost(mk_sub(a_b@, c@));
    // a - (b + c) + (b + c) == a == (a - b) + b == (((a - b) - c) + c) + b
    //   == ((a - b) - c) + (c + b) == ((a - b) - c) + (b + c)
    let lemma = a_minus_b_plus_b_eq_a(a, bc).trans(a_minus_b_plus_b_eq_a(a, b).invert()).trans(
        add_eq(a_minus_b_plus_b_eq_a(a_b, c).invert(), ValueEq::refl(b)),
    ).trans(add_associative(a_b_c, c, b).invert()).trans(
        add_eq(ValueEq::refl(a_b_c), add_commutative(c, b)),
    );
    add_eq_to_left_eq(lemma, ValueEq::refl(bc), Ghost(mk_sub(a@, bc@)), a_b_c)
}

/// `(a - b) + c == (a + c) - b`
pub fn add_sub_commutative(a: Ghost<Term>, b: Ghost<Term>, c: Ghost<Term>) -> (r: ValueEq)
    ensures
        r.lhs() == mk_add(mk_sub(a@, b@), c@),
        r.rhs() == mk_sub(mk_add(a@, c@), b@),
{
    let a_b = Ghost(mk_sub(a@, b@));
    let ac = Ghost(mk_add(a@, c@));
    // ((a - b) + c) + b == (a - b) + (c + b) == (a - b) + (b + c) == ((a - b) + b) + c
    //   == a + c == ((a + c) - b) + b
    let lemma = add_associative(a_b, c, b).invert().trans(
        add_eq(ValueEq::refl(a_b), add_commutative(c, b)),
    ).trans(add_associative(a_b, b, c)).trans(
        add_eq(a_minus_b_plus_b_eq_a(a, b), ValueEq::refl(c)),
    ).trans(a_minus_b_plus_b_eq_a(ac, b).invert());
    add_eq_to_left_eq(lemma, ValueEq::refl(b), Ghost(mk_add(a_b@, c@)), Ghost(mk_sub(ac@, b@)))
}

/// `a - (b - c) == a + (c - b)`
pub fn a_minus_sub_b_c_eq_a_plus_sub_c_b(a: Ghost<Term>, b: Ghost<Term>, c: Ghost<Term>) -> (r:
    ValueEq)
    ensures
        r.lhs() == mk_sub(a@, mk_sub(b@, c@)),
        r.rhs() == mk_add(a@, mk_sub(c@, b@)),
{
    let b_c = Ghost(mk_sub(b@, c@));
    let c_b = Ghost(mk_sub(c@, b@));
    let lhs = Ghost(mk_sub(a@, b_c@));
    let rhs = Ghost(mk_add(a@, c_b@));
    // (a - (b - c)) + ((b - c) + c) == ((a - (b - c)) + (b - c)) + c == a + c
    //   == a + ((c - b) + b) == (a + (c - b)) + b == (a + (c - b)) + ((b - c) + c)
    let lemma = add_associative(lhs, b_c, c).trans(
        add_eq(a_minus_b_plus_b_eq_a(a, b_c), ValueEq::refl(c)),
    ).trans(add_eq(ValueEq::refl(a), a_minus_b_plus_b_eq_a(c, b).invert())).trans(
        add_associative(a, c_b, b),
    ).trans(add_eq(ValueEq::refl(rhs), a_minus_b_plus_b_eq_a(b, c).invert()));
    add_eq_to_left_eq(lemma, ValueEq::refl(Ghost(mk_add(b_c@, c@))), lhs, rhs)
}

/// `a - (b - c) == (a - b) + c`
pub fn sub_sub_associative(a: Ghost<Term>, b: Ghost<Term>, c: Ghost<Term>) -> (r: ValueEq)
    ensures
        r.lhs() == mk_sub(a@, mk_sub(b@, c@)),
        r.rhs() == mk_add(mk_sub(a@, b@), c@),
{
    // a - (b - c) == a + (c - b) == (a + c) - b == (a - b) + c
    a_minus_sub_b_c_eq_a_plus_sub_c_b(a, b, c).trans(add_sub_associative(a, c, b)).trans(
        add_sub_commutative(a, b, c).invert(),
    )
}

/// `a - a == 0`
pub fn a_minus_a_eq_0(a: Ghost<Term>) -> (r: ValueEq)
    ensures
        r.lhs() == mk_sub(a@, a@),
        r.rhs() == Term::Zero,
{
    // (a - a) + a == a == a + 0 == 0 + a
    let lemma = a_minus_b_plus_b_eq_a(a, a).trans(a_plus_0_eq_a(a).invert()).trans(
        add_commutative(a, Ghost(Term::Zero)),
    );
    add_eq_to_left_eq(lemma, ValueEq::refl(a), Ghost(mk_sub(a@, a@)), Ghost(Term::Zero))
}

/// `a - 0 == a`
pub fn a_minus_0_eq_a(a: Ghost<Term>) -> (r: ValueEq)
    ensures
        r.lhs() == mk_sub(a@, Term::Zero),
        r.rhs() == a@,
{
    // (a - 0) + 0 == a == a + 0
    let lemma = a_minus_b_plus_b_eq_a(a, Ghost(Term::Zero)).trans(a_plus_0_eq_a(a).invert());
    add_eq_to_left_eq(lemma, ValueEq::refl(Ghost(Term::Zero)), Ghost(mk_sub(a@, Term::Zero)), a)
}

/// `Succ(a) - Succ(b) == a - b`
pub fn s_a_minus_s_b_eq_a_minus_b(a: Ghost<Term>, b: Ghost<Term>) -> (r: ValueEq)
    ensures
        r.lhs() == mk_sub(mk_succ(a@), mk_succ(b@)),
        r.rhs() == mk_sub(a@, b@),
{
    let x = Ghost(mk_sub(mk_succ(a@), mk_succ(b@)));
    // Succ(x + b) == x + Succ(b) == Succ(a), so x + b == a
    let lemma = succ_eq_to_eq(
        a_plus_s_b_eq_s_add_a_b(x, b).invert().trans(
            a_minus_b_plus_b_eq_a(Ghost(mk_succ(a@)), Ghost(mk_succ(b@))),
        ),
        Ghost(mk_add(x@, b@)),
        a,
    );
    // x == (x + b) - b == a - b
    a_plus_b_minus_b_eq_a(x, b).invert().trans(sub_eq(lemma, ValueEq::refl(b)))
}

/// `Succ(a) - b == Succ(a - b)`
pub fn s_a_minus_b_eq_s_sub_a_b(a: Ghost<Term>, b: Ghost<Term>) -> (r: ValueEq)
    ensures
        r.lhs() == mk_sub(mk_succ(a@), b@),
        r.rhs() == mk_succ(mk_sub(a@, b@)),
{
    let a_b = Ghost(mk_sub(a@, b@));
    // Succ(a - b) + b == Succ((a - b) + b) == Succ(a)
    let lemma = s_a_plus_b_eq_s_add_a_b(a_b, b).trans(succ_eq(a_minus_b_plus_b_eq_a(a, b)));
    // Succ(a) - b == (Succ(a - b) + b) - b == Succ(a - b)
    sub_eq(lemma, ValueEq::refl(b)).invert().trans(a_plus_b_minus_b_eq_a(Ghost(mk_succ(a_b@)), b))
}

/// `Succ(a) - Succ(0) == a`
pub fn s_a_minus_s_0_eq_a(a: Ghost<Term>) -> (r: ValueEq)
    ensures
        r.lhs() == mk_sub(mk_succ(a@), mk_one()),
        r.rhs() == a@,
{
    s_a_minus_s_b_eq_a_minus_b(a, Ghost(Term::Zero)).trans(a_minus_0_eq_a(a))
}

/// `Succ(a - Succ(b)) == a - b`
pub fn s_sub_a_s_b_eq_a_minus_b(a: Ghost<Term>, b: Ghost<Term>) -> (r: ValueEq)
    ensures
        r.lhs() == mk_succ(mk_sub(a@, mk_succ(b@))),
        r.rhs() == mk_sub(a@, b@),
{
    s_a_minus_b_eq_s_sub_a_b(a, Ghost(mk_succ(b@))).invert().trans(s_a_minus_s_b_eq_a_minus_b(a, b))
}

/// `Succ(a - Succ(0)) == a`
pub fn s_sub_a_s_0_eq_a(a: Ghost<Term>) -> (r: ValueEq)
    ensures
        r.lhs() == mk_succ(mk_pred(a@)),
        r.rhs() == a@,
{
    s_sub_a_s_b_eq_a_minus_b(a, Ghost(Term::Zero)).trans(a_minus_0_eq_a(a))
}

/// `a - c == b - d && c == d  ==>  a == b`
pub fn sub_eq_to_left_eq(eq: ValueEq, c_eq_d: ValueEq, a: Ghost<Term>, b: Ghost<Term>) -> (r: ValueEq)
    requires
        eq.lhs() == mk_sub(a@, c_eq_d.lhs()),
        eq.rhs() == mk_sub(b@, c_eq_d.rhs()),
    ensures
        r.lhs() == a@,
        r.rhs() == b@,
{
    // a == (a - c) + c == (b - d) + d == b
    a_minus_b_plus_b_eq_a(a, Ghost(c_eq_d.lhs())).invert().trans(add_eq(eq, c_eq_d)).trans(
        a_minus_b_plus_b_eq_a(b, Ghost(c_eq_d.rhs())),
    )
}

/// `a - (a - b) == b`
pub fn a_minus_sub_a_b_eq_b(a: Ghost<Term>, b: Ghost<Term>) -> (r: ValueEq)
    ensures
        r.lhs() == mk_sub(a@, mk_sub(a@, b@)),
        r.rhs() == b@,
{
    // a - (a - b) == (a - a) + b == 0 + b == b
    sub_sub_associative(a, a, b).trans(add_eq(a_minus_a_eq_0(a), ValueEq::refl(b))).trans(
        add_0_a_eq_a(b),
    )
}

/// `a - c == b - d && a == b  ==>  c == d`
pub fn sub_eq_to_right_eq(eq: ValueEq, a_eq_b: ValueEq, c: Ghost<Term>, d: Ghost<Term>) -> (r: ValueEq)
    requires
        eq.lhs() == mk_sub(a_eq_b.lhs(), c@),
        eq.rhs() == mk_sub(a_eq_b.rhs(), d@),
    ensures
        r.lhs() == c@,
        r.rhs() == d@,
{
    // c == a - (a - c) == b - (b - d) == d
    a_minus_sub_a_b_eq_b(Ghost(a_eq_b.lhs()), c).invert().trans(sub_eq(a_eq_b, eq)).trans(
        a_minus_sub_a_b_eq_b(Ghost(a_eq_b.rhs()), d),
    )
}

} // verus!
