use vstd::prelude::*;
use crate::term::{Term, Value, den, is_bool, mk_not, value_eq};
use crate::type_eq::{ValueEq, ValueNe};

pub mod and;
pub mod not;
pub mod or;
pub mod xor;

verus! {

/// The value of `True`.
#[allow(non_snake_case)]
pub fn True() -> (r: Value<bool>)
    ensures
        r.term() == Term::True,
        r.rep() == true,
{
    Value::definition(true, Ghost(Term::True))
}

/// The value of `False`.
#[allow(non_snake_case)]
pub fn False() -> (r: Value<bool>)
    ensures
        r.term() == Term::False,
        r.rep() == false,
{
    Value::definition(false, Ghost(Term::False))
}

/// The boolean constant `B`.
#[allow(non_snake_case)]
pub fn ConstBool<const B: bool>() -> (r: Value<bool>)
    ensures
        r.term() == (if B { Term::True } else { Term::False }),
        r.rep() == B,
{
    if B {
        True()
    } else {
        False()
    }
}

/// There are at least two booleans: `True != False`
pub fn true_ne_false() -> (r: ValueNe)
    ensures
        r.lhs() == Term::True,
        r.rhs() == Term::False,
{
    ValueNe::definition(Ghost(Term::True), Ghost(Term::False))
}

/// There are at most two booleans: `a != c && b != c  ==>  a == b`
pub fn ne_ne_implies_eq(a_ne: ValueNe, b_ne: ValueNe) -> (r: ValueEq)
    requires
        a_ne.rhs() == b_ne.rhs(),
        is_bool(a_ne.lhs()),
        is_bool(b_ne.lhs()),
        is_bool(a_ne.rhs()),
    ensures
        r.lhs() == a_ne.lhs(),
        r.rhs() == b_ne.lhs(),
{
    a_ne.holds();
    b_ne.holds();
    ValueEq::definition(Ghost(a_ne.lhs()), Ghost(b_ne.lhs()))
}

/// `x != True  ==>  x == False`
pub fn ne_true_implies_false(ne: ValueNe) -> (r: ValueEq)
    requires
        ne.rhs() == Term::True,
        is_bool(ne.lhs()),
    ensures
        r.lhs() == ne.lhs(),
        r.rhs() == Term::False,
{
    ne_ne_implies_eq(ne, true_ne_false().invert())
}

/// `x != False  ==>  x == True`
pub fn ne_false_implies_true(ne: ValueNe) -> (r: ValueEq)
    requires
        ne.rhs() == Term::False,
        is_bool(ne.lhs()),
    ensures
        r.lhs() == ne.lhs(),
        r.rhs() == Term::True,
{
    ne_ne_implies_eq(ne, true_ne_false())
}

/// The boolean case split: evidence of `b == True` or of `b == False`, from
/// the runtime value.
pub fn choose_bool(b: Value<bool>) -> (r: Result<ValueEq, ValueEq>)
    ensures
        r is Ok <==> b.rep(),
        r matches Ok(w) ==> w.lhs() == b.term() && w.rhs() == Term::True,
        r matches Err(w) ==> w.lhs() == b.term() && w.rhs() == Term::False,
{
    b.holds();
    let ghost rep = b.rep();
    match value_eq(b, True()) {
        Ok(eq) => Ok(eq),
        Err(ne) => Err(ne_true_implies_false(ne)),
    }
}

/// Every boolean value is exactly one of `True` and `False`, and negating it
/// twice gives it back.
pub proof fn lemma_bool_totality(b: Value<bool>)
    requires
        b.valid(),
    ensures
        is_bool(b.term()),
        (den(b.term()) == den(Term::True)) != (den(b.term()) == den(Term::False)),
        den(mk_not(mk_not(b.term()))) == den(b.term()),
{
    reveal_with_fuel(den, 3);
}

} // verus!
