use vstd::prelude::*;
use crate::term::{Repr, Term, Value, den, lemma_den_one, mk_wrap, wrap, mk_add, mk_neg, mk_one, mk_pred, mk_sub, mk_succ, value_cmp};
use crate::type_eq::{ValueEq, ValueLt, ValueNe, ValueOrdering};
use crate::var::{Guard, Var};
use self::prim::{
    i64_checked_add, i64_checked_neg, i64_checked_sub, i64_is_zero, i64_wrapping_add,
    u8_checked_add, u8_checked_neg, u8_checked_sub, u8_is_zero, u8_wrapping_add,
    usize_checked_add, usize_checked_neg, usize_checked_sub, usize_is_zero, usize_wrapping_add,
};
use self::sub::{s_a_minus_s_0_eq_a, s_sub_a_s_0_eq_a};

pub mod add;
pub mod neg;
mod prim;
pub mod sub;
pub mod uint;

verus! {

/// A runtime representation of an interval of the integers, with checked
/// arithmetic that reports leaving the interval, and an addition that wraps
/// around at its ends.
pub trait Int: Repr {
    spec fn lowest() -> int;

    spec fn highest() -> int;

    /// Every runtime value lies in the interval, which holds zero and one.
    proof fn lemma_bounds(x: &Self)
        ensures
            Self::lowest() <= x.den() <= Self::highest(),
            Self::lowest() <= 0,
            1 <= Self::highest(),
    ;

    fn zero() -> (r: Self)
        ensures
            r.den() == 0,
    ;

    fn one() -> (r: Self)
        ensures
            r.den() == 1,
    ;

    fn checked_add(&self, other: &Self) -> (r: Option<Self>)
        ensures
            r is Some <==> Self::lowest() <= self.den() + other.den() <= Self::highest(),
            r matches Some(v) ==> v.den() == self.den() + other.den(),
    ;

    fn checked_sub(&self, other: &Self) -> (r: Option<Self>)
        ensures
            r is Some <==> Self::lowest() <= self.den() - other.den() <= Self::highest(),
            r matches Some(v) ==> v.den() == self.den() - other.den(),
    ;

    fn checked_neg(&self) -> (r: Option<Self>)
        ensures
            r is Some <==> Self::lowest() <= -self.den() <= Self::highest(),
            r matches Some(v) ==> v.den() == -self.den(),
    ;

    fn is_zero(&self) -> (r: bool)
        ensures
            r == (self.den() == 0),
    ;

    fn wrapping_add(&self, other: &Self) -> (r: Self)
        ensures
            r.den() == wrap(self.den() + other.den(), Self::lowest(), Self::highest()),
    ;
}

/// An interval of the integers that starts at zero.
pub trait UInt: Int {
    proof fn lemma_unsigned()
        ensures
            Self::lowest() == 0,
    ;
}

/// `x` lies in the interval that `N` represents.
pub open spec fn fits<N: Int>(x: int) -> bool {
    N::lowest() <= x <= N::highest()
}

impl Int for u8 {
    open spec fn lowest() -> int {
        0
    }

    open spec fn highest() -> int {
        u8::MAX as int
    }

    proof fn lemma_bounds(x: &Self) {
    }

    fn zero() -> (r: Self) {
        0
    }

    fn one() -> (r: Self) {
        1
    }

    fn checked_add(&self, other: &Self) -> (r: Option<Self>) {
        u8_checked_add(self, other)
    }

    fn checked_sub(&self, other: &Self) -> (r: Option<Self>) {
        u8_checked_sub(self, other)
    }

    fn checked_neg(&self) -> (r: Option<Self>) {
        u8_checked_neg(self)
    }

    fn is_zero(&self) -> (r: bool) {
        u8_is_zero(self)
    }

    fn wrapping_add(&self, other: &Self) -> (r: Self) {
        u8_wrapping_add(self, other)
    }
}

impl UInt for u8 {
    proof fn lemma_unsigned() {
    }
}

impl Int for usize {
    open spec fn lowest() -> int {
        0
    }

    open spec fn highest() -> int {
        usize::MAX as int
    }

    proof fn lemma_bounds(x: &Self) {
    }

    fn zero() -> (r: Self) {
        0
    }

    fn one() -> (r: Self) {
        1
    }

    fn checked_add(&self, other: &Self) -> (r: Option<Self>) {
        usize_checked_add(self, other)
    }

    fn checked_sub(&self, other: &Self) -> (r: Option<Self>) {
        usize_checked_sub(self, other)
    }

    fn checked_neg(&self) -> (r: Option<Self>) {
        usize_checked_neg(self)
    }

    fn is_zero(&self) -> (r: bool) {
        usize_is_zero(self)
    }

    fn wrapping_add(&self, other: &Self) -> (r: Self) {
        usize_wrapping_add(self, other)
    }
}

impl UInt for usize {
    proof fn lemma_unsigned() {
    }
}

impl Int for i64 {
    open spec fn lowest() -> int {
        i64::MIN as int
    }

    open spec fn highest() -> int {
        i64::MAX as int
    }

    proof fn lemma_bounds(x: &Self) {
    }

    fn zero() -> (r: Self) {
        0
    }

    fn one() -> (r: Self) {
        1
    }

    fn checked_add(&self, other: &Self) -> (r: Option<Self>) {
        i64_checked_add(self, other)
    }

    fn checked_sub(&self, other: &Self) -> (r: Option<Self>) {
        i64_checked_sub(self, other)
    }

    fn checked_neg(&self) -> (r: Option<Self>) {
        i64_checked_neg(self)
    }

    fn is_zero(&self) -> (r: bool) {
        i64_is_zero(self)
    }

    fn wrapping_add(&self, other: &Self) -> (r: Self) {
        i64_wrapping_add(self, other)
    }
}

/// The value of `Zero`.
#[allow(non_snake_case)]
pub fn Zero<N: Int>() -> (r: Value<N>)
    ensures
        r.term() == Term::Zero,
{
    Value::definition(N::zero(), Ghost(Term::Zero))
}

/// The value of `Succ(Zero)`.
#[allow(non_snake_case)]
pub fn One<N: Int>() -> (r: Value<N>)
    ensures
        r.term() == mk_one(),
{
    let z = N::zero();
    proof {
        N::lemma_bounds(&z);
        lemma_den_one();
    }
    Value::definition(N::one(), Ghost(mk_one()))
}

/// The value of `Succ(a)`. The successor of the largest representable value
/// is not representable, so `a` must have a successor in `N`.
#[allow(non_snake_case)]
pub fn Succ<N: Int>(a: Value<N>) -> (r: Value<N>)
    requires
        fits::<N>(den(a.term()) + 1),
    ensures
        r.term() == mk_succ(a.term()),
{
    a.holds();
    let t = Ghost(mk_succ(a.term()));
    let one = N::one();
    let x = a.into_inner();
    match x.checked_add(&one) {
        Some(v) => Value::definition(v, t),
        None => vstd::pervasive::unreached(),
    }
}

/// The value of `Succ(a)`, or `None` where the successor is not representable.
pub fn checked_succ<N: Int>(a: Value<N>) -> (r: Option<Value<N>>)
    ensures
        r is Some <==> fits::<N>(den(a.term()) + 1),
        r matches Some(v) ==> v.term() == mk_succ(a.term()),
{
    a.holds();
    let t = Ghost(mk_succ(a.term()));
    let one = N::one();
    match a.get().checked_add(&one) {
        Some(v) => Some(Value::definition(v, t)),
        None => None,
    }
}

/// The value of `a + b`.
#[allow(non_snake_case)]
pub fn Add<N: Int>(a: Value<N>, b: Value<N>) -> (r: Value<N>)
    requires
        fits::<N>(den(a.term()) + den(b.term())),
    ensures
        r.term() == mk_add(a.term(), b.term()),
{
    a.holds();
    b.holds();
    let t = Ghost(mk_add(a.term(), b.term()));
    match a.get().checked_add(b.get()) {
        Some(v) => Value::definition(v, t),
        None => vstd::pervasive::unreached(),
    }
}

/// The value of `a + b` in arithmetic that wraps around at the bounds of `N`:
/// the term is the sum reduced into the interval of `N`, so it never fails.
#[allow(non_snake_case)]
pub fn XAdd<N: Int>(a: Value<N>, b: Value<N>) -> (r: Value<N>)
    ensures
        r.term() == mk_wrap(mk_add(a.term(), b.term()), N::lowest(), N::highest()),
{
    a.holds();
    b.holds();
    let t = Ghost(mk_wrap(mk_add(a.term(), b.term()), N::lowest(), N::highest()));
    let v = a.get().wrapping_add(b.get());
    proof {
        reveal_with_fuel(den, 2);
    }
    Value::definition(v, t)
}

/// The value of `a - b`.
#[allow(non_snake_case)]
pub fn Sub<N: Int>(a: Value<N>, b: Value<N>) -> (r: Value<N>)
    requires
        fits::<N>(den(a.term()) - den(b.term())),
    ensures
        r.term() == mk_sub(a.term(), b.term()),
{
    a.holds();
    b.holds();
    let t = Ghost(mk_sub(a.term(), b.term()));
    match a.get().checked_sub(b.get()) {
        Some(v) => Value::definition(v, t),
        None => vstd::pervasive::unreached(),
    }
}

/// The value of `-a`.
#[allow(non_snake_case)]
pub fn Neg<N: Int>(a: Value<N>) -> (r: Value<N>)
    requires
        fits::<N>(-den(a.term())),
    ensures
        r.term() == mk_neg(a.term()),
{
    a.holds();
    let t = Ghost(mk_neg(a.term()));
    match a.get().checked_neg() {
        Some(v) => Value::definition(v, t),
        None => vstd::pervasive::unreached(),
    }
}

/// The value of `a - Succ(Zero)`.
#[allow(non_snake_case)]
pub fn Pred<N: Int>(a: Value<N>) -> (r: Value<N>)
    requires
        fits::<N>(den(a.term()) - 1),
    ensures
        r.term() == mk_pred(a.term()),
{
    proof {
        lemma_den_one();
    }
    Sub(a, One())
}

/// `a0 == a1  ==>  Succ(a0) == Succ(a1)`
pub fn succ_eq(eq: ValueEq) -> (r: ValueEq)
    ensures
        r.lhs() == mk_succ(eq.lhs()),
        r.rhs() == mk_succ(eq.rhs()),
{
    eq.holds();
    ValueEq::definition(Ghost(mk_succ(eq.lhs())), Ghost(mk_succ(eq.rhs())))
}

/// `a0 == a1 && b0 == b1  ==>  a0 + b0 == a1 + b1`
pub fn add_eq(a: ValueEq, b: ValueEq) -> (r: ValueEq)
    ensures
        r.lhs() == mk_add(a.lhs(), b.lhs()),
        r.rhs() == mk_add(a.rhs(), b.rhs()),
{
    a.holds();
    b.holds();
    ValueEq::definition(Ghost(mk_add(a.lhs(), b.lhs())), Ghost(mk_add(a.rhs(), b.rhs())))
}

/// `a0 == a1 && b0 == b1  ==>  a0 - b0 == a1 - b1`
pub fn sub_eq(a: ValueEq, b: ValueEq) -> (r: ValueEq)
    ensures
        r.lhs() == mk_sub(a.lhs(), b.lhs()),
        r.rhs() == mk_sub(a.rhs(), b.rhs()),
{
    a.holds();
    b.holds();
    ValueEq::definition(Ghost(mk_sub(a.lhs(), b.lhs())), Ghost(mk_sub(a.rhs(), b.rhs())))
}

/// `a0 == a1  ==>  -a0 == -a1`
pub fn neg_eq(eq: ValueEq) -> (r: ValueEq)
    ensures
        r.lhs() == mk_neg(eq.lhs()),
        r.rhs() == mk_neg(eq.rhs()),
{
    eq.holds();
    ValueEq::definition(Ghost(mk_neg(eq.lhs())), Ghost(mk_neg(eq.rhs())))
}

/// Evidence of `v == 0` or of `v != 0`, from the runtime value.
pub fn is_zero<N: Int>(v: &Value<N>) -> (r: Result<ValueEq, ValueNe>)
    ensures
        r is Ok <==> den(v.term()) == 0,
        r matches Ok(w) ==> w.lhs() == v.term() && w.rhs() == Term::Zero,
        r matches Err(w) ==> w.lhs() == v.term() && w.rhs() == Term::Zero,
{
    v.holds();
    if v.get().is_zero() {
        Ok(ValueEq::definition(Ghost(v.term()), Ghost(Term::Zero)))
    } else {
        Err(ValueNe::definition(Ghost(v.term()), Ghost(Term::Zero)))
    }
}

/// `a < Succ(a)`
pub fn a_lt_s_a(a: Ghost<Term>) -> (r: ValueLt)
    ensures
        r.lhs() == a@,
        r.rhs() == mk_succ(a@),
{
    ValueLt::definition(a, Ghost(mk_succ(a@)))
}

/// `Succ(a) == Succ(b)  ==>  a == b`
pub fn succ_eq_to_eq(eq: ValueEq, a: Ghost<Term>, b: Ghost<Term>) -> (r: ValueEq)
    requires
        eq.lhs() == mk_succ(a@),
        eq.rhs() == mk_succ(b@),
    ensures
        r.lhs() == a@,
        r.rhs() == b@,
{
    eq.holds();
    ValueEq::definition(a, b)
}

/// Splits on the sign of `v`: `Err` with evidence of `v == 0`; `Ok(Ok(p))` with
/// the value `p` of `v - 1` when `v > 0`; `Ok(Err(s))` with the value `s` of
/// `Succ(v)` when `v < 0`.
pub fn int_pred_or_succ<N: Int>(v: Value<N>) -> (r: Result<Result<Value<N>, Value<N>>, ValueEq>)
    ensures
        r is Err <==> den(v.term()) == 0,
        r matches Err(w) ==> w.lhs() == v.term() && w.rhs() == Term::Zero,
        r matches Ok(Ok(p)) ==> den(v.term()) > 0 && p.term() == mk_pred(v.term()),
        r matches Ok(Err(s)) ==> den(v.term()) < 0 && s.term() == mk_succ(v.term()),
{
    v.holds();
    proof {
        N::lemma_bounds(&v.rep());
        lemma_den_one();
    }
    match value_cmp(v.duplicate(), Zero()) {
        ValueOrdering::Eq(eq) => Err(eq),
        ValueOrdering::Lt(lt) => {
            lt.holds();
            Ok(Err(Succ(v)))
        },
        ValueOrdering::Gt(gt) => {
            gt.holds();
            Ok(Ok(Pred(v)))
        },
    }
}

/// Names the neighbour of a non-zero `v` under the brand of `guard`: for
/// `v > 0` a fresh `p` with `v == Succ(p)`, for `v < 0` a fresh `s` with
/// `v == s - 1`. For `v == 0`, evidence of it.
pub fn int_as_succ_or_pred<N: Int>(guard: Guard, v: Value<N>) -> (r: Result<
    (Value<N>, Result<ValueEq, ValueEq>),
    ValueEq,
>)
    ensures
        r is Err <==> den(v.term()) == 0,
        r matches Err(w) ==> w.lhs() == v.term() && w.rhs() == Term::Zero,
        r matches Ok((x, Ok(w))) ==> den(v.term()) > 0 && x.term() == Term::Var(
            guard.id() as nat,
            den(v.term()) - 1,
        ) && w.lhs() == v.term() && w.rhs() == mk_succ(x.term()),
        r matches Ok((x, Err(w))) ==> den(v.term()) < 0 && x.term() == Term::Var(
            guard.id() as nat,
            den(v.term()) + 1,
        ) && w.lhs() == v.term() && w.rhs() == mk_pred(x.term()),
{
    let ghost a = v.term();
    v.holds();
    proof {
        N::lemma_bounds(&v.rep());
        lemma_den_one();
    }
    match int_pred_or_succ(v) {
        Err(eq) => Err(eq),
        Ok(Err(succ)) => {
            let (var, eq) = Var::alias(guard, succ);
            // a == (Succ(a) - 1) == x - 1
            let back = s_a_minus_s_0_eq_a(Ghost(a)).invert();
            let w = back.trans(sub_eq(eq, ValueEq::refl(Ghost(mk_one()))));
            Ok((var, Err(w)))
        },
        Ok(Ok(pred)) => {
            let (var, eq) = Var::alias(guard, pred);
            // a == Succ(a - 1) == Succ(x)
            let back = s_sub_a_s_0_eq_a(Ghost(a)).invert();
            let w = back.trans(succ_eq(eq));
            Ok((var, Ok(w)))
        },
    }
}

/// The constant `V`.
#[allow(non_snake_case)]
pub fn ConstU8<const V: u8>() -> (r: Value<u8>)
    ensures
        r.term() == Term::Lit(V as int),
        r.rep() == V,
{
    Value::definition(V, Ghost(Term::Lit(V as int)))
}

/// The constant `V`.
#[allow(non_snake_case)]
pub fn ConstU16<const V: u16>() -> (r: Value<u16>)
    ensures
        r.term() == Term::Lit(V as int),
        r.rep() == V,
{
    Value::definition(V, Ghost(Term::Lit(V as int)))
}

/// The constant `V`.
#[allow(non_snake_case)]
pub fn ConstU32<const V: u32>() -> (r: Value<u32>)
    ensures
        r.term() == Term::Lit(V as int),
        r.rep() == V,
{
    Value::definition(V, Ghost(Term::Lit(V as int)))
}

/// The constant `V`.
#[allow(non_snake_case)]
pub fn ConstU64<const V: u64>() -> (r: Value<u64>)
    ensures
        r.term() == Term::Lit(V as int),
        r.rep() == V,
{
    Value::definition(V, Ghost(Term::Lit(V as int)))
}

/// The constant `V`.
#[allow(non_snake_case)]
pub fn ConstUsize<const V: usize>() -> (r: Value<usize>)
    ensures
        r.term() == Term::Lit(V as int),
        r.rep() == V,
{
    Value::definition(V, Ghost(Term::Lit(V as int)))
}

/// At the largest value of `N` the successor is not representable, so `Succ`
/// refuses it and `checked_succ` returns `None`; the wrapping sum with one
/// goes around to the smallest value of `N`.
pub proof fn lemma_successor_of_maximum<N: Int>(x: Value<N>)
    requires
        x.valid(),
        den(x.term()) == N::highest(),
    ensures
        !fits::<N>(den(x.term()) + 1),
        den(mk_wrap(mk_add(x.term(), mk_one()), N::lowest(), N::highest())) == N::lowest(),
{
    N::lemma_bounds(&x.rep());
    lemma_den_one();
    reveal_with_fuel(den, 2);
    let size = N::highest() - N::lowest() + 1;
    assert(size % size == 0) by (nonlinear_arith)
        requires
            size > 0,
    ;
}

} // verus!
