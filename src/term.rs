use vstd::prelude::*;
use crate::type_eq::{ValueEq, ValueLe, ValueLt, ValueNe, ValueOrdering, Equiv};
use core::cmp::Ordering;

verus! {

/// A symbolic term: a name for a mathematical value.
///
/// Numeric terms denote integers. Boolean terms denote `0` (false) or `1`
/// (true), which is also the order Rust gives to `bool`.
pub enum Term {
    /// A constant.
    Lit(int),
    /// Zero of a numeric family.
    Zero,
    /// Successor: the argument plus one.
    Succ(Box<Term>),
    Add(Box<Term>, Box<Term>),
    Sub(Box<Term>, Box<Term>),
    Neg(Box<Term>),
    /// A fresh name minted under the brand with the given id, standing for
    /// the given value.
    Var(nat, int),
    /// The argument reduced into the interval `[lo, hi]`, as fixed-width
    /// arithmetic that wraps around does: `Wrap(a, lo, hi)`.
    Wrap(Box<Term>, int, int),
    True,
    False,
    Not(Box<Term>),
    And(Box<Term>, Box<Term>),
    Or(Box<Term>, Box<Term>),
    Xor(Box<Term>, Box<Term>),
}

/// The truth value of a boolean denotation.
pub open spec fn truth(x: int) -> bool {
    x != 0
}

/// The denotation of a truth value.
pub open spec fn bit(b: bool) -> int {
    if b { 1 } else { 0 }
}

/// `x` reduced into `[lo, hi]`: the one value of the interval that differs
/// from `x` by a multiple of its size.
pub open spec fn wrap(x: int, lo: int, hi: int) -> int {
    if lo <= hi {
        lo + (x - lo) % (hi - lo + 1)
    } else {
        x
    }
}

/// What a term denotes.
pub open spec fn den(t: Term) -> int
    decreases t,
{
    match t {
        Term::Lit(n) => n,
        Term::Zero => 0,
        Term::Succ(a) => den(*a) + 1,
        Term::Add(a, b) => den(*a) + den(*b),
        Term::Sub(a, b) => den(*a) - den(*b),
        Term::Neg(a) => -den(*a),
        Term::Var(_, v) => v,
        Term::Wrap(a, lo, hi) => wrap(den(*a), lo, hi),
        Term::True => 1,
        Term::False => 0,
        Term::Not(a) => bit(!truth(den(*a))),
        Term::And(a, b) => bit(truth(den(*a)) && truth(den(*b))),
        Term::Or(a, b) => bit(truth(den(*a)) || truth(den(*b))),
        Term::Xor(a, b) => bit(truth(den(*a)) != truth(den(*b))),
    }
}

/// `Succ(a)`
pub open spec fn mk_succ(a: Term) -> Term {
    Term::Succ(Box::new(a))
}

/// `a + b`
pub open spec fn mk_add(a: Term, b: Term) -> Term {
    Term::Add(Box::new(a), Box::new(b))
}

/// `a - b`
pub open spec fn mk_sub(a: Term, b: Term) -> Term {
    Term::Sub(Box::new(a), Box::new(b))
}

/// `-a`
pub open spec fn mk_neg(a: Term) -> Term {
    Term::Neg(Box::new(a))
}

/// `Succ(Zero)`
pub open spec fn mk_one() -> Term {
    mk_succ(Term::Zero)
}

/// `a - Succ(Zero)`
pub open spec fn mk_pred(a: Term) -> Term {
    mk_sub(a, mk_one())
}

/// `a` reduced into `[lo, hi]`
pub open spec fn mk_wrap(a: Term, lo: int, hi: int) -> Term {
    Term::Wrap(Box::new(a), lo, hi)
}

/// `!a`
pub open spec fn mk_not(a: Term) -> Term {
    Term::Not(Box::new(a))
}

/// `a && b`
pub open spec fn mk_and(a: Term, b: Term) -> Term {
    Term::And(Box::new(a), Box::new(b))
}

/// `a || b`
pub open spec fn mk_or(a: Term, b: Term) -> Term {
    Term::Or(Box::new(a), Box::new(b))
}

/// `a ^ b`
pub open spec fn mk_xor(a: Term, b: Term) -> Term {
    Term::Xor(Box::new(a), Box::new(b))
}

/// `Succ(Zero)` denotes one.
pub proof fn lemma_den_one()
    ensures
        den(mk_one()) == 1,
{
    reveal_with_fuel(den, 2);
}

/// A term denotes a boolean.
pub open spec fn is_bool(t: Term) -> bool {
    den(t) == 0 || den(t) == 1
}

/// A runtime representation of term values.
pub trait Repr: Sized {
    /// The integer that a runtime value stands for.
    spec fn den(&self) -> int;

    /// Distinct runtime values stand for distinct integers.
    proof fn lemma_den_injective(a: &Self, b: &Self)
        requires
            a.den() == b.den(),
        ensures
            *a == *b,
    ;

    /// Decidable equality.
    fn same(&self, other: &Self) -> (r: bool)
        ensures
            r == (self.den() == other.den()),
    ;

    /// Total order.
    fn at_most(&self, other: &Self) -> (r: bool)
        ensures
            r == (self.den() <= other.den()),
    ;

    /// A copy of the runtime value.
    fn duplicate(&self) -> (r: Self)
        ensures
            r == *self,
    ;
}

impl Repr for u8 {
    open spec fn den(&self) -> int {
        *self as int
    }

    proof fn lemma_den_injective(a: &Self, b: &Self) {
    }

    fn same(&self, other: &Self) -> (r: bool) {
        *self == *other
    }

    fn at_most(&self, other: &Self) -> (r: bool) {
        *self <= *other
    }

    fn duplicate(&self) -> (r: Self) {
        *self
    }
}

impl Repr for u16 {
    open spec fn den(&self) -> int {
        *self as int
    }

    proof fn lemma_den_injective(a: &Self, b: &Self) {
    }

    fn same(&self, other: &Self) -> (r: bool) {
        *self == *other
    }

    fn at_most(&self, other: &Self) -> (r: bool) {
        *self <= *other
    }

    fn duplicate(&self) -> (r: Self) {
        *self
    }
}

impl Repr for u32 {
    open spec fn den(&self) -> int {
        *self as int
    }

    proof fn lemma_den_injective(a: &Self, b: &Self) {
    }

    fn same(&self, other: &Self) -> (r: bool) {
        *self == *other
    }

    fn at_most(&self, other: &Self) -> (r: bool) {
        *self <= *other
    }

    fn duplicate(&self) -> (r: Self) {
        *self
    }
}

impl Repr for u64 {
    open spec fn den(&self) -> int {
        *self as int
    }

    proof fn lemma_den_injective(a: &Self, b: &Self) {
    }

    fn same(&self, other: &Self) -> (r: bool) {
        *self == *other
    }

    fn at_most(&self, other: &Self) -> (r: bool) {
        *self <= *other
    }

    fn duplicate(&self) -> (r: Self) {
        *self
    }
}

impl Repr for usize {
    open spec fn den(&self) -> int {
        *self as int
    }

    proof fn lemma_den_injective(a: &Self, b: &Self) {
    }

    fn same(&self, other: &Self) -> (r: bool) {
        *self == *other
    }

    fn at_most(&self, other: &Self) -> (r: bool) {
        *self <= *other
    }

    fn duplicate(&self) -> (r: Self) {
        *self
    }
}

impl Repr for i8 {
    open spec fn den(&self) -> int {
        *self as int
    }

    proof fn lemma_den_injective(a: &Self, b: &Self) {
    }

    fn same(&self, other: &Self) -> (r: bool) {
        *self == *other
    }

    fn at_most(&self, other: &Self) -> (r: bool) {
        *self <= *other
    }

    fn duplicate(&self) -> (r: Self) {
        *self
    }
}

impl Repr for i16 {
    open spec fn den(&self) -> int {
        *self as int
    }

    proof fn lemma_den_injective(a: &Self, b: &Self) {
    }

    fn same(&self, other: &Self) -> (r: bool) {
        *self == *other
    }

    fn at_most(&self, other: &Self) -> (r: bool) {
        *self <= *other
    }

    fn duplicate(&self) -> (r: Self) {
        *self
    }
}

impl Repr for i32 {
    open spec fn den(&self) -> int {
        *self as int
    }

    proof fn lemma_den_injective(a: &Self, b: &Self) {
    }

    fn same(&self, other: &Self) -> (r: bool) {
        *self == *other
    }

    fn at_most(&self, other: &Self) -> (r: bool) {
        *self <= *other
    }

    fn duplicate(&self) -> (r: Self) {
        *self
    }
}

impl Repr for i64 {
    open spec fn den(&self) -> int {
        *self as int
    }

    proof fn lemma_den_injective(a: &Self, b: &Self) {
    }

    fn same(&self, other: &Self) -> (r: bool) {
        *self == *other
    }

    fn at_most(&self, other: &Self) -> (r: bool) {
        *self <= *other
    }

    fn duplicate(&self) -> (r: Self) {
        *self
    }
}

impl Repr for isize {
    open spec fn den(&self) -> int {
        *self as int
    }

    proof fn lemma_den_injective(a: &Self, b: &Self) {
    }

    fn same(&self, other: &Self) -> (r: bool) {
        *self == *other
    }

    fn at_most(&self, other: &Self) -> (r: bool) {
        *self <= *other
    }

    fn duplicate(&self) -> (r: Self) {
        *self
    }
}

impl Repr for bool {
    open spec fn den(&self) -> int {
        bit(*self)
    }

    proof fn lemma_den_injective(a: &Self, b: &Self) {
    }

    fn same(&self, other: &Self) -> (r: bool) {
        *self == *other
    }

    fn at_most(&self, other: &Self) -> (r: bool) {
        !*self || *other
    }

    fn duplicate(&self) -> (r: Self) {
        *self
    }
}

/// Value of a term: a runtime value together with the term it equals.
pub struct Value<T: Repr> {
    rep: T,
    term: Ghost<Term>,
}

impl<T: Repr> Value<T> {
    #[verifier::type_invariant]
    spec fn inv(self) -> bool {
        self.rep.den() == den(self.term@)
    }

    /// The term this value is tagged with.
    pub closed spec fn term(self) -> Term {
        self.term@
    }

    /// The runtime value.
    pub closed spec fn rep(self) -> T {
        self.rep
    }

    /// The runtime value stands for the value of the term.
    pub open spec fn valid(self) -> bool {
        self.rep().den() == den(self.term())
    }

    /// Two values with the same runtime value and term are the same value.
    pub proof fn lemma_ext_equal(a: Value<T>, b: Value<T>)
        requires
            a.rep() == b.rep(),
            a.term() == b.term(),
        ensures
            a == b,
    {
        assert(a.term == b.term);
    }

    /// The runtime value stands for the value of the term.
    pub fn holds(&self)
        ensures
            self.valid(),
    {
        proof {
            use_type_invariant(self);
        }
    }
    /// Tags a runtime value with a term that denotes it.
    pub fn definition(rep: T, term: Ghost<Term>) -> (r: Value<T>)
        requires
            rep.den() == den(term@),
        ensures
            r.rep() == rep,
            r.term() == term@,
    {
        Value { rep, term }
    }

    /// The runtime value.
    pub fn into_inner(self) -> (r: T)
        ensures
            r == self.rep(),
            r.den() == den(self.term()),
    {
        proof {
            use_type_invariant(&self);
        }
        self.rep
    }

    /// The runtime value, borrowed.
    pub fn get(&self) -> (r: &T)
        ensures
            *r == self.rep(),
            r.den() == den(self.term()),
    {
        proof {
            use_type_invariant(self);
        }
        &self.rep
    }

    /// A second value with the same runtime value and term.
    pub fn duplicate(&self) -> (r: Value<T>)
        ensures
            r == *self,
    {
        proof {
            use_type_invariant(self);
        }
        Value { rep: self.rep.duplicate(), term: self.term }
    }

    /// Values of equal terms may be re-tagged into one another.
    pub fn equiv(eq: ValueEq) -> (r: Equiv)
        ensures
            r.lhs() == eq.lhs(),
            r.rhs() == eq.rhs(),
    {
        eq
    }
}

/// Evidence of `x == y` or of `x != y`, from a comparison of the runtime values.
pub fn value_eq<T: Repr>(x: Value<T>, y: Value<T>) -> (r: Result<ValueEq, ValueNe>)
    ensures
        r is Ok <==> den(x.term()) == den(y.term()),
        r matches Ok(w) ==> w.lhs() == x.term() && w.rhs() == y.term(),
        r matches Err(w) ==> w.lhs() == x.term() && w.rhs() == y.term(),
{
    x.holds();
    y.holds();
    if x.get().same(y.get()) {
        Ok(ValueEq::definition(Ghost(x.term()), Ghost(y.term())))
    } else {
        Err(ValueNe::definition(Ghost(x.term()), Ghost(y.term())))
    }
}

/// Evidence of `x <= y`, when it holds.
pub fn value_le<T: Repr>(x: Value<T>, y: Value<T>) -> (r: Option<ValueLe>)
    ensures
        r is Some <==> den(x.term()) <= den(y.term()),
        r matches Some(w) ==> w.lhs() == x.term() && w.rhs() == y.term(),
{
    x.holds();
    y.holds();
    if x.get().at_most(y.get()) {
        Some(ValueLe::definition(Ghost(x.term()), Ghost(y.term())))
    } else {
        None
    }
}

/// Evidence of `x < y`, when it holds.
pub fn value_lt<T: Repr>(x: Value<T>, y: Value<T>) -> (r: Option<ValueLt>)
    ensures
        r is Some <==> den(x.term()) < den(y.term()),
        r matches Some(w) ==> w.lhs() == x.term() && w.rhs() == y.term(),
{
    x.holds();
    y.holds();
    if !y.get().at_most(x.get()) {
        Some(ValueLt::definition(Ghost(x.term()), Ghost(y.term())))
    } else {
        None
    }
}

/// Evidence of how `x` and `y` compare. The runtime values are totally
/// ordered, so the comparison never comes out incomparable.
pub fn value_partial_cmp<T: Repr>(x: Value<T>, y: Value<T>) -> (r: Result<ValueOrdering, ValueNe>)
    ensures
        r matches Ok(o) && o.relates(x.term(), y.term()) && o.ordering() == compare(
            den(x.term()),
            den(y.term()),
        ),
{
    Ok(value_cmp(x, y))
}

/// Evidence of `x <= y` or of `y < x`.
pub fn value_le_or_gt<T: Repr>(x: Value<T>, y: Value<T>) -> (r: Result<ValueLe, ValueLt>)
    ensures
        r is Ok <==> den(x.term()) <= den(y.term()),
        r matches Ok(w) ==> w.lhs() == x.term() && w.rhs() == y.term(),
        r matches Err(w) ==> w.lhs() == y.term() && w.rhs() == x.term(),
{
    x.holds();
    y.holds();
    if x.get().at_most(y.get()) {
        Ok(ValueLe::definition(Ghost(x.term()), Ghost(y.term())))
    } else {
        Err(ValueLt::definition(Ghost(y.term()), Ghost(x.term())))
    }
}

/// Evidence of `x < y` or of `y <= x`.
pub fn value_lt_or_ge<T: Repr>(x: Value<T>, y: Value<T>) -> (r: Result<ValueLt, ValueLe>)
    ensures
        r is Ok <==> den(x.term()) < den(y.term()),
        r matches Ok(w) ==> w.lhs() == x.term() && w.rhs() == y.term(),
        r matches Err(w) ==> w.lhs() == y.term() && w.rhs() == x.term(),
{
    x.holds();
    y.holds();
    if y.get().at_most(x.get()) {
        Err(ValueLe::definition(Ghost(y.term()), Ghost(x.term())))
    } else {
        Ok(ValueLt::definition(Ghost(x.term()), Ghost(y.term())))
    }
}

/// How two integers compare.
pub open spec fn compare(a: int, b: int) -> Ordering {
    if a < b {
        Ordering::Less
    } else if a == b {
        Ordering::Equal
    } else {
        Ordering::Greater
    }
}

/// Evidence of how `x` and `y` compare.
pub fn value_cmp<T: Repr>(x: Value<T>, y: Value<T>) -> (r: ValueOrdering)
    ensures
        r.relates(x.term(), y.term()),
        r.ordering() == compare(den(x.term()), den(y.term())),
{
    x.holds();
    y.holds();
    let ord = if !x.get().at_most(y.get()) {
        Ordering::Greater
    } else if x.get().same(y.get()) {
        Ordering::Equal
    } else {
        Ordering::Less
    };
    ValueOrdering::definition(ord, Ghost(x.term()), Ghost(y.term()))
}

/// The central invariant: two values tagged with the same term hold the same
/// runtime value.
pub proof fn lemma_one_term_one_value<T: Repr>(x: Value<T>, y: Value<T>)
    requires
        x.valid(),
        y.valid(),
        x.term() == y.term(),
    ensures
        x.rep() == y.rep(),
{
    T::lemma_den_injective(&x.rep(), &y.rep());
}

/// Evidence composed by transitivity agrees with the runtime values: where
/// `a == b` and `b == c` are witnessed, values tagged `a` and `c` hold the same
/// runtime value, which is what `value_eq` on them finds.
pub proof fn lemma_trans_agrees_with_values<T: Repr>(ab: ValueEq, bc: ValueEq, x: Value<T>, z: Value<T>)
    requires
        ab.valid(),
        bc.valid(),
        ab.rhs() == bc.lhs(),
        x.valid(),
        z.valid(),
        x.term() == ab.lhs(),
        z.term() == bc.rhs(),
    ensures
        den(x.term()) == den(z.term()),
        x.rep() == z.rep(),
{
    T::lemma_den_injective(&x.rep(), &z.rep());
}

/// Reflexivity and symmetry agree with the runtime values: a value tagged `a`
/// and a value tagged `b`, with `a == b` witnessed in either direction, hold
/// the same runtime value.
pub proof fn lemma_symmetry_agrees_with_values<T: Repr>(ab: ValueEq, x: Value<T>, y: Value<T>)
    requires
        ab.valid(),
        x.valid(),
        y.valid(),
        (x.term() == ab.lhs() && y.term() == ab.rhs()) || (x.term() == ab.rhs() && y.term()
            == ab.lhs()),
    ensures
        x.rep() == y.rep(),
{
    T::lemma_den_injective(&x.rep(), &y.rep());
}

} // verus!
