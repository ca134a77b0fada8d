use vstd::prelude::*;
use crate::term::{Term, den};
use core::cmp::Ordering;
use core::marker::PhantomData;

verus! {

/// A relation between terms that witnesses can record: an equivalence `eq`
/// and an order `le` that agrees with it. `lt` and `ne` are derived from them.
pub trait Relation {
    spec fn eq(a: Term, b: Term) -> bool;

    spec fn le(a: Term, b: Term) -> bool;

    proof fn lemma_eq_refl(a: Term)
        ensures
            Self::eq(a, a),
    ;

    proof fn lemma_eq_symmetric(a: Term, b: Term)
        requires
            Self::eq(a, b),
        ensures
            Self::eq(b, a),
    ;

    proof fn lemma_eq_transitive(a: Term, b: Term, c: Term)
        requires
            Self::eq(a, b),
            Self::eq(b, c),
        ensures
            Self::eq(a, c),
    ;

    proof fn lemma_eq_implies_le(a: Term, b: Term)
        requires
            Self::eq(a, b),
        ensures
            Self::le(a, b),
    ;

    proof fn lemma_le_transitive(a: Term, b: Term, c: Term)
        requires
            Self::le(a, b),
            Self::le(b, c),
        ensures
            Self::le(a, c),
    ;

    proof fn lemma_le_antisymmetric(a: Term, b: Term)
        requires
            Self::le(a, b),
            Self::le(b, a),
        ensures
            Self::eq(a, b),
    ;
}

/// `a < b` in the order of `R`.
pub open spec fn rel_lt<R: Relation>(a: Term, b: Term) -> bool {
    R::le(a, b) && !R::eq(a, b)
}

/// Comparison of the values that terms denote.
#[derive(Clone, Copy)]
pub struct ValueCmp {
    _private: (),
}

impl Relation for ValueCmp {
    open spec fn eq(a: Term, b: Term) -> bool {
        den(a) == den(b)
    }

    open spec fn le(a: Term, b: Term) -> bool {
        den(a) <= den(b)
    }

    proof fn lemma_eq_refl(a: Term) {
    }

    proof fn lemma_eq_symmetric(a: Term, b: Term) {
    }

    proof fn lemma_eq_transitive(a: Term, b: Term, c: Term) {
    }

    proof fn lemma_eq_implies_le(a: Term, b: Term) {
    }

    proof fn lemma_le_transitive(a: Term, b: Term, c: Term) {
    }

    proof fn lemma_le_antisymmetric(a: Term, b: Term) {
    }
}

/// Identity of terms: two terms are related when they are the same term.
#[derive(Clone, Copy)]
pub struct TypeIdentity {
    _private: (),
}

impl Relation for TypeIdentity {
    open spec fn eq(a: Term, b: Term) -> bool {
        a == b
    }

    open spec fn le(a: Term, b: Term) -> bool {
        a == b
    }

    proof fn lemma_eq_refl(a: Term) {
    }

    proof fn lemma_eq_symmetric(a: Term, b: Term) {
    }

    proof fn lemma_eq_transitive(a: Term, b: Term, c: Term) {
    }

    proof fn lemma_eq_implies_le(a: Term, b: Term) {
    }

    proof fn lemma_le_transitive(a: Term, b: Term, c: Term) {
    }

    proof fn lemma_le_antisymmetric(a: Term, b: Term) {
    }
}

/// Evidence that two terms are equal in the relation `R` (`lhs == rhs`).
///
/// It is zero-sized at run time. Its type invariant is the relation it
/// records, so each way of making one proves that relation.
pub struct TypeEqR<R: Relation> {
    lhs: Ghost<Term>,
    rhs: Ghost<Term>,
    tag: Ghost<PhantomData<R>>,
}

/// Evidence that two terms are not equal in the relation `R` (`lhs != rhs`).
pub struct TypeNeR<R: Relation> {
    lhs: Ghost<Term>,
    rhs: Ghost<Term>,
    tag: Ghost<PhantomData<R>>,
}

/// Evidence that `lhs <= rhs` in the order of `R`.
pub struct TypeLeR<R: Relation> {
    lhs: Ghost<Term>,
    rhs: Ghost<Term>,
    tag: Ghost<PhantomData<R>>,
}

/// Evidence that `lhs < rhs` in the order of `R`.
pub struct TypeLtR<R: Relation> {
    lhs: Ghost<Term>,
    rhs: Ghost<Term>,
    tag: Ghost<PhantomData<R>>,
}

/// Evidence that two terms denote the same value.
pub type ValueEq = TypeEqR<ValueCmp>;

/// Evidence that two terms denote different values.
pub type ValueNe = TypeNeR<ValueCmp>;

/// Evidence that one term denotes at most the value of another.
pub type ValueLe = TypeLeR<ValueCmp>;

/// Evidence that one term denotes less than another.
pub type ValueLt = TypeLtR<ValueCmp>;

/// Evidence of how the values of two terms compare.
pub type ValueOrdering = TypeOrdering<ValueCmp>;

/// Evidence that two terms are the same term.
pub type TypeEq = TypeEqR<TypeIdentity>;

/// Evidence of `lhs == rhs` that also serves to re-tag values (see `transmutable`).
pub type Equiv = ValueEq;

/// Evidence of `lhs <= rhs` that also serves to re-tag bounded indices.
pub type Transm = ValueLe;

/// Evidence of `t == t`.
pub fn refl<R: Relation>(t: Ghost<Term>) -> (r: TypeEqR<R>)
    ensures
        r.lhs() == t@,
        r.rhs() == t@,
{
    TypeEqR::refl(t)
}

impl<R: Relation> Clone for TypeEqR<R> {
    fn clone(&self) -> (r: Self) {
        *self
    }
}

impl<R: Relation> Copy for TypeEqR<R> {}

impl<R: Relation> TypeEqR<R> {
    #[verifier::type_invariant]
    spec fn inv(self) -> bool {
        R::eq(self.lhs@, self.rhs@)
    }

    pub closed spec fn lhs(self) -> Term {
        self.lhs@
    }

    pub closed spec fn rhs(self) -> Term {
        self.rhs@
    }

    /// The relation that the witness records.
    pub open spec fn valid(self) -> bool {
        R::eq(self.lhs(), self.rhs())
    }

    /// What the witness records holds.
    pub fn holds(&self)
        ensures
            self.valid(),
    {
        proof {
            use_type_invariant(self);
        }
    }

    /// Mints the witness of a fact that the caller has proved.
    pub fn definition(lhs: Ghost<Term>, rhs: Ghost<Term>) -> (r: TypeEqR<R>)
        requires
            R::eq(lhs@, rhs@),
        ensures
            r.lhs() == lhs@,
            r.rhs() == rhs@,
    {
        TypeEqR { lhs, rhs, tag: Ghost(PhantomData) }
    }

    /// Evidence of `t == t`.
    pub fn refl(t: Ghost<Term>) -> (r: TypeEqR<R>)
        ensures
            r.lhs() == t@,
            r.rhs() == t@,
    {
        proof {
            R::lemma_eq_refl(t@);
        }
        TypeEqR { lhs: t, rhs: t, tag: Ghost(PhantomData) }
    }

    /// `t == u  ==>  u == t`
    pub fn invert(self) -> (r: TypeEqR<R>)
        ensures
            r.lhs() == self.rhs(),
            r.rhs() == self.lhs(),
    {
        proof {
            use_type_invariant(&self);
            R::lemma_eq_symmetric(self.lhs@, self.rhs@);
        }
        TypeEqR { lhs: self.rhs, rhs: self.lhs, tag: Ghost(PhantomData) }
    }

    /// `t == u && u == v  ==>  t == v`
    pub fn trans(self, rhs: TypeEqR<R>) -> (r: TypeEqR<R>)
        requires
            self.rhs() == rhs.lhs(),
        ensures
            r.lhs() == self.lhs(),
            r.rhs() == rhs.rhs(),
    {
        proof {
            use_type_invariant(&self);
            use_type_invariant(&rhs);
            R::lemma_eq_transitive(self.lhs@, self.rhs@, rhs.rhs@);
        }
        TypeEqR { lhs: self.lhs, rhs: rhs.rhs, tag: Ghost(PhantomData) }
    }

    /// `t == u && u != v  ==>  t != v`
    pub fn trans_ne(self, rhs: TypeNeR<R>) -> (r: TypeNeR<R>)
        requires
            self.rhs() == rhs.lhs(),
        ensures
            r.lhs() == self.lhs(),
            r.rhs() == rhs.rhs(),
    {
        proof {
            use_type_invariant(&self);
            use_type_invariant(&rhs);
            if R::eq(self.lhs@, rhs.rhs@) {
                R::lemma_eq_symmetric(self.lhs@, self.rhs@);
                R::lemma_eq_transitive(self.rhs@, self.lhs@, rhs.rhs@);
            }
        }
        TypeNeR { lhs: self.lhs, rhs: rhs.rhs, tag: Ghost(PhantomData) }
    }

    /// `t == u  ==>  t <= u`
    pub fn le(self) -> (r: TypeLeR<R>)
        ensures
            r.lhs() == self.lhs(),
            r.rhs() == self.rhs(),
    {
        proof {
            use_type_invariant(&self);
            R::lemma_eq_implies_le(self.lhs@, self.rhs@);
        }
        TypeLeR { lhs: self.lhs, rhs: self.rhs, tag: Ghost(PhantomData) }
    }
}

impl<R: Relation> Clone for TypeNeR<R> {
    fn clone(&self) -> (r: Self) {
        *self
    }
}

impl<R: Relation> Copy for TypeNeR<R> {}

impl<R: Relation> TypeNeR<R> {
    #[verifier::type_invariant]
    spec fn inv(self) -> bool {
        !R::eq(self.lhs@, self.rhs@)
    }

    pub closed spec fn lhs(self) -> Term {
        self.lhs@
    }

    pub closed spec fn rhs(self) -> Term {
        self.rhs@
    }

    /// The relation that the witness records.
    pub open spec fn valid(self) -> bool {
        !R::eq(self.lhs(), self.rhs())
    }

    /// What the witness records holds.
    pub fn holds(&self)
        ensures
            self.valid(),
    {
        proof {
            use_type_invariant(self);
        }
    }

    /// Mints the witness of a fact that the caller has proved.
    pub fn definition(lhs: Ghost<Term>, rhs: Ghost<Term>) -> (r: TypeNeR<R>)
        requires
            !R::eq(lhs@, rhs@),
        ensures
            r.lhs() == lhs@,
            r.rhs() == rhs@,
    {
        TypeNeR { lhs, rhs, tag: Ghost(PhantomData) }
    }

    /// `t != u  ==>  u != t`
    pub fn invert(self) -> (r: TypeNeR<R>)
        ensures
            r.lhs() == self.rhs(),
            r.rhs() == self.lhs(),
    {
        proof {
            use_type_invariant(&self);
            if R::eq(self.rhs@, self.lhs@) {
                R::lemma_eq_symmetric(self.rhs@, self.lhs@);
            }
        }
        TypeNeR { lhs: self.rhs, rhs: self.lhs, tag: Ghost(PhantomData) }
    }

    /// `t != u && u == v  ==>  t != v`
    pub fn trans(self, rhs: TypeEqR<R>) -> (r: TypeNeR<R>)
        requires
            self.rhs() == rhs.lhs(),
        ensures
            r.lhs() == self.lhs(),
            r.rhs() == rhs.rhs(),
    {
        proof {
            use_type_invariant(&self);
            use_type_invariant(&rhs);
            if R::eq(self.lhs@, rhs.rhs@) {
                R::lemma_eq_symmetric(self.rhs@, rhs.rhs@);
                R::lemma_eq_transitive(self.lhs@, rhs.rhs@, self.rhs@);
            }
        }
        TypeNeR { lhs: self.lhs, rhs: rhs.rhs, tag: Ghost(PhantomData) }
    }

    /// `t != u && v == t  ==>  v != u`
    pub fn trans_left(self, rhs: TypeEqR<R>) -> (r: TypeNeR<R>)
        requires
            rhs.rhs() == self.lhs(),
        ensures
            r.lhs() == rhs.lhs(),
            r.rhs() == self.rhs(),
    {
        self.invert().trans(rhs.invert()).invert()
    }
}

impl<R: Relation> Clone for TypeLeR<R> {
    fn clone(&self) -> (r: Self) {
        *self
    }
}

impl<R: Relation> Copy for TypeLeR<R> {}

impl<R: Relation> TypeLeR<R> {
    #[verifier::type_invariant]
    spec fn inv(self) -> bool {
        R::le(self.lhs@, self.rhs@)
    }

    pub closed spec fn lhs(self) -> Term {
        self.lhs@
    }

    pub closed spec fn rhs(self) -> Term {
        self.rhs@
    }

    /// The relation that the witness records.
    pub open spec fn valid(self) -> bool {
        R::le(self.lhs(), self.rhs())
    }

    /// What the witness records holds.
    pub fn holds(&self)
        ensures
            self.valid(),
    {
        proof {
            use_type_invariant(self);
        }
    }

    /// Mints the witness of a fact that the caller has proved.
    pub fn definition(lhs: Ghost<Term>, rhs: Ghost<Term>) -> (r: TypeLeR<R>)
        requires
            R::le(lhs@, rhs@),
        ensures
            r.lhs() == lhs@,
            r.rhs() == rhs@,
    {
        TypeLeR { lhs, rhs, tag: Ghost(PhantomData) }
    }

    /// Evidence of `t <= t`.
    pub fn refl(t: Ghost<Term>) -> (r: TypeLeR<R>)
        ensures
            r.lhs() == t@,
            r.rhs() == t@,
    {
        TypeEqR::refl(t).le()
    }

    /// `t <= u && u <= v  ==>  t <= v`
    pub fn trans(self, rhs: TypeLeR<R>) -> (r: TypeLeR<R>)
        requires
            self.rhs() == rhs.lhs(),
        ensures
            r.lhs() == self.lhs(),
            r.rhs() == rhs.rhs(),
    {
        proof {
            use_type_invariant(&self);
            use_type_invariant(&rhs);
            R::lemma_le_transitive(self.lhs@, self.rhs@, rhs.rhs@);
        }
        TypeLeR { lhs: self.lhs, rhs: rhs.rhs, tag: Ghost(PhantomData) }
    }

    /// `t <= u && u <= t  ==>  t == u`
    pub fn eq(self, rhs: TypeLeR<R>) -> (r: TypeEqR<R>)
        requires
            rhs.lhs() == self.rhs(),
            rhs.rhs() == self.lhs(),
        ensures
            r.lhs() == self.lhs(),
            r.rhs() == self.rhs(),
    {
        proof {
            use_type_invariant(&self);
            use_type_invariant(&rhs);
            R::lemma_le_antisymmetric(self.lhs@, self.rhs@);
        }
        TypeEqR { lhs: self.lhs, rhs: self.rhs, tag: Ghost(PhantomData) }
    }

    /// `t <= u && t != u  ==>  t < u`
    pub fn lt(self, ne: TypeNeR<R>) -> (r: TypeLtR<R>)
        requires
            ne.lhs() == self.lhs(),
            ne.rhs() == self.rhs(),
        ensures
            r.lhs() == self.lhs(),
            r.rhs() == self.rhs(),
    {
        proof {
            use_type_invariant(&self);
            use_type_invariant(&ne);
        }
        TypeLtR { lhs: self.lhs, rhs: self.rhs, tag: Ghost(PhantomData) }
    }
}

impl<R: Relation> Clone for TypeLtR<R> {
    fn clone(&self) -> (r: Self) {
        *self
    }
}

impl<R: Relation> Copy for TypeLtR<R> {}

impl<R: Relation> TypeLtR<R> {
    #[verifier::type_invariant]
    spec fn inv(self) -> bool {
        rel_lt::<R>(self.lhs@, self.rhs@)
    }

    pub closed spec fn lhs(self) -> Term {
        self.lhs@
    }

    pub closed spec fn rhs(self) -> Term {
        self.rhs@
    }

    /// The relation that the witness records.
    pub open spec fn valid(self) -> bool {
        rel_lt::<R>(self.lhs(), self.rhs())
    }

    /// What the witness records holds.
    pub fn holds(&self)
        ensures
            self.valid(),
    {
        proof {
            use_type_invariant(self);
        }
    }

    /// Mints the witness of a fact that the caller has proved.
    pub fn definition(lhs: Ghost<Term>, rhs: Ghost<Term>) -> (r: TypeLtR<R>)
        requires
            rel_lt::<R>(lhs@, rhs@),
        ensures
            r.lhs() == lhs@,
            r.rhs() == rhs@,
    {
        TypeLtR { lhs, rhs, tag: Ghost(PhantomData) }
    }

    /// `t < u && u <= v  ==>  t < v`
    pub fn trans(self, rhs: TypeLeR<R>) -> (r: TypeLtR<R>)
        requires
            self.rhs() == rhs.lhs(),
        ensures
            r.lhs() == self.lhs(),
            r.rhs() == rhs.rhs(),
    {
        proof {
            use_type_invariant(&self);
            use_type_invariant(&rhs);
            let (a, b, c) = (self.lhs@, self.rhs@, rhs.rhs@);
            R::lemma_le_transitive(a, b, c);
            if R::eq(a, c) {
                R::lemma_eq_symmetric(a, c);
                R::lemma_eq_implies_le(c, a);
                R::lemma_le_transitive(b, c, a);
                R::lemma_le_antisymmetric(a, b);
            }
        }
        TypeLtR { lhs: self.lhs, rhs: rhs.rhs, tag: Ghost(PhantomData) }
    }

    /// `t < u  ==>  t <= u`
    pub fn le(self) -> (r: TypeLeR<R>)
        ensures
            r.lhs() == self.lhs(),
            r.rhs() == self.rhs(),
    {
        proof {
            use_type_invariant(&self);
        }
        TypeLeR { lhs: self.lhs, rhs: self.rhs, tag: Ghost(PhantomData) }
    }

    /// `t < u  ==>  t != u`
    pub fn ne(self) -> (r: TypeNeR<R>)
        ensures
            r.lhs() == self.lhs(),
            r.rhs() == self.rhs(),
    {
        proof {
            use_type_invariant(&self);
        }
        TypeNeR { lhs: self.lhs, rhs: self.rhs, tag: Ghost(PhantomData) }
    }
}

/// Evidence of how two terms compare. `Gt` holds `rhs < lhs`.
pub enum TypeOrdering<R: Relation> {
    Lt(TypeLtR<R>),
    Eq(TypeEqR<R>),
    Gt(TypeLtR<R>),
}

impl<R: Relation> TypeOrdering<R> {
    /// The terms compared, and that the evidence is about them.
    pub open spec fn relates(self, lhs: Term, rhs: Term) -> bool {
        match self {
            TypeOrdering::Lt(w) => w.lhs() == lhs && w.rhs() == rhs,
            TypeOrdering::Eq(w) => w.lhs() == lhs && w.rhs() == rhs,
            TypeOrdering::Gt(w) => w.lhs() == rhs && w.rhs() == lhs,
        }
    }

    /// The comparison that the evidence records.
    pub open spec fn ordering(self) -> Ordering {
        match self {
            TypeOrdering::Lt(_) => Ordering::Less,
            TypeOrdering::Eq(_) => Ordering::Equal,
            TypeOrdering::Gt(_) => Ordering::Greater,
        }
    }

    /// Evidence from the outcome of a comparison of the two terms' values.
    pub fn definition(ordering: Ordering, lhs: Ghost<Term>, rhs: Ghost<Term>) -> (r: TypeOrdering<R>)
        requires
            ordering == Ordering::Less ==> rel_lt::<R>(lhs@, rhs@),
            ordering == Ordering::Equal ==> R::eq(lhs@, rhs@),
            ordering == Ordering::Greater ==> rel_lt::<R>(rhs@, lhs@),
        ensures
            r.relates(lhs@, rhs@),
            r.ordering() == ordering,
    {
        match ordering {
            Ordering::Less => TypeOrdering::Lt(TypeLtR::definition(lhs, rhs)),
            Ordering::Equal => TypeOrdering::Eq(TypeEqR::definition(lhs, rhs)),
            Ordering::Greater => TypeOrdering::Gt(TypeLtR::definition(rhs, lhs)),
        }
    }
}

} // verus!
