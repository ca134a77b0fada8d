use vstd::prelude::*;
use crate::num::Int;
use crate::term::{Repr, Term, Value, den};
use crate::type_eq::{ValueEq, ValueLe};

verus! {

/// An index below the value of a term: `index < bound`.
pub struct Fin<N: Int> {
    idx: N,
    bound: Ghost<Term>,
}

impl<N: Int> Fin<N> {
    #[verifier::type_invariant]
    spec fn inv(self) -> bool {
        self.idx.den() < den(self.bound@)
    }

    pub closed spec fn index(self) -> N {
        self.idx
    }

    pub closed spec fn bound(self) -> Term {
        self.bound@
    }

    /// `x` as an index below `a`, when it is below `a`.
    pub fn from(a: Value<N>, x: N) -> (r: Option<Fin<N>>)
        ensures
            r is Some <==> x.den() < den(a.term()),
            r matches Some(f) ==> f.index() == x && f.bound() == a.term(),
    {
        a.holds();
        if !a.get().at_most(&x) {
            Some(Fin { idx: x, bound: Ghost(a.term()) })
        } else {
            None
        }
    }

    /// The index is below the bound.
    pub fn holds_bound(&self)
        ensures
            self.index().den() < den(self.bound()),
    {
        proof {
            use_type_invariant(self);
        }
    }

    /// The index, borrowed.
    pub fn index_ref(&self) -> (r: &N)
        ensures
            *r == self.index(),
    {
        &self.idx
    }

    /// A copy of the index.
    pub fn duplicate_index(&self) -> (r: N)
        ensures
            r == self.index(),
            r.den() < den(self.bound()),
    {
        self.holds_bound();
        self.index_ref().duplicate()
    }

    /// The index.
    pub fn into_inner(self) -> (r: N)
        ensures
            r == self.index(),
            r.den() < den(self.bound()),
    {
        proof {
            use_type_invariant(&self);
        }
        self.idx
    }

    /// The indices `0, 1, ...` below `a`, in order.
    pub fn range(a: Value<N>) -> (r: FinRange<N>)
        ensures
            r.current().den() == 0,
            r.end() == a.term(),
    {
        FinRange { cur: N::zero(), end: a }
    }

    /// The same index below an equal bound.
    pub fn equiv(self, eq: ValueEq) -> (r: Fin<N>)
        requires
            eq.lhs() == self.bound(),
        ensures
            r.index() == self.index(),
            r.bound() == eq.rhs(),
    {
        proof {
            use_type_invariant(&self);
        }
        eq.holds();
        Fin { idx: self.idx, bound: Ghost(eq.rhs()) }
    }

    /// The same index below a bound at least as large.
    pub fn transm(self, le: ValueLe) -> (r: Fin<N>)
        requires
            le.lhs() == self.bound(),
        ensures
            r.index() == self.index(),
            r.bound() == le.rhs(),
    {
        proof {
            use_type_invariant(&self);
        }
        le.holds();
        Fin { idx: self.idx, bound: Ghost(le.rhs()) }
    }
}

/// The indices below the value of a term, from the current one upwards.
pub struct FinRange<N: Int> {
    cur: N,
    end: Value<N>,
}

impl<N: Int> FinRange<N> {
    /// The next index to hand out.
    pub closed spec fn current(self) -> N {
        self.cur
    }

    /// The bound of the indices.
    pub closed spec fn end(self) -> Term {
        self.end.term()
    }

    /// Hands out the current index and moves past it, or `None` once the
    /// bound is reached.
    pub fn next(&mut self) -> (r: Option<Fin<N>>)
        ensures
            r is Some <==> old(self).current().den() < den(old(self).end()),
            r matches Some(f) ==> f.index() == old(self).current() && f.bound() == old(self).end(),
            final(self).end() == old(self).end(),
            final(self).current().den() == old(self).current().den() + (if r is Some {
                1int
            } else {
                0int
            }),
    {
        self.end.holds();
        proof {
            N::lemma_bounds(&self.end.rep());
            N::lemma_bounds(&self.cur);
        }
        match Fin::from(self.end.duplicate(), self.cur.duplicate()) {
            Some(fin) => {
                let one = N::one();
                match self.cur.checked_add(&one) {
                    Some(next) => {
                        self.cur = next;
                    },
                    None => {},
                }
                Some(fin)
            },
            None => None,
        }
    }
}

} // verus!
