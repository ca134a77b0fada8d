//! Things that carry a term as a tag and may be moved to an equal term.
use vstd::prelude::*;
use crate::fin::Fin;
use crate::num::Int;
use crate::result::DResult;
use crate::term::{Repr, Term, Value};
use crate::type_eq::ValueEq;
use crate::vec::{DIter, DVec};

verus! {

/// A runtime object indexed by a term: a value tagged with it, a vector whose
/// length it is, an index below it.
pub trait Tagged: Sized {
    /// The term the object is indexed by.
    spec fn tag(&self) -> Term;

    /// The same runtime object, indexed by the other side of `eq`.
    fn retag(self, eq: ValueEq) -> (r: Self)
        requires
            eq.lhs() == self.tag(),
        ensures
            r.tag() == eq.rhs(),
    ;
}

impl<T: Repr> Tagged for Value<T> {
    open spec fn tag(&self) -> Term {
        self.term()
    }

    fn retag(self, eq: ValueEq) -> (r: Self) {
        crate::transmutable::coerce(self, eq)
    }
}

impl<T> Tagged for DVec<T> {
    open spec fn tag(&self) -> Term {
        self.len_term()
    }

    fn retag(self, eq: ValueEq) -> (r: Self) {
        self.equiv(eq)
    }
}

impl<T> Tagged for DIter<T> {
    open spec fn tag(&self) -> Term {
        self.len_term()
    }

    fn retag(self, eq: ValueEq) -> (r: Self) {
        self.equiv(eq)
    }
}

impl<N: Int> Tagged for Fin<N> {
    open spec fn tag(&self) -> Term {
        self.bound()
    }

    fn retag(self, eq: ValueEq) -> (r: Self) {
        self.equiv(eq)
    }
}

impl<T, F> Tagged for DResult<T, F> {
    open spec fn tag(&self) -> Term {
        DResult::tag(*self)
    }

    fn retag(self, eq: ValueEq) -> (r: Self) {
        self.equiv(eq)
    }
}

} // verus!
