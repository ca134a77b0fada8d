use vstd::prelude::*;
use crate::fin::Fin;
use crate::term::{Term, Value, den};
use crate::var::{Guard, Var, fresh_name};

verus! {

/// A borrowed slice whose length is the value of a term.
pub struct DSlice<'a, T> {
    items: &'a [T],
    len: Value<usize>,
}

impl<'a, T> DSlice<'a, T> {
    #[verifier::type_invariant]
    spec fn inv(self) -> bool {
        self.items@.len() == self.len.rep()
    }

    /// The elements.
    pub closed spec fn view(self) -> Seq<T> {
        self.items@
    }

    /// The term whose value is the length.
    pub closed spec fn len_term(self) -> Term {
        self.len.term()
    }

    /// The length is the value of the length term.
    pub fn holds(&self)
        ensures
            self.view().len() == den(self.len_term()),
    {
        proof {
            use_type_invariant(self);
        }
        self.len.holds();
    }

    /// `x`, with its length named by the fresh name of `guard`'s brand; the
    /// value of that name comes with it.
    pub fn new_ref(guard: Guard, x: &'a [T]) -> (r: (DSlice<'a, T>, Value<usize>))
        ensures
            r.0.view() == x@,
            r.0.len_term() == fresh_name(guard.id(), x@.len() as int),
            r.1.term() == r.0.len_term(),
            r.1.rep() == x@.len(),
    {
        let n = x.len();
        let len = Var(guard, n);
        let copy = len.duplicate();
        (DSlice { items: x, len }, copy)
    }

    /// A slice of `len.rep()` elements, with that length named by the term
    /// of `len`.
    pub fn with_len(x: &'a [T], len: Value<usize>) -> (r: Option<DSlice<'a, T>>)
        ensures
            r is Some <==> x@.len() == len.rep(),
            r matches Some(s) ==> s.view() == x@ && s.len_term() == len.term(),
    {
        if x.len() == *len.get() {
            Some(DSlice { items: x, len })
        } else {
            None
        }
    }

    /// The length, as the value of the length term.
    pub fn len(&self) -> (r: Value<usize>)
        ensures
            r.term() == self.len_term(),
            r.rep() == self.view().len(),
    {
        proof {
            use_type_invariant(self);
        }
        self.len.duplicate()
    }

    /// The element at an index below the length.
    pub fn get(&self, i: &Fin<usize>) -> (r: &'a T)
        requires
            i.bound() == self.len_term(),
        ensures
            *r == self.view()[i.index() as int],
    {
        self.holds();
        let k = i.duplicate_index();
        &self.items[k]
    }
}

} // verus!
