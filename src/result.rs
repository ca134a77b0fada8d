use vstd::prelude::*;
use crate::bool::choose_bool;
use crate::term::{Term, Value, bit, den, is_bool};
use crate::type_eq::ValueEq;
use crate::var::{Guard, Var, fresh_name};

verus! {

/// One of two payloads, selected by the value of a boolean term: `T` where
/// the term is true, `F` where it is false.
pub struct DResult<T, F> {
    inner: Result<T, F>,
    tag: Ghost<Term>,
}

impl<T, F> DResult<T, F> {
    #[verifier::type_invariant]
    spec fn inv(self) -> bool {
        is_bool(self.tag@) && (self.inner is Ok <==> den(self.tag@) == 1)
    }

    /// The boolean term that selects the payload.
    pub closed spec fn tag(self) -> Term {
        self.tag@
    }

    /// The payload.
    pub closed spec fn inner(self) -> Result<T, F> {
        self.inner
    }

    /// The payload is the one its tag selects.
    pub fn holds(&self)
        ensures
            is_bool(self.tag()),
            self.inner() is Ok <==> den(self.tag()) == 1,
    {
        proof {
            use_type_invariant(self);
        }
    }

    /// The `T` payload, under the tag `True`.
    pub fn new(t: T) -> (r: DResult<T, F>)
        ensures
            r.tag() == Term::True,
            r.inner() == Ok::<T, F>(t),
    {
        DResult { inner: Ok(t), tag: Ghost(Term::True) }
    }

    /// The `F` payload, under the tag `False`.
    pub fn new_false(f: F) -> (r: DResult<T, F>)
        ensures
            r.tag() == Term::False,
            r.inner() == Err::<T, F>(f),
    {
        DResult { inner: Err(f), tag: Ghost(Term::False) }
    }

    /// The `T` payload of a result whose tag is true.
    pub fn into_true(self) -> (r: T)
        requires
            den(self.tag()) == 1,
        ensures
            self.inner() == Ok::<T, F>(r),
    {
        proof {
            use_type_invariant(&self);
        }
        match self.inner {
            Ok(t) => t,
            Err(_) => vstd::pervasive::unreached(),
        }
    }

    /// The `F` payload of a result whose tag is false.
    pub fn into_false(self) -> (r: F)
        requires
            den(self.tag()) == 0,
        ensures
            self.inner() == Err::<T, F>(r),
    {
        proof {
            use_type_invariant(&self);
        }
        match self.inner {
            Err(f) => f,
            Ok(_) => vstd::pervasive::unreached(),
        }
    }

    /// The same payload under an equal tag.
    pub fn equiv(self, eq: ValueEq) -> (r: DResult<T, F>)
        requires
            eq.lhs() == self.tag(),
        ensures
            r.tag() == eq.rhs(),
            r.inner() == self.inner(),
    {
        proof {
            use_type_invariant(&self);
        }
        eq.holds();
        DResult { inner: self.inner, tag: Ghost(eq.rhs()) }
    }

    /// Tags `x` with the fresh name of `guard`'s brand for whether it is `Ok`,
    /// with evidence of which boolean that name equals.
    pub fn from(guard: Guard, x: Result<T, F>) -> (r: (DResult<T, F>, Result<ValueEq, ValueEq>))
        ensures
            r.0.inner() == x,
            r.0.tag() == fresh_name(guard.id(), bit(x is Ok)),
            r.1 is Ok <==> x is Ok,
            r.1 matches Ok(w) ==> w.lhs() == r.0.tag() && w.rhs() == Term::True,
            r.1 matches Err(w) ==> w.lhs() == r.0.tag() && w.rhs() == Term::False,
    {
        match x {
            Ok(t) => {
                let eq = Var::erase(guard, Ghost(Term::True));
                let r = DResult::<T, F>::new(t).equiv(eq);
                (r, Ok(eq.invert()))
            },
            Err(f) => {
                let eq = Var::erase(guard, Ghost(Term::False));
                let r = DResult::<T, F>::new_false(f).equiv(eq);
                (r, Err(eq.invert()))
            },
        }
    }

    /// The payload, selected by the runtime value of the tag.
    pub fn into_result(r: DResult<T, F>, b: Value<bool>) -> (res: Result<T, F>)
        requires
            b.term() == r.tag(),
        ensures
            res == r.inner(),
    {
        match choose_bool(b) {
            Ok(eq) => {
                eq.holds();
                Ok(r.equiv(eq).into_true())
            },
            Err(eq) => {
                eq.holds();
                Err(r.equiv(eq).into_false())
            },
        }
    }
}

} // verus!
