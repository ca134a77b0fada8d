use vstd::prelude::*;
use crate::kinds::Tagged;
use crate::term::{Repr, Term, Value, den};
use crate::var::{Guard, Var, fresh_name};

verus! {

/// A value together with an object indexed by the value's term, with the term
/// itself hidden: "some `a`, its value, and a `P` at `a`".
pub struct DPair<T: Repr, P: Tagged> {
    value: Value<T>,
    payload: P,
}

impl<T: Repr, P: Tagged> DPair<T, P> {
    #[verifier::type_invariant]
    spec fn inv(self) -> bool {
        self.payload.tag() == self.value.term()
    }

    /// The runtime value of the hidden term.
    pub closed spec fn rep(self) -> T {
        self.value.rep()
    }

    /// Packs a value with an object indexed by its term.
    pub fn new(a: Value<T>, b: P) -> (r: DPair<T, P>)
        requires
            b.tag() == a.term(),
        ensures
            r.rep() == a.rep(),
    {
        DPair { value: a, payload: b }
    }

    /// Unpacks the pair, naming the hidden term by the fresh name of
    /// `guard`'s brand; the value and the object come back indexed by it.
    pub fn into_inner(self, guard: Guard) -> (r: (Value<T>, P))
        ensures
            r.0.rep() == self.rep(),
            r.0.term() == fresh_name(guard.id(), self.rep().den()),
            r.1.tag() == r.0.term(),
    {
        proof {
            use_type_invariant(&self);
        }
        self.value.holds();
        let DPair { value, payload } = self;
        let (v, eq) = Var::alias(guard, value);
        let p = payload.retag(eq);
        (v, p)
    }
}

} // verus!
