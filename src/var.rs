use vstd::prelude::*;
use crate::term::{Repr, Term, Value, den};
use crate::type_eq::ValueEq;

verus! {

/// A source of brands, threaded through the code that opens brand scopes.
///
/// Each guard it hands out carries an id that no earlier guard of the same
/// source carried, so names minted under two guards of one source never
/// coincide, even where the code that mints them is the same. A fresh name
/// records, as ghost data, the one value it stands for; a name or a witness
/// that outlives the scope of its brand therefore still speaks of that value
/// and cannot yield a false witness.
pub struct Brands {
    next: u64,
}

/// A brand: consumed to mint one fresh name.
pub struct Guard {
    id: u64,
}

/// Fresh names minted under a brand.
pub struct Var {
    _private: (),
}

impl Brands {
    /// How many guards this source has handed out.
    pub closed spec fn issued(self) -> nat {
        self.next as nat
    }

    pub fn new() -> (r: Brands)
        ensures
            r.issued() == 0,
    {
        Brands { next: 0 }
    }

    /// Opens a new brand scope.
    pub fn guard(&mut self) -> (g: Guard)
        requires
            old(self).issued() < u64::MAX,
        ensures
            g.id() == old(self).issued(),
            final(self).issued() == old(self).issued() + 1,
    {
        let g = Guard { id: self.next };
        self.next = self.next + 1;
        g
    }
}

impl Guard {
    pub closed spec fn id(self) -> nat {
        self.id as nat
    }
}

/// The fresh name minted under the brand with id `id` for the value `v`.
pub open spec fn fresh_name(id: nat, v: int) -> Term {
    Term::Var(id, v)
}

/// `v` under the fresh name of `guard`'s brand.
#[allow(non_snake_case)]
pub fn Var<T: Repr>(guard: Guard, v: T) -> (r: Value<T>)
    ensures
        r.term() == fresh_name(guard.id(), v.den()),
        r.rep() == v,
{
    Value::definition(v, Ghost(fresh_name(guard.id(), v.den())))
}

impl Var {
    /// Evidence that `a` equals the fresh name of `guard`'s brand.
    pub fn erase(guard: Guard, a: Ghost<Term>) -> (r: ValueEq)
        ensures
            r.lhs() == a@,
            r.rhs() == fresh_name(guard.id(), den(a@)),
    {
        ValueEq::definition(a, Ghost(fresh_name(guard.id(), den(a@))))
    }

    /// Re-tags `x` under the fresh name of `guard`'s brand, with evidence that
    /// the old and the new name are equal.
    pub fn alias<T: Repr>(guard: Guard, x: Value<T>) -> (r: (Value<T>, ValueEq))
        ensures
            r.0.term() == fresh_name(guard.id(), den(x.term())),
            r.0.rep() == x.rep(),
            r.1.lhs() == x.term(),
            r.1.rhs() == r.0.term(),
    {
        x.holds();
        let eq = Var::erase(guard, Ghost(x.term()));
        let v = crate::transmutable::coerce(x, eq);
        (v, eq)
    }
}

/// Names minted under two different brands never coincide, whatever values
/// they stand for; guards handed out one after another by a source have
/// different ids.
pub proof fn lemma_brand_non_aliasing(first: Guard, second: Guard, x: int, y: int)
    requires
        first.id() != second.id(),
    ensures
        fresh_name(first.id(), x) != fresh_name(second.id(), y),
{
}

} // verus!
