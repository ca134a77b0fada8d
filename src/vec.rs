use vstd::prelude::*;
use crate::fin::Fin;
use crate::num::{Pred, Succ, Zero};
use crate::num::uint::uint_pred;
use crate::term::{Repr, Term, Value, den, lemma_den_one, mk_add, mk_pred, mk_succ};
use crate::type_eq::ValueEq;
use crate::var::{Guard, Var, fresh_name};

verus! {

/// A vector whose length is the value of a term.
pub struct DVec<T> {
    vec: Vec<T>,
    len: Value<usize>,
}

/// The items of a vector, handed out front to back, with the number that
/// remain as the value of a term.
pub struct DIter<T> {
    rest: Vec<T>,
    len: Value<usize>,
}

/// The items of `rest` from its last element to its first.
pub open spec fn reversed<T>(rest: Seq<T>) -> Seq<T> {
    Seq::new(rest.len(), |i: int| rest[rest.len() - 1 - i])
}

/// The elements of `v` in the opposite order.
fn reverse_vec<T>(v: Vec<T>) -> (r: Vec<T>)
    ensures
        r@ == reversed(v@),
{
    let ghost whole = v@;
    let mut src = v;
    let mut out: Vec<T> = Vec::new();
    loop
        invariant
            whole.len() == src@.len() + out@.len(),
            forall|i: int| 0 <= i < src@.len() ==> src@[i] == whole[i],
            forall|i: int| 0 <= i < out@.len() ==> out@[i] == whole[whole.len() - 1 - i],
        ensures
            whole.len() == out@.len(),
            forall|i: int| 0 <= i < out@.len() ==> out@[i] == whole[whole.len() - 1 - i],
        decreases src@.len(),
    {
        match src.pop() {
            Some(x) => {
                out.push(x);
            },
            None => {
                break ;
            },
        }
    }
    proof {
        assert(out@ =~= reversed(whole));
    }
    out
}

impl<T> DVec<T> {
    #[verifier::type_invariant]
    spec fn inv(self) -> bool {
        self.vec@.len() == self.len.rep()
    }

    /// The elements.
    pub closed spec fn view(self) -> Seq<T> {
        self.vec@
    }

    /// The term whose value is the length.
    pub closed spec fn len_term(self) -> Term {
        self.len.term()
    }

    /// The length is the value of the length term.
    pub fn holds(&self)
        ensures
            self.view().len() == den(self.len_term()),
    {
        proof {
            use_type_invariant(self);
        }
        self.len.holds();
    }

    /// The empty vector, of length `Zero`.
    pub fn new() -> (r: DVec<T>)
        ensures
            r.view() == Seq::<T>::empty(),
            r.len_term() == Term::Zero,
    {
        let len = Zero();
        len.holds();
        DVec { vec: Vec::new(), len }
    }

    /// `vec`, with its length named by the fresh name of `guard`'s brand.
    pub fn from(guard: Guard, vec: Vec<T>) -> (r: DVec<T>)
        ensures
            r.view() == vec@,
            r.len_term() == fresh_name(guard.id(), vec@.len() as int),
    {
        let n = vec.len();
        DVec { vec, len: Var(guard, n) }
    }

    /// The length, as the value of the length term.
    pub fn len(&self) -> (r: Value<usize>)
        ensures
            r.term() == self.len_term(),
            r.rep() == self.view().len(),
    {
        proof {
            use_type_invariant(self);
        }
        self.len.duplicate()
    }

    /// The elements as a slice with the same length term.
    pub fn as_slice(&self) -> (r: crate::slice::DSlice<'_, T>)
        ensures
            r.view() == self.view(),
            r.len_term() == self.len_term(),
    {
        proof {
            use_type_invariant(self);
        }
        let s = crate::slice::DSlice::with_len(self.vec.as_slice(), self.len.duplicate());
        s.unwrap()
    }

    /// The elements.
    pub fn into_vec(self) -> (r: Vec<T>)
        ensures
            r@ == self.view(),
    {
        self.vec
    }

    /// The element at an index below the length.
    pub fn get(&self, i: &Fin<usize>) -> (r: &T)
        requires
            i.bound() == self.len_term(),
        ensures
            *r == self.view()[i.index() as int],
    {
        self.holds();
        let k = i.duplicate_index();
        &self.vec[k]
    }

    /// The same elements under an equal length term.
    pub fn equiv(self, eq: ValueEq) -> (r: DVec<T>)
        requires
            eq.lhs() == self.len_term(),
        ensures
            r.view() == self.view(),
            r.len_term() == eq.rhs(),
    {
        proof {
            use_type_invariant(&self);
        }
        let DVec { vec, len } = self;
        DVec { vec, len: crate::transmutable::coerce(len, eq) }
    }

    /// Appends `x`; the length becomes `Succ` of the old one.
    pub fn push(self, x: T) -> (r: DVec<T>)
        requires
            self.view().len() < usize::MAX,
        ensures
            r.view() == self.view().push(x),
            r.len_term() == mk_succ(self.len_term()),
    {
        proof {
            use_type_invariant(&self);
        }
        self.len.holds();
        let DVec { mut vec, len } = self;
        vec.push(x);
        let len = Succ(len);
        len.holds();
        DVec { vec, len }
    }

    /// Removes every element; the length becomes `Zero`.
    pub fn clear(self) -> (r: DVec<T>)
        ensures
            r.view() == Seq::<T>::empty(),
            r.len_term() == Term::Zero,
    {
        let mut vec = self.into_vec();
        vec.clear();
        let len = Zero();
        len.holds();
        DVec { vec, len }
    }

    /// Removes the element at `idx` of a vector of length `Succ(l)`, moving the
    /// last element into its place; the length becomes `l`.
    pub fn swap_remove(self, idx: Fin<usize>) -> (r: (DVec<T>, T))
        requires
            self.len_term() == mk_succ(idx.bound()),
        ensures
            r.1 == self.view()[idx.index() as int],
            r.0.view() == self.view().update(idx.index() as int, self.view().last()).drop_last(),
            r.0.len_term() == idx.bound(),
    {
        proof {
            use_type_invariant(&self);
        }
        idx.holds_bound();
        self.len.holds();
        let ghost l = idx.bound();
        let k = idx.into_inner();
        let DVec { mut vec, len } = self;
        let x = vec.swap_remove(k);
        let len = Pred(len);
        let len = crate::transmutable::coerce(len, crate::num::sub::s_a_minus_s_0_eq_a(Ghost(l)));
        len.holds();
        (DVec { vec, len }, x)
    }

    /// The elements as a dependent iterator with the same length term.
    pub fn into_iter(self) -> (r: DIter<T>)
        ensures
            r.items() == self.view(),
            r.len_term() == self.len_term(),
    {
        proof {
            use_type_invariant(&self);
        }
        let DVec { vec, len } = self;
        DIter::from_items(vec, len)
    }

    /// Appends the items of `iter`; the length becomes `l + il` for the
    /// length terms `l` of the vector and `il` of the iterator.
    pub fn add_iter(self, iter: DIter<T>) -> (r: DVec<T>)
        ensures
            r.view() == self.view() + iter.items(),
            r.len_term() == mk_add(self.len_term(), iter.len_term()),
    {
        self.holds();
        iter.holds();
        let ghost l = self.len_term();
        let ghost il = iter.len_term();
        let ghost all = self.view() + iter.items();
        let mut vec = self.into_vec();
        let mut it = iter;
        loop
            invariant
                vec@ + it.items() == all,
                all.len() == den(l) + den(il),
            ensures
                vec@ == all,
            decreases it.items().len(),
        {
            it.holds();
            match it.next() {
                Ok((next, x)) => {
                    proof {
                        assert(vec@.push(x) + next.items() =~= vec@ + it.items());
                    }
                    vec.push(x);
                    it = next;
                },
                Err(_eq) => {
                    proof {
                        assert(vec@ + it.items() =~= vec@);
                    }
                    break ;
                },
            }
        }
        let n = vec.len();
        DVec { vec, len: Value::definition(n, Ghost(mk_add(l, il))) }
    }

    /// Appends the elements of `other`; the length becomes the sum of the
    /// two length terms.
    pub fn add(self, other: DVec<T>) -> (r: DVec<T>)
        ensures
            r.view() == self.view() + other.view(),
            r.len_term() == mk_add(self.len_term(), other.len_term()),
    {
        self.add_iter(other.into_iter())
    }
}

impl<T> DIter<T> {
    #[verifier::type_invariant]
    spec fn inv(self) -> bool {
        self.rest@.len() == self.len.rep()
    }

    /// The items still to come, in order.
    pub closed spec fn items(self) -> Seq<T> {
        reversed(self.rest@)
    }

    /// The term whose value is the number of items still to come.
    pub closed spec fn len_term(self) -> Term {
        self.len.term()
    }

    /// The number of items still to come is the value of the length term.
    pub fn holds(&self)
        ensures
            self.items().len() == den(self.len_term()),
    {
        proof {
            use_type_invariant(self);
        }
        self.len.holds();
    }

    /// The items of `vec` in order, with `len` naming their number.
    fn from_items(vec: Vec<T>, len: Value<usize>) -> (r: DIter<T>)
        requires
            vec@.len() == len.rep(),
        ensures
            r.items() == vec@,
            r.len_term() == len.term(),
    {
        let rest = reverse_vec(vec);
        proof {
            assert(reversed(rest@) =~= vec@);
        }
        DIter { rest, len }
    }

    /// The items still to come, in order, and their number.
    pub fn into_inner(self) -> (r: (Vec<T>, Value<usize>))
        ensures
            r.0@ == self.items(),
            r.1.term() == self.len_term(),
            r.1.rep() == self.items().len(),
    {
        proof {
            use_type_invariant(&self);
        }
        let DIter { rest, len } = self;
        (reverse_vec(rest), len)
    }

    /// The items of `items` in order, their number named by the fresh name of
    /// `guard`'s brand.
    pub fn new_exact(guard: Guard, items: Vec<T>) -> (r: DIter<T>)
        ensures
            r.items() == items@,
            r.len_term() == fresh_name(guard.id(), items@.len() as int),
    {
        let n = items.len();
        DIter::from_items(items, Var(guard, n))
    }

    /// The same items under an equal length term.
    pub fn equiv(self, eq: ValueEq) -> (r: DIter<T>)
        requires
            eq.lhs() == self.len_term(),
        ensures
            r.items() == self.items(),
            r.len_term() == eq.rhs(),
    {
        proof {
            use_type_invariant(&self);
        }
        let DIter { rest, len } = self;
        DIter { rest, len: crate::transmutable::coerce(len, eq) }
    }

    /// The number of items still to come.
    pub fn len(&self) -> (r: Value<usize>)
        ensures
            r.term() == self.len_term(),
            r.rep() == self.items().len(),
    {
        proof {
            use_type_invariant(self);
        }
        self.len.duplicate()
    }

    /// The next item and the rest, whose length term is the old one minus
    /// one; or evidence that the length is zero.
    pub fn next(self) -> (r: Result<(DIter<T>, T), ValueEq>)
        ensures
            r is Err <==> self.items().len() == 0,
            r matches Ok((it, x)) ==> x == self.items()[0] && it.items() == self.items().drop_first()
                && it.len_term() == mk_pred(self.len_term()),
            r matches Err(w) ==> w.lhs() == self.len_term() && w.rhs() == Term::Zero,
    {
        proof {
            use_type_invariant(&self);
        }
        self.len.holds();
        let DIter { mut rest, len } = self;
        let ghost old_rest = rest@;
        match uint_pred(len) {
            Ok(pred) => {
                pred.holds();
                proof {
                    lemma_den_one();
                }
                let x = rest.pop().unwrap();
                proof {
                    assert(reversed(rest@) =~= reversed(old_rest).drop_first());
                }
                Ok((DIter { rest, len: pred }, x))
            },
            Err(eq) => Err(eq),
        }
    }
}

} // verus!
