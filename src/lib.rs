//! Machine-checked evidence about runtime values.
//!
//! A symbolic [`term::Term`] names a mathematical value; a [`term::Value`] is a
//! runtime value tagged with the term it equals. Relation witnesses
//! ([`type_eq::ValueEq`], [`type_eq::ValueNe`], [`type_eq::ValueLe`],
//! [`type_eq::ValueLt`]) are zero-sized evidence that two terms are related;
//! they are combined by transitivity, symmetry and the order laws, and they
//! re-tag values and containers at no run-time cost ([`transmutable`]).
//!
//! Every relation that a witness records is proved by Verus from the meaning
//! of terms ([`term::den`]): the laws of the numeric family ([`num`]) and of
//! the boolean family ([`bool`]) are proved once, and the derived theorems are
//! composed from them with the witness algebra. Runtime checks
//! ([`term::value_eq`], [`num::uint::uint_as_succ`], [`bool::choose_bool`])
//! ground evidence in actual comparisons. Brands ([`var`]) mint fresh names;
//! [`induction`] runs inductions and descents in loops; [`fin`], [`slice`], [`vec`]
//! and [`result`] carry their sizes or selectors as terms, and [`pair`] packs a
//! value with such an object ([`kinds::Tagged`]) while hiding the term.
use vstd::prelude::*;

pub mod bool;
pub mod fin;
pub mod induction;
pub mod kinds;
pub mod num;
pub mod pair;
pub mod result;
pub mod slice;
pub mod term;
pub mod transmutable;
pub mod type_eq;
pub mod var;
pub mod vec;
