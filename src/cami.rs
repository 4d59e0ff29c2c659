use crate::locality::Locality;
use crate::traits::{
    cmp_full, compare_full, eq_full, equal_full, partial_cmp_full, partial_compare_full, CamiOrd,
    CamiPartialEq, CamiPartialOrd,
};
use core::cmp::Ordering;
use vstd::prelude::*;

verus! {

/// A value compared by its full order: `==` is [`eq_full`] and `partial_cmp` is
/// [`partial_cmp_full`] of the wrapped value.
#[derive(Clone, Copy, Debug)]
pub struct Cami<T: CamiPartialEq>(pub T);

impl<T: CamiPartialEq> Cami<T> {
    /// Wraps `from`.
    pub fn new(from: T) -> (r: Self)
        ensures
            r.0 == from,
    {
        Cami(from)
    }

    /// Consumes the wrapper and returns the wrapped value.
    pub fn from_cami(self) -> (r: T)
        ensures
            r == self.0,
    {
        self.0
    }

    /// The wrapped value, borrowed.
    pub fn in_cami(&self) -> (r: &T)
        ensures
            *r == self.0,
    {
        &self.0
    }

    /// The wrapped value, borrowed mutably.
    pub fn in_cami_mut(&mut self) -> (r: &mut T)
        ensures
            *r == old(self).0,
            final(self).0 == *final(r),
    {
        &mut self.0
    }
}

impl<T: CamiPartialEq + Copy> Cami<T> {
    /// A copy of the wrapped value.
    pub fn from_cami_copy(&self) -> (r: T)
        ensures
            r == self.0,
    {
        self.0
    }
}

impl<T: CamiPartialEq + Clone> Cami<T> {
    /// A clone of the wrapped value.
    pub fn from_cami_clone(&self) -> (r: T)
        ensures
            cloned::<T>(self.0, r),
    {
        self.0.clone()
    }
}

impl<T: CamiPartialEq> PartialEq for Cami<T> {
    fn eq(&self, other: &Self) -> (r: bool) {
        equal_full(&self.0, &other.0)
    }
}

impl<T: Eq + CamiPartialEq> Eq for Cami<T> {
}

impl<T: CamiPartialEq> vstd::std_specs::cmp::PartialEqSpecImpl for Cami<T> {
    open spec fn obeys_eq_spec() -> bool {
        true
    }

    open spec fn eq_spec(&self, other: &Self) -> bool {
        eq_full(&self.0, &other.0)
    }
}

impl<T: CamiPartialOrd> PartialOrd for Cami<T> {
    fn partial_cmp(&self, other: &Self) -> (r: Option<Ordering>) {
        partial_compare_full(&self.0, &other.0)
    }
}

impl<T: CamiPartialOrd> vstd::std_specs::cmp::PartialOrdSpecImpl for Cami<T> {
    open spec fn obeys_partial_cmp_spec() -> bool {
        true
    }

    open spec fn partial_cmp_spec(&self, other: &Self) -> Option<Ordering> {
        partial_cmp_full(&self.0, &other.0)
    }
}

impl<T: CamiOrd> Cami<T> {
    /// Full comparison of the wrapped values.
    pub fn cmp(&self, other: &Self) -> (r: Ordering)
        ensures
            r == cmp_full(&self.0, &other.0),
    {
        compare_full(&self.0, &other.0)
    }
}

/// A wrapper compares as the value it wraps.
impl<T: CamiPartialEq> CamiPartialEq for Cami<T> {
    open spec fn spec_locality() -> Locality {
        T::spec_locality()
    }

    open spec fn spec_eq_local(&self, other: &Self) -> bool {
        self.0.spec_eq_local(&other.0)
    }

    open spec fn spec_eq_non_local(&self, other: &Self) -> bool {
        self.0.spec_eq_non_local(&other.0)
    }

    fn locality() -> (r: Locality) {
        T::locality()
    }

    fn eq_local(&self, other: &Self) -> (r: bool) {
        self.0.eq_local(&other.0)
    }

    fn eq_non_local(&self, other: &Self) -> (r: bool) {
        self.0.eq_non_local(&other.0)
    }
}

impl<T: CamiPartialOrd> CamiPartialOrd for Cami<T> {
    open spec fn spec_partial_cmp_local(&self, other: &Self) -> Option<Ordering> {
        self.0.spec_partial_cmp_local(&other.0)
    }

    open spec fn spec_partial_cmp_non_local(&self, other: &Self) -> Option<Ordering> {
        self.0.spec_partial_cmp_non_local(&other.0)
    }

    fn partial_cmp_local(&self, other: &Self) -> (r: Option<Ordering>) {
        self.0.partial_cmp_local(&other.0)
    }

    fn partial_cmp_non_local(&self, other: &Self) -> (r: Option<Ordering>) {
        self.0.partial_cmp_non_local(&other.0)
    }
}

impl<T: CamiOrd> CamiOrd for Cami<T> {
    open spec fn spec_cmp_local(&self, other: &Self) -> Ordering {
        self.0.spec_cmp_local(&other.0)
    }

    open spec fn spec_cmp_non_local(&self, other: &Self) -> Ordering {
        self.0.spec_cmp_non_local(&other.0)
    }

    fn cmp_local(&self, other: &Self) -> (r: Ordering) {
        self.0.cmp_local(&other.0)
    }

    fn cmp_non_local(&self, other: &Self) -> (r: Ordering) {
        self.0.cmp_non_local(&other.0)
    }

    proof fn lemma_cmp_full_antisymmetric(a: &Self, b: &Self) {
        T::lemma_cmp_full_antisymmetric(&a.0, &b.0);
    }

    proof fn lemma_cmp_full_transitive(a: &Self, b: &Self, c: &Self) {
        T::lemma_cmp_full_transitive(&a.0, &b.0, &c.0);
    }
}

/// Wrapping a value by move.
pub trait IntoCami: Sized {
    type Wrapped: CamiPartialEq;

    /// The value that the wrapper holds.
    spec fn spec_wrapped(self) -> Self::Wrapped;

    fn into_cami(self) -> (r: Cami<Self::Wrapped>)
        ensures
            r.0 == self.spec_wrapped(),
    ;
}

impl<T: CamiPartialEq> IntoCami for T {
    type Wrapped = T;

    open spec fn spec_wrapped(self) -> T {
        self
    }

    fn into_cami(self) -> (r: Cami<T>) {
        Cami(self)
    }
}

/// Wrapping a copy of a value.
pub trait IntoCamiCopy {
    type Wrapped: CamiPartialEq;

    /// The value that the wrapper holds.
    spec fn spec_copied(&self) -> Self::Wrapped;

    fn into_cami_copy(&self) -> (r: Cami<Self::Wrapped>)
        ensures
            r.0 == self.spec_copied(),
    ;
}

impl<T: CamiPartialEq + Copy> IntoCamiCopy for T {
    type Wrapped = T;

    open spec fn spec_copied(&self) -> T {
        *self
    }

    fn into_cami_copy(&self) -> (r: Cami<T>) {
        Cami(*self)
    }
}

/// Wrapping a clone of a value.
pub trait IntoCamiClone {
    type Wrapped: CamiPartialEq;

    /// Whether `w` is a clone of the value.
    spec fn spec_is_clone(&self, w: Self::Wrapped) -> bool;

    fn into_cami_clone(&self) -> (r: Cami<Self::Wrapped>)
        ensures
            self.spec_is_clone(r.0),
    ;
}

impl<T: CamiPartialEq + Clone> IntoCamiClone for T {
    type Wrapped = T;

    open spec fn spec_is_clone(&self, w: T) -> bool {
        cloned::<T>(*self, w)
    }

    fn into_cami_clone(&self) -> (r: Cami<T>) {
        Cami(self.clone())
    }
}

/// Viewing a value in place as a wrapped one. Only a type whose layout is that of its
/// wrapper can offer this; the library implements it for none.
pub trait IntoRefCami {
    type Wrapped: CamiPartialEq;

    fn into_ref_cami(&self) -> &Cami<Self::Wrapped>;

    fn into_mut_cami(&mut self) -> &mut Cami<Self::Wrapped>;
}

/// Viewing a slice in place as a slice of wrapped values. Only a type whose layout is that
/// of its wrapper can offer this; the library implements it for none.
pub trait IntoSliceCami {
    type Wrapped: CamiPartialEq;

    fn into_slice_cami(&self) -> &[Cami<Self::Wrapped>];

    fn into_slice_mut_cami(&mut self) -> &mut [Cami<Self::Wrapped>];
}

/// Viewing a vector in place as a vector of wrapped values. Only a type whose layout is that
/// of its wrapper can offer this; the library implements it for none.
pub trait IntoVecCami<T: CamiPartialEq> {
    fn into_vec_cami(self) -> Vec<Cami<T>>;

    fn into_ref_vec_cami(&self) -> &Vec<Cami<T>>;

    fn into_mut_vec_cami(&mut self) -> &mut Vec<Cami<T>>;
}

} // verus!
