use crate::locality::{combine_cmp, combine_eq, combine_partial_cmp, reversed, Locality};
use core::cmp::Ordering;
use vstd::prelude::*;

verus! {

/// Equality split into a local and a non-local phase.
///
/// `locality` says which phases carry information; a phase that it leaves out must not be
/// called.
pub trait CamiPartialEq: Sized {
    /// The locality of the type, fixed for the type.
    spec fn spec_locality() -> Locality;

    /// Local part of equality, as a mathematical relation.
    spec fn spec_eq_local(&self, other: &Self) -> bool;

    /// Non-local part of equality, as a mathematical relation.
    spec fn spec_eq_non_local(&self, other: &Self) -> bool;

    fn locality() -> (r: Locality)
        ensures
            r == Self::spec_locality(),
    ;

    fn eq_local(&self, other: &Self) -> (r: bool)
        requires
            Self::spec_locality().has_local(),
        ensures
            r == self.spec_eq_local(other),
    ;

    fn eq_non_local(&self, other: &Self) -> (r: bool)
        requires
            Self::spec_locality().has_non_local(),
        ensures
            r == self.spec_eq_non_local(other),
    ;
}

/// Full equality of a type: its two equality phases combined by the locality.
pub open spec fn eq_full<T: CamiPartialEq>(a: &T, b: &T) -> bool {
    combine_eq(T::spec_locality(), a.spec_eq_local(b), a.spec_eq_non_local(b))
}

/// Partial ordering split into a local and a non-local phase.
pub trait CamiPartialOrd: CamiPartialEq {
    spec fn spec_partial_cmp_local(&self, other: &Self) -> Option<Ordering>;

    spec fn spec_partial_cmp_non_local(&self, other: &Self) -> Option<Ordering>;

    fn partial_cmp_local(&self, other: &Self) -> (r: Option<Ordering>)
        requires
            Self::spec_locality().has_local(),
        ensures
            r == self.spec_partial_cmp_local(other),
    ;

    fn partial_cmp_non_local(&self, other: &Self) -> (r: Option<Ordering>)
        requires
            Self::spec_locality().has_non_local(),
        ensures
            r == self.spec_partial_cmp_non_local(other),
    ;

    fn lt_local(&self, other: &Self) -> (r: bool)
        requires
            Self::spec_locality().has_local(),
        ensures
            r == (self.spec_partial_cmp_local(other) == Some(Ordering::Less)),
    {
        match self.partial_cmp_local(other) {
            Some(Ordering::Less) => true,
            _ => false,
        }
    }

    fn lt_non_local(&self, other: &Self) -> (r: bool)
        requires
            Self::spec_locality().has_non_local(),
        ensures
            r == (self.spec_partial_cmp_non_local(other) == Some(Ordering::Less)),
    {
        match self.partial_cmp_non_local(other) {
            Some(Ordering::Less) => true,
            _ => false,
        }
    }

    fn le_local(&self, other: &Self) -> (r: bool)
        requires
            Self::spec_locality().has_local(),
        ensures
            r == (self.spec_partial_cmp_local(other) == Some(Ordering::Less)
                || self.spec_partial_cmp_local(other) == Some(Ordering::Equal)),
    {
        match self.partial_cmp_local(other) {
            Some(Ordering::Less) | Some(Ordering::Equal) => true,
            _ => false,
        }
    }

    fn le_non_local(&self, other: &Self) -> (r: bool)
        requires
            Self::spec_locality().has_non_local(),
        ensures
            r == (self.spec_partial_cmp_non_local(other) == Some(Ordering::Less)
                || self.spec_partial_cmp_non_local(other) == Some(Ordering::Equal)),
    {
        match self.partial_cmp_non_local(other) {
            Some(Ordering::Less) | Some(Ordering::Equal) => true,
            _ => false,
        }
    }

    fn gt_local(&self, other: &Self) -> (r: bool)
        requires
            Self::spec_locality().has_local(),
        ensures
            r == (self.spec_partial_cmp_local(other) == Some(Ordering::Greater)),
    {
        match self.partial_cmp_local(other) {
            Some(Ordering::Greater) => true,
            _ => false,
        }
    }

    fn gt_non_local(&self, other: &Self) -> (r: bool)
        requires
            Self::spec_locality().has_non_local(),
        ensures
            r == (self.spec_partial_cmp_non_local(other) == Some(Ordering::Greater)),
    {
        match self.partial_cmp_non_local(other) {
            Some(Ordering::Greater) => true,
            _ => false,
        }
    }

    fn ge_local(&self, other: &Self) -> (r: bool)
        requires
            Self::spec_locality().has_local(),
        ensures
            r == (self.spec_partial_cmp_local(other) == Some(Ordering::Greater)
                || self.spec_partial_cmp_local(other) == Some(Ordering::Equal)),
    {
        match self.partial_cmp_local(other) {
            Some(Ordering::Greater) | Some(Ordering::Equal) => true,
            _ => false,
        }
    }

    fn ge_non_local(&self, other: &Self) -> (r: bool)
        requires
            Self::spec_locality().has_non_local(),
        ensures
            r == (self.spec_partial_cmp_non_local(other) == Some(Ordering::Greater)
                || self.spec_partial_cmp_non_local(other) == Some(Ordering::Equal)),
    {
        match self.partial_cmp_non_local(other) {
            Some(Ordering::Greater) | Some(Ordering::Equal) => true,
            _ => false,
        }
    }
}

/// Full partial comparison of a type: its two partial phases combined by the locality.
pub open spec fn partial_cmp_full<T: CamiPartialOrd>(a: &T, b: &T) -> Option<Ordering> {
    combine_partial_cmp(
        T::spec_locality(),
        a.spec_partial_cmp_local(b),
        a.spec_partial_cmp_non_local(b),
    )
}

/// Total ordering split into a local and a non-local phase.
///
/// The full order, [`cmp_full`], is the two phases combined by the locality; an implementation
/// proves that it is antisymmetric and transitive.
pub trait CamiOrd: CamiPartialOrd {
    spec fn spec_cmp_local(&self, other: &Self) -> Ordering;

    spec fn spec_cmp_non_local(&self, other: &Self) -> Ordering;

    /// Comparison on local data only.
    fn cmp_local(&self, other: &Self) -> (r: Ordering)
        requires
            Self::spec_locality().has_local(),
        ensures
            r == self.spec_cmp_local(other),
    ;

    /// Comparison on non-local data only.
    fn cmp_non_local(&self, other: &Self) -> (r: Ordering)
        requires
            Self::spec_locality().has_non_local(),
        ensures
            r == self.spec_cmp_non_local(other),
    ;

    /// Swapping the two sides reverses the full order.
    proof fn lemma_cmp_full_antisymmetric(a: &Self, b: &Self)
        ensures
            combine_cmp(Self::spec_locality(), b.spec_cmp_local(a), b.spec_cmp_non_local(a)) == reversed(
                combine_cmp(Self::spec_locality(), a.spec_cmp_local(b), a.spec_cmp_non_local(b)),
            ),
    ;

    /// The full order is transitive, and strict as soon as one of its two steps is strict.
    proof fn lemma_cmp_full_transitive(a: &Self, b: &Self, c: &Self)
        requires
            combine_cmp(Self::spec_locality(), a.spec_cmp_local(b), a.spec_cmp_non_local(b)) != Ordering::Greater,
            combine_cmp(Self::spec_locality(), b.spec_cmp_local(c), b.spec_cmp_non_local(c)) != Ordering::Greater,
        ensures
            combine_cmp(Self::spec_locality(), a.spec_cmp_local(c), a.spec_cmp_non_local(c)) != Ordering::Greater,
            combine_cmp(Self::spec_locality(), a.spec_cmp_local(b), a.spec_cmp_non_local(b)) == Ordering::Less
                || combine_cmp(Self::spec_locality(), b.spec_cmp_local(c), b.spec_cmp_non_local(c)) == Ordering::Less
                ==> combine_cmp(Self::spec_locality(), a.spec_cmp_local(c), a.spec_cmp_non_local(c)) == Ordering::Less,
    ;
}

/// Full comparison of a type: its two phases combined by the locality.
pub open spec fn cmp_full<T: CamiOrd>(a: &T, b: &T) -> Ordering {
    combine_cmp(T::spec_locality(), a.spec_cmp_local(b), a.spec_cmp_non_local(b))
}

} // verus!

verus! {

/// Full comparison, consulting only the phases that the locality has, and the non-local one
/// only when the local one ties.
pub fn compare_full<T: CamiOrd>(a: &T, b: &T) -> (r: Ordering)
    ensures
        r == cmp_full(a, b),
{
    let loc = T::locality();
    if loc.has_local() {
        let local = a.cmp_local(b);
        match local {
            Ordering::Equal => {
                if loc.has_non_local() {
                    a.cmp_non_local(b)
                } else {
                    Ordering::Equal
                }
            },
            _ => local,
        }
    } else {
        a.cmp_non_local(b)
    }
}

/// Full equality, consulting the non-local phase only when the local one holds.
pub fn equal_full<T: CamiPartialEq>(a: &T, b: &T) -> (r: bool)
    ensures
        r == eq_full(a, b),
{
    let loc = T::locality();
    if loc.has_local() {
        if a.eq_local(b) {
            !loc.has_non_local() || a.eq_non_local(b)
        } else {
            false
        }
    } else {
        a.eq_non_local(b)
    }
}

/// Full partial comparison, consulting the non-local phase only when the local one ties.
pub fn partial_compare_full<T: CamiPartialOrd>(a: &T, b: &T) -> (r: Option<Ordering>)
    ensures
        r == partial_cmp_full(a, b),
{
    let loc = T::locality();
    if loc.has_local() {
        let local = a.partial_cmp_local(b);
        match local {
            Some(Ordering::Equal) => {
                if loc.has_non_local() {
                    a.partial_cmp_non_local(b)
                } else {
                    Some(Ordering::Equal)
                }
            },
            _ => local,
        }
    } else {
        a.partial_cmp_non_local(b)
    }
}

} // verus!
