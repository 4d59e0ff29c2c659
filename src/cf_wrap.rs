use crate::locality::Locality;
use crate::traits::{CamiOrd, CamiPartialEq, CamiPartialOrd};
use core::cmp::Ordering;
use vstd::prelude::*;

verus! {

/// A value whose ordinary order is offered as a single non-local phase, for a type that has no
/// cheaper local part to compare first.
#[derive(Clone, Copy, Debug, PartialEq, Eq)]
pub struct CfWrap<T> {
    t: T,
}

impl<T> CfWrap<T> {
    pub closed spec fn spec_inner(&self) -> T {
        self.t
    }

    /// Wraps `t`.
    pub fn new(t: T) -> (r: Self)
        ensures
            r.spec_inner() == t,
    {
        CfWrap { t }
    }

    /// The wrapped value.
    pub fn into_inner(self) -> (r: T)
        ensures
            r == self.spec_inner(),
    {
        self.t
    }
}

/// Order of two integers.
pub open spec fn int_cmp(a: int, b: int) -> Ordering {
    if a < b {
        Ordering::Less
    } else if a > b {
        Ordering::Greater
    } else {
        Ordering::Equal
    }
}

impl CamiPartialEq for CfWrap<u8> {
    open spec fn spec_locality() -> Locality {
        Locality::PureNonLocal
    }

    open spec fn spec_eq_local(&self, other: &Self) -> bool {
        true
    }

    open spec fn spec_eq_non_local(&self, other: &Self) -> bool {
        self.spec_inner() == other.spec_inner()
    }

    fn locality() -> (r: Locality) {
        Locality::PureNonLocal
    }

    fn eq_local(&self, other: &Self) -> (r: bool) {
        true
    }

    fn eq_non_local(&self, other: &Self) -> (r: bool) {
        self.t == other.t
    }
}

impl CamiPartialOrd for CfWrap<u8> {
    open spec fn spec_partial_cmp_local(&self, other: &Self) -> Option<Ordering> {
        Some(Ordering::Equal)
    }

    open spec fn spec_partial_cmp_non_local(&self, other: &Self) -> Option<Ordering> {
        Some(int_cmp(self.spec_inner() as int, other.spec_inner() as int))
    }

    fn partial_cmp_local(&self, other: &Self) -> (r: Option<Ordering>) {
        Some(Ordering::Equal)
    }

    fn partial_cmp_non_local(&self, other: &Self) -> (r: Option<Ordering>) {
        Some(self.t.cmp(&other.t))
    }
}

impl CamiOrd for CfWrap<u8> {
    open spec fn spec_cmp_local(&self, other: &Self) -> Ordering {
        Ordering::Equal
    }

    open spec fn spec_cmp_non_local(&self, other: &Self) -> Ordering {
        int_cmp(self.spec_inner() as int, other.spec_inner() as int)
    }

    fn cmp_local(&self, other: &Self) -> (r: Ordering) {
        Ordering::Equal
    }

    fn cmp_non_local(&self, other: &Self) -> (r: Ordering) {
        self.t.cmp(&other.t)
    }

    proof fn lemma_cmp_full_antisymmetric(a: &Self, b: &Self) {
    }

    proof fn lemma_cmp_full_transitive(a: &Self, b: &Self, c: &Self) {
    }
}

impl CamiPartialEq for CfWrap<u16> {
    open spec fn spec_locality() -> Locality {
        Locality::PureNonLocal
    }

    open spec fn spec_eq_local(&self, other: &Self) -> bool {
        true
    }

    open spec fn spec_eq_non_local(&self, other: &Self) -> bool {
        self.spec_inner() == other.spec_inner()
    }

    fn locality() -> (r: Locality) {
        Locality::PureNonLocal
    }

    fn eq_local(&self, other: &Self) -> (r: bool) {
        true
    }

    fn eq_non_local(&self, other: &Self) -> (r: bool) {
        self.t == other.t
    }
}

impl CamiPartialOrd for CfWrap<u16> {
    open spec fn spec_partial_cmp_local(&self, other: &Self) -> Option<Ordering> {
        Some(Ordering::Equal)
    }

    open spec fn spec_partial_cmp_non_local(&self, other: &Self) -> Option<Ordering> {
        Some(int_cmp(self.spec_inner() as int, other.spec_inner() as int))
    }

    fn partial_cmp_local(&self, other: &Self) -> (r: Option<Ordering>) {
        Some(Ordering::Equal)
    }

    fn partial_cmp_non_local(&self, other: &Self) -> (r: Option<Ordering>) {
        Some(self.t.cmp(&other.t))
    }
}

impl CamiOrd for CfWrap<u16> {
    open spec fn spec_cmp_local(&self, other: &Self) -> Ordering {
        Ordering::Equal
    }

    open spec fn spec_cmp_non_local(&self, other: &Self) -> Ordering {
        int_cmp(self.spec_inner() as int, other.spec_inner() as int)
    }

    fn cmp_local(&self, other: &Self) -> (r: Ordering) {
        Ordering::Equal
    }

    fn cmp_non_local(&self, other: &Self) -> (r: Ordering) {
        self.t.cmp(&other.t)
    }

    proof fn lemma_cmp_full_antisymmetric(a: &Self, b: &Self) {
    }

    proof fn lemma_cmp_full_transitive(a: &Self, b: &Self, c: &Self) {
    }
}

impl CamiPartialEq for CfWrap<u32> {
    open spec fn spec_locality() -> Locality {
        Locality::PureNonLocal
    }

    open spec fn spec_eq_local(&self, other: &Self) -> bool {
        true
    }

    open spec fn spec_eq_non_local(&self, other: &Self) -> bool {
        self.spec_inner() == other.spec_inner()
    }

    fn locality() -> (r: Locality) {
        Locality::PureNonLocal
    }

    fn eq_local(&self, other: &Self) -> (r: bool) {
        true
    }

    fn eq_non_local(&self, other: &Self) -> (r: bool) {
        self.t == other.t
    }
}

impl CamiPartialOrd for CfWrap<u32> {
    open spec fn spec_partial_cmp_local(&self, other: &Self) -> Option<Ordering> {
        Some(Ordering::Equal)
    }

    open spec fn spec_partial_cmp_non_local(&self, other: &Self) -> Option<Ordering> {
        Some(int_cmp(self.spec_inner() as int, other.spec_inner() as int))
    }

    fn partial_cmp_local(&self, other: &Self) -> (r: Option<Ordering>) {
        Some(Ordering::Equal)
    }

    fn partial_cmp_non_local(&self, other: &Self) -> (r: Option<Ordering>) {
        Some(self.t.cmp(&other.t))
    }
}

impl CamiOrd for CfWrap<u32> {
    open spec fn spec_cmp_local(&self, other: &Self) -> Ordering {
        Ordering::Equal
    }

    open spec fn spec_cmp_non_local(&self, other: &Self) -> Ordering {
        int_cmp(self.spec_inner() as int, other.spec_inner() as int)
    }

    fn cmp_local(&self, other: &Self) -> (r: Ordering) {
        Ordering::Equal
    }

    fn cmp_non_local(&self, other: &Self) -> (r: Ordering) {
        self.t.cmp(&other.t)
    }

    proof fn lemma_cmp_full_antisymmetric(a: &Self, b: &Self) {
    }

    proof fn lemma_cmp_full_transitive(a: &Self, b: &Self, c: &Self) {
    }
}

impl CamiPartialEq for CfWrap<u64> {
    open spec fn spec_locality() -> Locality {
        Locality::PureNonLocal
    }

    open spec fn spec_eq_local(&self, other: &Self) -> bool {
        true
    }

    open spec fn spec_eq_non_local(&self, other: &Self) -> bool {
        self.spec_inner() == other.spec_inner()
    }

    fn locality() -> (r: Locality) {
        Locality::PureNonLocal
    }

    fn eq_local(&self, other: &Self) -> (r: bool) {
        true
    }

    fn eq_non_local(&self, other: &Self) -> (r: bool) {
        self.t == other.t
    }
}

impl CamiPartialOrd for CfWrap<u64> {
    open spec fn spec_partial_cmp_local(&self, other: &Self) -> Option<Ordering> {
        Some(Ordering::Equal)
    }

    open spec fn spec_partial_cmp_non_local(&self, other: &Self) -> Option<Ordering> {
        Some(int_cmp(self.spec_inner() as int, other.spec_inner() as int))
    }

    fn partial_cmp_local(&self, other: &Self) -> (r: Option<Ordering>) {
        Some(Ordering::Equal)
    }

    fn partial_cmp_non_local(&self, other: &Self) -> (r: Option<Ordering>) {
        Some(self.t.cmp(&other.t))
    }
}

impl CamiOrd for CfWrap<u64> {
    open spec fn spec_cmp_local(&self, other: &Self) -> Ordering {
        Ordering::Equal
    }

    open spec fn spec_cmp_non_local(&self, other: &Self) -> Ordering {
        int_cmp(self.spec_inner() as int, other.spec_inner() as int)
    }

    fn cmp_local(&self, other: &Self) -> (r: Ordering) {
        Ordering::Equal
    }

    fn cmp_non_local(&self, other: &Self) -> (r: Ordering) {
        self.t.cmp(&other.t)
    }

    proof fn lemma_cmp_full_antisymmetric(a: &Self, b: &Self) {
    }

    proof fn lemma_cmp_full_transitive(a: &Self, b: &Self, c: &Self) {
    }
}

impl CamiPartialEq for CfWrap<u128> {
    open spec fn spec_locality() -> Locality {
        Locality::PureNonLocal
    }

    open spec fn spec_eq_local(&self, other: &Self) -> bool {
        true
    }

    open spec fn spec_eq_non_local(&self, other: &Self) -> bool {
        self.spec_inner() == other.spec_inner()
    }

    fn locality() -> (r: Locality) {
        Locality::PureNonLocal
    }

    fn eq_local(&self, other: &Self) -> (r: bool) {
        true
    }

    fn eq_non_local(&self, other: &Self) -> (r: bool) {
        self.t == other.t
    }
}

impl CamiPartialOrd for CfWrap<u128> {
    open spec fn spec_partial_cmp_local(&self, other: &Self) -> Option<Ordering> {
        Some(Ordering::Equal)
    }

    open spec fn spec_partial_cmp_non_local(&self, other: &Self) -> Option<Ordering> {
        Some(int_cmp(self.spec_inner() as int, other.spec_inner() as int))
    }

    fn partial_cmp_local(&self, other: &Self) -> (r: Option<Ordering>) {
        Some(Ordering::Equal)
    }

    fn partial_cmp_non_local(&self, other: &Self) -> (r: Option<Ordering>) {
        Some(self.t.cmp(&other.t))
    }
}

impl CamiOrd for CfWrap<u128> {
    open spec fn spec_cmp_local(&self, other: &Self) -> Ordering {
        Ordering::Equal
    }

    open spec fn spec_cmp_non_local(&self, other: &Self) -> Ordering {
        int_cmp(self.spec_inner() as int, other.spec_inner() as int)
    }

    fn cmp_local(&self, other: &Self) -> (r: Ordering) {
        Ordering::Equal
    }

    fn cmp_non_local(&self, other: &Self) -> (r: Ordering) {
        self.t.cmp(&other.t)
    }

    proof fn lemma_cmp_full_antisymmetric(a: &Self, b: &Self) {
    }

    proof fn lemma_cmp_full_transitive(a: &Self, b: &Self, c: &Self) {
    }
}

impl CamiPartialEq for CfWrap<usize> {
    open spec fn spec_locality() -> Locality {
        Locality::PureNonLocal
    }

    open spec fn spec_eq_local(&self, other: &Self) -> bool {
        true
    }

    open spec fn spec_eq_non_local(&self, other: &Self) -> bool {
        self.spec_inner() == other.spec_inner()
    }

    fn locality() -> (r: Locality) {
        Locality::PureNonLocal
    }

    fn eq_local(&self, other: &Self) -> (r: bool) {
        true
    }

    fn eq_non_local(&self, other: &Self) -> (r: bool) {
        self.t == other.t
    }
}

impl CamiPartialOrd for CfWrap<usize> {
    open spec fn spec_partial_cmp_local(&self, other: &Self) -> Option<Ordering> {
        Some(Ordering::Equal)
    }

    open spec fn spec_partial_cmp_non_local(&self, other: &Self) -> Option<Ordering> {
        Some(int_cmp(self.spec_inner() as int, other.spec_inner() as int))
    }

    fn partial_cmp_local(&self, other: &Self) -> (r: Option<Ordering>) {
        Some(Ordering::Equal)
    }

    fn partial_cmp_non_local(&self, other: &Self) -> (r: Option<Ordering>) {
        Some(self.t.cmp(&other.t))
    }
}

impl CamiOrd for CfWrap<usize> {
    open spec fn spec_cmp_local(&self, other: &Self) -> Ordering {
        Ordering::Equal
    }

    open spec fn spec_cmp_non_local(&self, other: &Self) -> Ordering {
        int_cmp(self.spec_inner() as int, other.spec_inner() as int)
    }

    fn cmp_local(&self, other: &Self) -> (r: Ordering) {
        Ordering::Equal
    }

    fn cmp_non_local(&self, other: &Self) -> (r: Ordering) {
        self.t.cmp(&other.t)
    }

    proof fn lemma_cmp_full_antisymmetric(a: &Self, b: &Self) {
    }

    proof fn lemma_cmp_full_transitive(a: &Self, b: &Self, c: &Self) {
    }
}

impl CamiPartialEq for CfWrap<i8> {
    open spec fn spec_locality() -> Locality {
        Locality::PureNonLocal
    }

    open spec fn spec_eq_local(&self, other: &Self) -> bool {
        true
    }

    open spec fn spec_eq_non_local(&self, other: &Self) -> bool {
        self.spec_inner() == other.spec_inner()
    }

    fn locality() -> (r: Locality) {
        Locality::PureNonLocal
    }

    fn eq_local(&self, other: &Self) -> (r: bool) {
        true
    }

    fn eq_non_local(&self, other: &Self) -> (r: bool) {
        self.t == other.t
    }
}

impl CamiPartialOrd for CfWrap<i8> {
    open spec fn spec_partial_cmp_local(&self, other: &Self) -> Option<Ordering> {
        Some(Ordering::Equal)
    }

    open spec fn spec_partial_cmp_non_local(&self, other: &Self) -> Option<Ordering> {
        Some(int_cmp(self.spec_inner() as int, other.spec_inner() as int))
    }

    fn partial_cmp_local(&self, other: &Self) -> (r: Option<Ordering>) {
        Some(Ordering::Equal)
    }

    fn partial_cmp_non_local(&self, other: &Self) -> (r: Option<Ordering>) {
        Some(self.t.cmp(&other.t))
    }
}

impl CamiOrd for CfWrap<i8> {
    open spec fn spec_cmp_local(&self, other: &Self) -> Ordering {
        Ordering::Equal
    }

    open spec fn spec_cmp_non_local(&self, other: &Self) -> Ordering {
        int_cmp(self.spec_inner() as int, other.spec_inner() as int)
    }

    fn cmp_local(&self, other: &Self) -> (r: Ordering) {
        Ordering::Equal
    }

    fn cmp_non_local(&self, other: &Self) -> (r: Ordering) {
        self.t.cmp(&other.t)
    }

    proof fn lemma_cmp_full_antisymmetric(a: &Self, b: &Self) {
    }

    proof fn lemma_cmp_full_transitive(a: &Self, b: &Self, c: &Self) {
    }
}

impl CamiPartialEq for CfWrap<i16> {
    open spec fn spec_locality() -> Locality {
        Locality::PureNonLocal
    }

    open spec fn spec_eq_local(&self, other: &Self) -> bool {
        true
    }

    open spec fn spec_eq_non_local(&self, other: &Self) -> bool {
        self.spec_inner() == other.spec_inner()
    }

    fn locality() -> (r: Locality) {
        Locality::PureNonLocal
    }

    fn eq_local(&self, other: &Self) -> (r: bool) {
        true
    }

    fn eq_non_local(&self, other: &Self) -> (r: bool) {
        self.t == other.t
    }
}

impl CamiPartialOrd for CfWrap<i16> {
    open spec fn spec_partial_cmp_local(&self, other: &Self) -> Option<Ordering> {
        Some(Ordering::Equal)
    }

    open spec fn spec_partial_cmp_non_local(&self, other: &Self) -> Option<Ordering> {
        Some(int_cmp(self.spec_inner() as int, other.spec_inner() as int))
    }

    fn partial_cmp_local(&self, other: &Self) -> (r: Option<Ordering>) {
        Some(Ordering::Equal)
    }

    fn partial_cmp_non_local(&self, other: &Self) -> (r: Option<Ordering>) {
        Some(self.t.cmp(&other.t))
    }
}

impl CamiOrd for CfWrap<i16> {
    open spec fn spec_cmp_local(&self, other: &Self) -> Ordering {
        Ordering::Equal
    }

    open spec fn spec_cmp_non_local(&self, other: &Self) -> Ordering {
        int_cmp(self.spec_inner() as int, other.spec_inner() as int)
    }

    fn cmp_local(&self, other: &Self) -> (r: Ordering) {
        Ordering::Equal
    }

    fn cmp_non_local(&self, other: &Self) -> (r: Ordering) {
        self.t.cmp(&other.t)
    }

    proof fn lemma_cmp_full_antisymmetric(a: &Self, b: &Self) {
    }

    proof fn lemma_cmp_full_transitive(a: &Self, b: &Self, c: &Self) {
    }
}

impl CamiPartialEq for CfWrap<i32> {
    open spec fn spec_locality() -> Locality {
        Locality::PureNonLocal
    }

    open spec fn spec_eq_local(&self, other: &Self) -> bool {
        true
    }

    open spec fn spec_eq_non_local(&self, other: &Self) -> bool {
        self.spec_inner() == other.spec_inner()
    }

    fn locality() -> (r: Locality) {
        Locality::PureNonLocal
    }

    fn eq_local(&self, other: &Self) -> (r: bool) {
        true
    }

    fn eq_non_local(&self, other: &Self) -> (r: bool) {
        self.t == other.t
    }
}

impl CamiPartialOrd for CfWrap<i32> {
    open spec fn spec_partial_cmp_local(&self, other: &Self) -> Option<Ordering> {
        Some(Ordering::Equal)
    }

    open spec fn spec_partial_cmp_non_local(&self, other: &Self) -> Option<Ordering> {
        Some(int_cmp(self.spec_inner() as int, other.spec_inner() as int))
    }

    fn partial_cmp_local(&self, other: &Self) -> (r: Option<Ordering>) {
        Some(Ordering::Equal)
    }

    fn partial_cmp_non_local(&self, other: &Self) -> (r: Option<Ordering>) {
        Some(self.t.cmp(&other.t))
    }
}

impl CamiOrd for CfWrap<i32> {
    open spec fn spec_cmp_local(&self, other: &Self) -> Ordering {
        Ordering::Equal
    }

    open spec fn spec_cmp_non_local(&self, other: &Self) -> Ordering {
        int_cmp(self.spec_inner() as int, other.spec_inner() as int)
    }

    fn cmp_local(&self, other: &Self) -> (r: Ordering) {
        Ordering::Equal
    }

    fn cmp_non_local(&self, other: &Self) -> (r: Ordering) {
        self.t.cmp(&other.t)
    }

    proof fn lemma_cmp_full_antisymmetric(a: &Self, b: &Self) {
    }

    proof fn lemma_cmp_full_transitive(a: &Self, b: &Self, c: &Self) {
    }
}

impl CamiPartialEq for CfWrap<i64> {
    open spec fn spec_locality() -> Locality {
        Locality::PureNonLocal
    }

    open spec fn spec_eq_local(&self, other: &Self) -> bool {
        true
    }

    open spec fn spec_eq_non_local(&self, other: &Self) -> bool {
        self.spec_inner() == other.spec_inner()
    }

    fn locality() -> (r: Locality) {
        Locality::PureNonLocal
    }

    fn eq_local(&self, other: &Self) -> (r: bool) {
        true
    }

    fn eq_non_local(&self, other: &Self) -> (r: bool) {
        self.t == other.t
    }
}

impl CamiPartialOrd for CfWrap<i64> {
    open spec fn spec_partial_cmp_local(&self, other: &Self) -> Option<Ordering> {
        Some(Ordering::Equal)
    }

    open spec fn spec_partial_cmp_non_local(&self, other: &Self) -> Option<Ordering> {
        Some(int_cmp(self.spec_inner() as int, other.spec_inner() as int))
    }

    fn partial_cmp_local(&self, other: &Self) -> (r: Option<Ordering>) {
        Some(Ordering::Equal)
    }

    fn partial_cmp_non_local(&self, other: &Self) -> (r: Option<Ordering>) {
        Some(self.t.cmp(&other.t))
    }
}

impl CamiOrd for CfWrap<i64> {
    open spec fn spec_cmp_local(&self, other: &Self) -> Ordering {
        Ordering::Equal
    }

    open spec fn spec_cmp_non_local(&self, other: &Self) -> Ordering {
        int_cmp(self.spec_inner() as int, other.spec_inner() as int)
    }

    fn cmp_local(&self, other: &Self) -> (r: Ordering) {
        Ordering::Equal
    }

    fn cmp_non_local(&self, other: &Self) -> (r: Ordering) {
        self.t.cmp(&other.t)
    }

    proof fn lemma_cmp_full_antisymmetric(a: &Self, b: &Self) {
    }

    proof fn lemma_cmp_full_transitive(a: &Self, b: &Self, c: &Self) {
    }
}

impl CamiPartialEq for CfWrap<i128> {
    open spec fn spec_locality() -> Locality {
        Locality::PureNonLocal
    }

    open spec fn spec_eq_local(&self, other: &Self) -> bool {
        true
    }

    open spec fn spec_eq_non_local(&self, other: &Self) -> bool {
        self.spec_inner() == other.spec_inner()
    }

    fn locality() -> (r: Locality) {
        Locality::PureNonLocal
    }

    fn eq_local(&self, other: &Self) -> (r: bool) {
        true
    }

    fn eq_non_local(&self, other: &Self) -> (r: bool) {
        self.t == other.t
    }
}

impl CamiPartialOrd for CfWrap<i128> {
    open spec fn spec_partial_cmp_local(&self, other: &Self) -> Option<Ordering> {
        Some(Ordering::Equal)
    }

    open spec fn spec_partial_cmp_non_local(&self, other: &Self) -> Option<Ordering> {
        Some(int_cmp(self.spec_inner() as int, other.spec_inner() as int))
    }

    fn partial_cmp_local(&self, other: &Self) -> (r: Option<Ordering>) {
        Some(Ordering::Equal)
    }

    fn partial_cmp_non_local(&self, other: &Self) -> (r: Option<Ordering>) {
        Some(self.t.cmp(&other.t))
    }
}

impl CamiOrd for CfWrap<i128> {
    open spec fn spec_cmp_local(&self, other: &Self) -> Ordering {
        Ordering::Equal
    }

    open spec fn spec_cmp_non_local(&self, other: &Self) -> Ordering {
        int_cmp(self.spec_inner() as int, other.spec_inner() as int)
    }

    fn cmp_local(&self, other: &Self) -> (r: Ordering) {
        Ordering::Equal
    }

    fn cmp_non_local(&self, other: &Self) -> (r: Ordering) {
        self.t.cmp(&other.t)
    }

    proof fn lemma_cmp_full_antisymmetric(a: &Self, b: &Self) {
    }

    proof fn lemma_cmp_full_transitive(a: &Self, b: &Self, c: &Self) {
    }
}

impl CamiPartialEq for CfWrap<isize> {
    open spec fn spec_locality() -> Locality {
        Locality::PureNonLocal
    }

    open spec fn spec_eq_local(&self, other: &Self) -> bool {
        true
    }

    open spec fn spec_eq_non_local(&self, other: &Self) -> bool {
        self.spec_inner() == other.spec_inner()
    }

    fn locality() -> (r: Locality) {
        Locality::PureNonLocal
    }

    fn eq_local(&self, other: &Self) -> (r: bool) {
        true
    }

    fn eq_non_local(&self, other: &Self) -> (r: bool) {
        self.t == other.t
    }
}

impl CamiPartialOrd for CfWrap<isize> {
    open spec fn spec_partial_cmp_local(&self, other: &Self) -> Option<Ordering> {
        Some(Ordering::Equal)
    }

    open spec fn spec_partial_cmp_non_local(&self, other: &Self) -> Option<Ordering> {
        Some(int_cmp(self.spec_inner() as int, other.spec_inner() as int))
    }

    fn partial_cmp_local(&self, other: &Self) -> (r: Option<Ordering>) {
        Some(Ordering::Equal)
    }

    fn partial_cmp_non_local(&self, other: &Self) -> (r: Option<Ordering>) {
        Some(self.t.cmp(&other.t))
    }
}

impl CamiOrd for CfWrap<isize> {
    open spec fn spec_cmp_local(&self, other: &Self) -> Ordering {
        Ordering::Equal
    }

    open spec fn spec_cmp_non_local(&self, other: &Self) -> Ordering {
        int_cmp(self.spec_inner() as int, other.spec_inner() as int)
    }

    fn cmp_local(&self, other: &Self) -> (r: Ordering) {
        Ordering::Equal
    }

    fn cmp_non_local(&self, other: &Self) -> (r: Ordering) {
        self.t.cmp(&other.t)
    }

    proof fn lemma_cmp_full_antisymmetric(a: &Self, b: &Self) {
    }

    proof fn lemma_cmp_full_transitive(a: &Self, b: &Self, c: &Self) {
    }
}

} // verus!
