use crate::locality::Locality;
use crate::slices::{
    byte_order, bytes_cmp, compare_bytes, compare_u8, compare_len, len_cmp, lemma_byte_orders_total,
    lemma_lex_by_antisymmetric, lemma_lex_by_equal, lemma_shortlex_by_antisymmetric,
    lemma_shortlex_by_transitive, u8_cmp,
};
use crate::traits::{CamiOrd, CamiPartialEq, CamiPartialOrd};
use core::cmp::Ordering;
use vstd::prelude::*;
use vstd::string::StringSliceAdditionalSpecFns;

verus! {

/// A byte is compared by its value alone, which is local data.
impl CamiPartialEq for u8 {
    open spec fn spec_locality() -> Locality {
        Locality::PureLocal
    }

    open spec fn spec_eq_local(&self, other: &Self) -> bool {
        *self == *other
    }

    open spec fn spec_eq_non_local(&self, other: &Self) -> bool {
        true
    }

    fn locality() -> (r: Locality) {
        Locality::PureLocal
    }

    fn eq_local(&self, other: &Self) -> (r: bool) {
        *self == *other
    }

    fn eq_non_local(&self, other: &Self) -> (r: bool) {
        true
    }
}

impl CamiPartialOrd for u8 {
    open spec fn spec_partial_cmp_local(&self, other: &Self) -> Option<Ordering> {
        Some(u8_cmp(*self, *other))
    }

    open spec fn spec_partial_cmp_non_local(&self, other: &Self) -> Option<Ordering> {
        Some(Ordering::Equal)
    }

    fn partial_cmp_local(&self, other: &Self) -> (r: Option<Ordering>) {
        Some(compare_u8(*self, *other))
    }

    fn partial_cmp_non_local(&self, other: &Self) -> (r: Option<Ordering>) {
        Some(Ordering::Equal)
    }
}

impl CamiOrd for u8 {
    open spec fn spec_cmp_local(&self, other: &Self) -> Ordering {
        u8_cmp(*self, *other)
    }

    open spec fn spec_cmp_non_local(&self, other: &Self) -> Ordering {
        Ordering::Equal
    }

    fn cmp_local(&self, other: &Self) -> (r: Ordering) {
        compare_u8(*self, *other)
    }

    fn cmp_non_local(&self, other: &Self) -> (r: Ordering) {
        Ordering::Equal
    }

    proof fn lemma_cmp_full_antisymmetric(a: &Self, b: &Self) {
    }

    proof fn lemma_cmp_full_transitive(a: &Self, b: &Self, c: &Self) {
    }
}

/// Order of two booleans: `false` before `true`.
pub open spec fn bool_cmp(a: bool, b: bool) -> Ordering {
    if a == b {
        Ordering::Equal
    } else if b {
        Ordering::Less
    } else {
        Ordering::Greater
    }
}

/// Compares two booleans, `false` first.
pub fn compare_bool(a: bool, b: bool) -> (r: Ordering)
    ensures
        r == bool_cmp(a, b),
{
    if a == b {
        Ordering::Equal
    } else if b {
        Ordering::Less
    } else {
        Ordering::Greater
    }
}

/// A boolean is compared by its value alone, which is local data.
impl CamiPartialEq for bool {
    open spec fn spec_locality() -> Locality {
        Locality::PureLocal
    }

    open spec fn spec_eq_local(&self, other: &Self) -> bool {
        *self == *other
    }

    open spec fn spec_eq_non_local(&self, other: &Self) -> bool {
        true
    }

    fn locality() -> (r: Locality) {
        Locality::PureLocal
    }

    fn eq_local(&self, other: &Self) -> (r: bool) {
        *self == *other
    }

    fn eq_non_local(&self, other: &Self) -> (r: bool) {
        true
    }
}

impl CamiPartialOrd for bool {
    open spec fn spec_partial_cmp_local(&self, other: &Self) -> Option<Ordering> {
        Some(bool_cmp(*self, *other))
    }

    open spec fn spec_partial_cmp_non_local(&self, other: &Self) -> Option<Ordering> {
        Some(Ordering::Equal)
    }

    fn partial_cmp_local(&self, other: &Self) -> (r: Option<Ordering>) {
        Some(compare_bool(*self, *other))
    }

    fn partial_cmp_non_local(&self, other: &Self) -> (r: Option<Ordering>) {
        Some(Ordering::Equal)
    }
}

impl CamiOrd for bool {
    open spec fn spec_cmp_local(&self, other: &Self) -> Ordering {
        bool_cmp(*self, *other)
    }

    open spec fn spec_cmp_non_local(&self, other: &Self) -> Ordering {
        Ordering::Equal
    }

    fn cmp_local(&self, other: &Self) -> (r: Ordering) {
        compare_bool(*self, *other)
    }

    fn cmp_non_local(&self, other: &Self) -> (r: Ordering) {
        Ordering::Equal
    }

    proof fn lemma_cmp_full_antisymmetric(a: &Self, b: &Self) {
    }

    proof fn lemma_cmp_full_transitive(a: &Self, b: &Self, c: &Self) {
    }
}

/// The unit value equals itself in every phase.
impl CamiPartialEq for () {
    open spec fn spec_locality() -> Locality {
        Locality::PureLocal
    }

    open spec fn spec_eq_local(&self, other: &Self) -> bool {
        true
    }

    open spec fn spec_eq_non_local(&self, other: &Self) -> bool {
        true
    }

    fn locality() -> (r: Locality) {
        Locality::PureLocal
    }

    fn eq_local(&self, other: &Self) -> (r: bool) {
        true
    }

    fn eq_non_local(&self, other: &Self) -> (r: bool) {
        true
    }
}

impl CamiPartialOrd for () {
    open spec fn spec_partial_cmp_local(&self, other: &Self) -> Option<Ordering> {
        Some(Ordering::Equal)
    }

    open spec fn spec_partial_cmp_non_local(&self, other: &Self) -> Option<Ordering> {
        Some(Ordering::Equal)
    }

    fn partial_cmp_local(&self, other: &Self) -> (r: Option<Ordering>) {
        Some(Ordering::Equal)
    }

    fn partial_cmp_non_local(&self, other: &Self) -> (r: Option<Ordering>) {
        Some(Ordering::Equal)
    }
}

impl CamiOrd for () {
    open spec fn spec_cmp_local(&self, other: &Self) -> Ordering {
        Ordering::Equal
    }

    open spec fn spec_cmp_non_local(&self, other: &Self) -> Ordering {
        Ordering::Equal
    }

    fn cmp_local(&self, other: &Self) -> (r: Ordering) {
        Ordering::Equal
    }

    fn cmp_non_local(&self, other: &Self) -> (r: Ordering) {
        Ordering::Equal
    }

    proof fn lemma_cmp_full_antisymmetric(a: &Self, b: &Self) {
    }

    proof fn lemma_cmp_full_transitive(a: &Self, b: &Self, c: &Self) {
    }
}

/// A string is compared by its length in bytes, stored beside the pointer, and then by its
/// bytes, which are reached through the pointer.
impl<'a> CamiPartialEq for &'a str {
    open spec fn spec_locality() -> Locality {
        Locality::Both
    }

    open spec fn spec_eq_local(&self, other: &Self) -> bool {
        self.spec_bytes().len() == other.spec_bytes().len()
    }

    open spec fn spec_eq_non_local(&self, other: &Self) -> bool {
        self.spec_bytes() == other.spec_bytes()
    }

    fn locality() -> (r: Locality) {
        Locality::Both
    }

    fn eq_local(&self, other: &Self) -> (r: bool) {
        self.as_bytes().len() == other.as_bytes().len()
    }

    fn eq_non_local(&self, other: &Self) -> (r: bool) {
        proof {
            lemma_byte_orders_total();
            lemma_lex_by_antisymmetric(self.spec_bytes(), self.spec_bytes(), byte_order());
        }
        let r = matches!(compare_bytes(self.as_bytes(), other.as_bytes()), Ordering::Equal);
        proof {
            if r {
                lemma_lex_by_equal(self.spec_bytes(), other.spec_bytes(), byte_order());
            }
        }
        r
    }
}

impl<'a> CamiPartialOrd for &'a str {
    open spec fn spec_partial_cmp_local(&self, other: &Self) -> Option<Ordering> {
        Some(len_cmp(self.spec_bytes().len(), other.spec_bytes().len()))
    }

    open spec fn spec_partial_cmp_non_local(&self, other: &Self) -> Option<Ordering> {
        Some(bytes_cmp(self.spec_bytes(), other.spec_bytes()))
    }

    fn partial_cmp_local(&self, other: &Self) -> (r: Option<Ordering>) {
        Some(compare_len(self.as_bytes().len(), other.as_bytes().len()))
    }

    fn partial_cmp_non_local(&self, other: &Self) -> (r: Option<Ordering>) {
        Some(compare_bytes(self.as_bytes(), other.as_bytes()))
    }
}

impl<'a> CamiOrd for &'a str {
    open spec fn spec_cmp_local(&self, other: &Self) -> Ordering {
        len_cmp(self.spec_bytes().len(), other.spec_bytes().len())
    }

    open spec fn spec_cmp_non_local(&self, other: &Self) -> Ordering {
        bytes_cmp(self.spec_bytes(), other.spec_bytes())
    }

    fn cmp_local(&self, other: &Self) -> (r: Ordering) {
        compare_len(self.as_bytes().len(), other.as_bytes().len())
    }

    fn cmp_non_local(&self, other: &Self) -> (r: Ordering) {
        compare_bytes(self.as_bytes(), other.as_bytes())
    }

    proof fn lemma_cmp_full_antisymmetric(a: &Self, b: &Self) {
        lemma_byte_orders_total();
        lemma_shortlex_by_antisymmetric(a.spec_bytes(), b.spec_bytes(), byte_order());
    }

    proof fn lemma_cmp_full_transitive(a: &Self, b: &Self, c: &Self) {
        lemma_byte_orders_total();
        lemma_shortlex_by_transitive(a.spec_bytes(), b.spec_bytes(), c.spec_bytes(), byte_order());
    }
}

} // verus!
