use crate::locality::{reversed, Locality};
use crate::traits::{CamiOrd, CamiPartialEq, CamiPartialOrd};
use core::cmp::Ordering;
use vstd::prelude::*;

verus! {

/// Order of two lengths.
pub open spec fn len_cmp(a: nat, b: nat) -> Ordering {
    if a < b {
        Ordering::Less
    } else if a > b {
        Ordering::Greater
    } else {
        Ordering::Equal
    }
}

/// Order of two bytes by value.
pub open spec fn u8_cmp(a: u8, b: u8) -> Ordering {
    if a < b {
        Ordering::Less
    } else if a > b {
        Ordering::Greater
    } else {
        Ordering::Equal
    }
}

/// Lexicographic order of sequences under the element order `c`: the first element pair that
/// `c` does not call `Equal` decides, and a proper prefix comes first.
pub open spec fn lex_by<T>(a: Seq<T>, b: Seq<T>, c: spec_fn(T, T) -> Ordering) -> Ordering
    decreases a.len(),
{
    if a.len() == 0 {
        if b.len() == 0 {
            Ordering::Equal
        } else {
            Ordering::Less
        }
    } else if b.len() == 0 {
        Ordering::Greater
    } else if c(a[0], b[0]) != Ordering::Equal {
        c(a[0], b[0])
    } else {
        lex_by(a.drop_first(), b.drop_first(), c)
    }
}

/// `c` is a total order on `T` whose `Equal` is equality.
pub open spec fn is_total_order<T>(c: spec_fn(T, T) -> Ordering) -> bool {
    &&& forall|x: T, y: T| #[trigger] c(x, y) == reversed(c(y, x))
    &&& forall|x: T, y: T| #[trigger] c(x, y) == Ordering::Equal ==> x == y
    &&& forall|x: T, y: T, z: T|
        #![trigger c(x, y), c(y, z)]
        c(x, y) != Ordering::Greater && c(y, z) != Ordering::Greater ==> c(x, z)
            != Ordering::Greater && (c(x, y) == Ordering::Less || c(y, z) == Ordering::Less
            ==> c(x, z) == Ordering::Less)
}

/// The plain order of bytes, by value.
pub open spec fn byte_order() -> spec_fn(u8, u8) -> Ordering {
    |x: u8, y: u8| u8_cmp(x, y)
}

/// The plain order of byte sequences: lexicographic by byte value.
pub open spec fn bytes_cmp(a: Seq<u8>, b: Seq<u8>) -> Ordering {
    lex_by(a, b, byte_order())
}

/// [`bytes_cmp`] as an element order.
pub open spec fn bytes_order() -> spec_fn(Seq<u8>, Seq<u8>) -> Ordering {
    |x: Seq<u8>, y: Seq<u8>| bytes_cmp(x, y)
}

/// The contents of each slice of a sequence of byte slices.
pub open spec fn contents(s: Seq<&[u8]>) -> Seq<Seq<u8>> {
    s.map_values(|x: &[u8]| x@)
}

/// Order by length first, and by `c` lexicographically between equal lengths.
pub open spec fn shortlex_by<T>(a: Seq<T>, b: Seq<T>, c: spec_fn(T, T) -> Ordering) -> Ordering {
    if a.len() != b.len() {
        len_cmp(a.len(), b.len())
    } else {
        lex_by(a, b, c)
    }
}

/// Under a total order on elements, the lexicographic order is a total order too.
pub proof fn lemma_lex_by_total<T>(c: spec_fn(T, T) -> Ordering)
    requires
        is_total_order(c),
    ensures
        is_total_order(|x: Seq<T>, y: Seq<T>| lex_by(x, y, c)),
{
    let l = |x: Seq<T>, y: Seq<T>| lex_by(x, y, c);
    assert forall|x: Seq<T>, y: Seq<T>| #[trigger] l(x, y) == reversed(l(y, x)) by {
        lemma_lex_by_antisymmetric(x, y, c);
    }
    assert forall|x: Seq<T>, y: Seq<T>| #[trigger] l(x, y) == Ordering::Equal implies x == y by {
        lemma_lex_by_equal(x, y, c);
    }
    assert forall|x: Seq<T>, y: Seq<T>, z: Seq<T>|
        #![trigger l(x, y), l(y, z)]
        l(x, y) != Ordering::Greater && l(y, z) != Ordering::Greater implies l(x, z)
            != Ordering::Greater && (l(x, y) == Ordering::Less || l(y, z) == Ordering::Less
            ==> l(x, z) == Ordering::Less) by {
        lemma_lex_by_transitive(x, y, z, c);
    }
}

pub proof fn lemma_lex_by_antisymmetric<T>(a: Seq<T>, b: Seq<T>, c: spec_fn(T, T) -> Ordering)
    requires
        is_total_order(c),
    ensures
        lex_by(a, b, c) == reversed(lex_by(b, a, c)),
    decreases a.len(),
{
    if a.len() > 0 && b.len() > 0 {
        assert(c(a[0], b[0]) == reversed(c(b[0], a[0])));
        lemma_lex_by_antisymmetric(a.drop_first(), b.drop_first(), c);
    }
}

pub proof fn lemma_lex_by_equal<T>(a: Seq<T>, b: Seq<T>, c: spec_fn(T, T) -> Ordering)
    requires
        is_total_order(c),
        lex_by(a, b, c) == Ordering::Equal,
    ensures
        a == b,
    decreases a.len(),
{
    if a.len() > 0 && b.len() > 0 {
        assert(c(a[0], b[0]) == Ordering::Equal);
        lemma_lex_by_equal(a.drop_first(), b.drop_first(), c);
        assert(a =~= seq![a[0]] + a.drop_first());
        assert(b =~= seq![b[0]] + b.drop_first());
    }
}

pub proof fn lemma_lex_by_transitive<T>(
    a: Seq<T>,
    b: Seq<T>,
    d: Seq<T>,
    c: spec_fn(T, T) -> Ordering,
)
    requires
        is_total_order(c),
        lex_by(a, b, c) != Ordering::Greater,
        lex_by(b, d, c) != Ordering::Greater,
    ensures
        lex_by(a, d, c) != Ordering::Greater,
        lex_by(a, b, c) == Ordering::Less || lex_by(b, d, c) == Ordering::Less ==> lex_by(a, d, c)
            == Ordering::Less,
    decreases a.len(),
{
    if a.len() > 0 && b.len() > 0 && d.len() > 0 {
        let (x, y, z) = (a[0], b[0], d[0]);
        assert(c(x, y) == reversed(c(y, x)));
        assert(c(y, z) == reversed(c(z, y)));
        assert(c(x, z) == reversed(c(z, x)));
        if c(x, y) != Ordering::Greater && c(y, z) != Ordering::Greater {
            assert(c(x, z) != Ordering::Greater);
        }
        if c(x, y) == Ordering::Equal && c(y, z) == Ordering::Equal {
            assert(x == y && y == z);
            lemma_lex_by_transitive(a.drop_first(), b.drop_first(), d.drop_first(), c);
        }
    }
}

pub proof fn lemma_shortlex_by_antisymmetric<T>(a: Seq<T>, b: Seq<T>, c: spec_fn(T, T) -> Ordering)
    requires
        is_total_order(c),
    ensures
        shortlex_by(b, a, c) == reversed(shortlex_by(a, b, c)),
{
    lemma_lex_by_antisymmetric(b, a, c);
}

pub proof fn lemma_shortlex_by_transitive<T>(
    a: Seq<T>,
    b: Seq<T>,
    d: Seq<T>,
    c: spec_fn(T, T) -> Ordering,
)
    requires
        is_total_order(c),
        shortlex_by(a, b, c) != Ordering::Greater,
        shortlex_by(b, d, c) != Ordering::Greater,
    ensures
        shortlex_by(a, d, c) != Ordering::Greater,
        shortlex_by(a, b, c) == Ordering::Less || shortlex_by(b, d, c) == Ordering::Less
            ==> shortlex_by(a, d, c) == Ordering::Less,
{
    if a.len() == b.len() && b.len() == d.len() {
        lemma_lex_by_transitive(a, b, d, c);
    }
}

/// The plain byte order is a total order, and so is the plain order of byte sequences.
pub proof fn lemma_byte_orders_total()
    ensures
        is_total_order(byte_order()),
        is_total_order(bytes_order()),
{
    lemma_lex_by_total(byte_order());
    assert(bytes_order() == (|x: Seq<u8>, y: Seq<u8>| lex_by(x, y, byte_order())));
}

/// Compares two lengths.
pub fn compare_len(a: usize, b: usize) -> (r: Ordering)
    ensures
        r == len_cmp(a as nat, b as nat),
{
    if a < b {
        Ordering::Less
    } else if a > b {
        Ordering::Greater
    } else {
        Ordering::Equal
    }
}

/// Compares two bytes by value.
pub fn compare_u8(a: u8, b: u8) -> (r: Ordering)
    ensures
        r == u8_cmp(a, b),
{
    if a < b {
        Ordering::Less
    } else if a > b {
        Ordering::Greater
    } else {
        Ordering::Equal
    }
}

/// Compares two byte slices lexicographically by byte value.
pub fn compare_bytes(a: &[u8], b: &[u8]) -> (r: Ordering)
    ensures
        r == bytes_cmp(a@, b@),
{
    let mut i: usize = 0;
    assert(a@.skip(0) =~= a@);
    assert(b@.skip(0) =~= b@);
    while i < a.len() && i < b.len()
        invariant
            i <= a@.len(),
            i <= b@.len(),
            bytes_cmp(a@, b@) == bytes_cmp(a@.skip(i as int), b@.skip(i as int)),
        decreases a@.len() - i,
    {
        let c = compare_u8(a[i], b[i]);
        match c {
            Ordering::Equal => {},
            _ => {
                return c;
            },
        }
        assert(a@.skip(i as int).drop_first() =~= a@.skip(i + 1));
        assert(b@.skip(i as int).drop_first() =~= b@.skip(i + 1));
        i = i + 1;
    }
    compare_len(a.len(), b.len())
}

/// Compares two slices of byte slices lexicographically, each pair of elements by
/// [`compare_bytes`].
pub fn compare_byte_slices(a: &[&[u8]], b: &[&[u8]]) -> (r: Ordering)
    ensures
        r == lex_by(contents(a@), contents(b@), bytes_order()),
{
    let ghost ca = contents(a@);
    let ghost cb = contents(b@);
    let mut i: usize = 0;
    assert(ca.skip(0) =~= ca);
    assert(cb.skip(0) =~= cb);
    while i < a.len() && i < b.len()
        invariant
            ca == contents(a@),
            cb == contents(b@),
            i <= a@.len(),
            i <= b@.len(),
            lex_by(ca, cb, bytes_order()) == lex_by(
                ca.skip(i as int),
                cb.skip(i as int),
                bytes_order(),
            ),
        decreases a@.len() - i,
    {
        let c = compare_bytes(a[i], b[i]);
        match c {
            Ordering::Equal => {},
            _ => {
                return c;
            },
        }
        assert(ca.skip(i as int).drop_first() =~= ca.skip(i + 1));
        assert(cb.skip(i as int).drop_first() =~= cb.skip(i + 1));
        i = i + 1;
    }
    compare_len(a.len(), b.len())
}

/// A byte slice is compared by its length, stored beside the pointer, and then by its bytes,
/// which are reached through the pointer.
impl<'a> CamiPartialEq for &'a [u8] {
    open spec fn spec_locality() -> Locality {
        Locality::Both
    }

    open spec fn spec_eq_local(&self, other: &Self) -> bool {
        self@.len() == other@.len()
    }

    open spec fn spec_eq_non_local(&self, other: &Self) -> bool {
        self@ == other@
    }

    fn locality() -> (r: Locality) {
        Locality::Both
    }

    fn eq_local(&self, other: &Self) -> (r: bool) {
        self.len() == other.len()
    }

    fn eq_non_local(&self, other: &Self) -> (r: bool) {
        proof {
            lemma_byte_orders_total();
            lemma_lex_by_antisymmetric(self@, self@, byte_order());
        }
        let r = matches!(compare_bytes(self, other), Ordering::Equal);
        proof {
            if r {
                lemma_lex_by_equal(self@, other@, byte_order());
            }
        }
        r
    }
}

impl<'a> CamiPartialOrd for &'a [u8] {
    open spec fn spec_partial_cmp_local(&self, other: &Self) -> Option<Ordering> {
        Some(len_cmp(self@.len(), other@.len()))
    }

    open spec fn spec_partial_cmp_non_local(&self, other: &Self) -> Option<Ordering> {
        Some(bytes_cmp(self@, other@))
    }

    fn partial_cmp_local(&self, other: &Self) -> (r: Option<Ordering>) {
        Some(compare_len(self.len(), other.len()))
    }

    fn partial_cmp_non_local(&self, other: &Self) -> (r: Option<Ordering>) {
        Some(compare_bytes(self, other))
    }
}

impl<'a> CamiOrd for &'a [u8] {
    open spec fn spec_cmp_local(&self, other: &Self) -> Ordering {
        len_cmp(self@.len(), other@.len())
    }

    open spec fn spec_cmp_non_local(&self, other: &Self) -> Ordering {
        bytes_cmp(self@, other@)
    }

    fn cmp_local(&self, other: &Self) -> (r: Ordering) {
        compare_len(self.len(), other.len())
    }

    fn cmp_non_local(&self, other: &Self) -> (r: Ordering) {
        compare_bytes(self, other)
    }

    proof fn lemma_cmp_full_antisymmetric(a: &Self, b: &Self) {
        lemma_byte_orders_total();
        lemma_shortlex_by_antisymmetric(a@, b@, byte_order());
    }

    proof fn lemma_cmp_full_transitive(a: &Self, b: &Self, c: &Self) {
        lemma_byte_orders_total();
        lemma_shortlex_by_transitive(a@, b@, c@, byte_order());
    }
}

/// A slice of byte slices is compared by its length, stored beside the pointer, and then by
/// its elements, which are reached through the pointer; elements are compared by their plain
/// lexicographic order, not by length first.
impl<'a, 'b> CamiPartialEq for &'a [&'b [u8]] {
    open spec fn spec_locality() -> Locality {
        Locality::Both
    }

    open spec fn spec_eq_local(&self, other: &Self) -> bool {
        self@.len() == other@.len()
    }

    open spec fn spec_eq_non_local(&self, other: &Self) -> bool {
        contents(self@) == contents(other@)
    }

    fn locality() -> (r: Locality) {
        Locality::Both
    }

    fn eq_local(&self, other: &Self) -> (r: bool) {
        self.len() == other.len()
    }

    fn eq_non_local(&self, other: &Self) -> (r: bool) {
        proof {
            lemma_byte_orders_total();
            lemma_lex_by_antisymmetric(contents(self@), contents(self@), bytes_order());
        }
        let r = matches!(compare_byte_slices(self, other), Ordering::Equal);
        proof {
            if r {
                lemma_lex_by_equal(contents(self@), contents(other@), bytes_order());
            }
        }
        r
    }
}

impl<'a, 'b> CamiPartialOrd for &'a [&'b [u8]] {
    open spec fn spec_partial_cmp_local(&self, other: &Self) -> Option<Ordering> {
        Some(len_cmp(self@.len(), other@.len()))
    }

    open spec fn spec_partial_cmp_non_local(&self, other: &Self) -> Option<Ordering> {
        Some(lex_by(contents(self@), contents(other@), bytes_order()))
    }

    fn partial_cmp_local(&self, other: &Self) -> (r: Option<Ordering>) {
        Some(compare_len(self.len(), other.len()))
    }

    fn partial_cmp_non_local(&self, other: &Self) -> (r: Option<Ordering>) {
        Some(compare_byte_slices(self, other))
    }
}

impl<'a, 'b> CamiOrd for &'a [&'b [u8]] {
    open spec fn spec_cmp_local(&self, other: &Self) -> Ordering {
        len_cmp(self@.len(), other@.len())
    }

    open spec fn spec_cmp_non_local(&self, other: &Self) -> Ordering {
        lex_by(contents(self@), contents(other@), bytes_order())
    }

    fn cmp_local(&self, other: &Self) -> (r: Ordering) {
        compare_len(self.len(), other.len())
    }

    fn cmp_non_local(&self, other: &Self) -> (r: Ordering) {
        compare_byte_slices(self, other)
    }

    proof fn lemma_cmp_full_antisymmetric(a: &Self, b: &Self) {
        lemma_byte_orders_total();
        lemma_shortlex_by_antisymmetric(contents(a@), contents(b@), bytes_order());
    }

    proof fn lemma_cmp_full_transitive(a: &Self, b: &Self, c: &Self) {
        lemma_byte_orders_total();
        lemma_shortlex_by_transitive(contents(a@), contents(b@), contents(c@), bytes_order());
    }
}

} // verus!
