use crate::locality::Locality;
use crate::traits::{cmp_full, compare_full, eq_full, CamiOrd};
use core::cmp::Ordering;
use vstd::prelude::*;

verus! {

/// Cache-line size, in bytes, that [`Slice::binary_search_ca`] assumes.
pub const CACHE_LINE_SIZE: usize = 128;

/// `s` is sorted by the full order: no record compares `Greater` than a later one.
pub open spec fn is_sorted<T: CamiOrd>(s: Seq<T>) -> bool {
    forall|i: int, j: int| 0 <= i < j < s.len() ==> cmp_full(&s[i], &s[j]) != Ordering::Greater
}

/// `r` is a correct outcome of searching `key` in `s`: `Ok(i)` names a record equal to `key`
/// under the full order; `Err(i)` says that none is, with every record before `i` less than
/// `key` and every record from `i` on greater.
pub open spec fn is_search_result<T: CamiOrd>(s: Seq<T>, key: &T, r: Result<usize, usize>) -> bool {
    match r {
        Ok(i) => i < s.len() && cmp_full(&s[i as int], key) == Ordering::Equal,
        Err(i) => {
            &&& i <= s.len()
            &&& forall|j: int| 0 <= j < i ==> cmp_full(#[trigger] &s[j], key) == Ordering::Less
            &&& forall|j: int| i <= j < s.len() ==> cmp_full(#[trigger] &s[j], key) == Ordering::Greater
        },
    }
}

/// In a sorted sequence, every record up to one that is less than `key` is less than `key`.
pub proof fn lemma_less_prefix<T: CamiOrd>(s: Seq<T>, key: &T, m: int)
    requires
        is_sorted(s),
        0 <= m < s.len(),
        cmp_full(&s[m], key) == Ordering::Less,
    ensures
        forall|j: int| 0 <= j <= m ==> cmp_full(#[trigger] &s[j], key) == Ordering::Less,
{
    assert forall|j: int| 0 <= j <= m implies cmp_full(#[trigger] &s[j], key) == Ordering::Less by {
        if j < m {
            assert(cmp_full(&s[j], &s[m]) != Ordering::Greater);
            T::lemma_cmp_full_transitive(&s[j], &s[m], key);
        }
    }
}

/// In a sorted sequence, every record from one that is greater than `key` on is greater than
/// `key`.
pub proof fn lemma_greater_suffix<T: CamiOrd>(s: Seq<T>, key: &T, m: int)
    requires
        is_sorted(s),
        0 <= m < s.len(),
        cmp_full(&s[m], key) == Ordering::Greater,
    ensures
        forall|j: int| m <= j < s.len() ==> cmp_full(#[trigger] &s[j], key) == Ordering::Greater,
{
    assert forall|j: int| m <= j < s.len() implies cmp_full(#[trigger] &s[j], key)
        == Ordering::Greater by {
        if m < j {
            assert(cmp_full(&s[m], &s[j]) != Ordering::Greater);
            T::lemma_cmp_full_antisymmetric(&s[m], key);
            T::lemma_cmp_full_transitive(key, &s[m], &s[j]);
            T::lemma_cmp_full_antisymmetric(key, &s[j]);
        }
    }
}

/// Classical binary search driven by the full order alone.
pub fn binary_search_full<T: CamiOrd>(s: &[T], key: &T) -> (r: Result<usize, usize>)
    requires
        is_sorted(s@),
    ensures
        is_search_result(s@, key, r),
{
    let mut left: usize = 0;
    let mut right: usize = s.len();
    while left < right
        invariant
            left <= right <= s@.len(),
            is_sorted(s@),
            forall|j: int| 0 <= j < left ==> cmp_full(#[trigger] &s@[j], key) == Ordering::Less,
            forall|j: int| right <= j < s@.len() ==> cmp_full(#[trigger] &s@[j], key)
                == Ordering::Greater,
        decreases right - left,
    {
        let mid = left + (right - left) / 2;
        match compare_full(&s[mid], key) {
            Ordering::Less => {
                proof {
                    lemma_less_prefix(s@, key, mid as int);
                }
                left = mid + 1;
            },
            Ordering::Greater => {
                proof {
                    lemma_greater_suffix(s@, key, mid as int);
                }
                right = mid;
            },
            Ordering::Equal => {
                return Ok(mid);
            },
        }
    }
    Err(left)
}

/// Binary search that, after a local comparison finds a record less than `key`, goes on
/// comparing the records that follow it on the same cache line by their local phase, before
/// it pays for a new probe. The result is that of any correct binary search by the full order.
///
/// `cache_line_size` and `entry_size` are the assumed cache-line size and the size of one
/// record, in bytes. Where the locality has no local phase, the record size is zero, or fewer
/// than three records fit in a line, this is the classical search by the full order.
pub fn binary_search_ca_with<T: CamiOrd>(
    s: &[T],
    key: &T,
    cache_line_size: usize,
    entry_size: usize,
) -> (r: Result<usize, usize>)
    requires
        is_sorted(s@),
    ensures
        is_search_result(s@, key, r),
{
    let loc = T::locality();
    if !loc.has_local() || entry_size == 0 {
        return binary_search_full(s, key);
    }
    let max_per_line = cache_line_size / entry_size;
    if max_per_line < 3 {
        return binary_search_full(s, key);
    }
    // The most records absorbed after one probe, and the widest window in which absorption is
    // tried.
    let neighbor_budget = max_per_line - 2;
    let width_threshold: usize = if max_per_line <= (usize::MAX - 2) / 3 {
        3 * max_per_line + 2
    } else {
        usize::MAX
    };
    let mut left: usize = 0;
    let mut right: usize = s.len();
    while left < right
        invariant
            left <= right <= s@.len(),
            is_sorted(s@),
            T::spec_locality().has_local(),
            T::spec_locality() == loc,
            forall|j: int| 0 <= j < left ==> cmp_full(#[trigger] &s@[j], key) == Ordering::Less,
            forall|j: int| right <= j < s@.len() ==> cmp_full(#[trigger] &s@[j], key)
                == Ordering::Greater,
        decreases right - left,
    {
        let mid = left + (right - left) / 2;
        match s[mid].cmp_local(key) {
            Ordering::Less => {
                proof {
                    lemma_less_prefix(s@, key, mid as int);
                }
                if right - mid >= width_threshold {
                    left = mid + 1;
                } else {
                    // Absorb the following records while they stay less than `key`, up to the budget
                    // and never past the window.
                    let mut next: usize = mid + 1;
                    let mut absorbed: usize = 0;
                    let mut go = true;
                    while go && absorbed < neighbor_budget && next < right
                        invariant
                            mid < next <= right <= s@.len(),
                            T::spec_locality().has_local(),
                            forall|j: int| 0 <= j < next ==> cmp_full(#[trigger] &s@[j], key)
                                == Ordering::Less,
                        decreases right - next + (if go { 1int } else { 0int }),
                    {
                        match s[next].cmp_local(key) {
                            Ordering::Less => {
                                next = next + 1;
                                absorbed = absorbed + 1;
                            },
                            _ => {
                                go = false;
                            },
                        }
                    }
                    left = next;
                }
            },
            Ordering::Greater => {
                proof {
                    lemma_greater_suffix(s@, key, mid as int);
                }
                right = mid;
            },
            Ordering::Equal => {
                if loc.has_non_local() {
                    match s[mid].cmp_non_local(key) {
                        Ordering::Less => {
                            proof {
                                lemma_less_prefix(s@, key, mid as int);
                            }
                            left = mid + 1;
                        },
                        Ordering::Greater => {
                            proof {
                                lemma_greater_suffix(s@, key, mid as int);
                            }
                            right = mid;
                        },
                        Ordering::Equal => {
                            return Ok(mid);
                        },
                    }
                } else {
                    return Ok(mid);
                }
            },
        }
    }
    Err(left)
}

/// Cache-aware searching in a sorted slice.
pub trait Slice<T: CamiOrd> {
    /// Searches `x` by the full order, resolving records that share a cache line with a probed
    /// one by their local phase. `Ok(i)`: record `i` equals `x`; `Err(i)`: none does, and `i`
    /// is where `x` would be inserted to keep the slice sorted.
    fn binary_search_ca(&self, x: &T) -> (r: Result<usize, usize>)
        requires
            is_sorted(self.slice_view()),
        ensures
            is_search_result(self.slice_view(), x, r),
    ;

    /// The records, in order.
    spec fn slice_view(&self) -> Seq<T>;
}

impl<T: CamiOrd> Slice<T> for [T] {
    open spec fn slice_view(&self) -> Seq<T> {
        self@
    }

    fn binary_search_ca(&self, x: &T) -> (r: Result<usize, usize>) {
        binary_search_ca_with(self, x, CACHE_LINE_SIZE, core::mem::size_of::<T>())
    }
}

/// `s` is sorted with no two records equal under the full order.
pub open spec fn is_strictly_sorted<T: CamiOrd>(s: Seq<T>) -> bool {
    forall|i: int, j: int| 0 <= i < j < s.len() ==> cmp_full(&s[i], &s[j]) == Ordering::Less
}

/// Any two correct search outcomes agree: both find a record or neither does; two misses
/// name the same insertion point; two hits name records equal to each other, and the same
/// record where no two records are equal. This holds of the cache-aware search against the
/// classical one, and of the cache-aware search under any two cache-line and record sizes.
pub proof fn lemma_search_results_agree<T: CamiOrd>(
    s: Seq<T>,
    key: &T,
    r1: Result<usize, usize>,
    r2: Result<usize, usize>,
)
    requires
        is_sorted(s),
        is_search_result(s, key, r1),
        is_search_result(s, key, r2),
    ensures
        r1 is Ok <==> r2 is Ok,
        r1 is Err ==> r1 == r2,
        r1 is Ok && r2 is Ok ==> cmp_full(&s[r1->Ok_0 as int], &s[r2->Ok_0 as int])
            == Ordering::Equal,
        is_strictly_sorted(s) ==> r1 == r2,
{
    match (r1, r2) {
        (Ok(i), Ok(j)) => {
            let a = &s[i as int];
            let b = &s[j as int];
            T::lemma_cmp_full_antisymmetric(b, key);
            T::lemma_cmp_full_transitive(a, key, b);
            T::lemma_cmp_full_antisymmetric(a, key);
            T::lemma_cmp_full_transitive(b, key, a);
            T::lemma_cmp_full_antisymmetric(a, b);
            if is_strictly_sorted(s) && i != j {
                if i < j {
                    assert(cmp_full(a, b) == Ordering::Less);
                } else {
                    assert(cmp_full(b, a) == Ordering::Less);
                }
            }
        },
        (Ok(i), Err(j)) => {
            assert(cmp_full(&s[i as int], key) == Ordering::Equal);
        },
        (Err(i), Ok(j)) => {
            assert(cmp_full(&s[j as int], key) == Ordering::Equal);
        },
        (Err(i), Err(j)) => {
            if i < j {
                assert(cmp_full(&s[i as int], key) == Ordering::Less);
            } else if j < i {
                assert(cmp_full(&s[j as int], key) == Ordering::Less);
            }
        },
    }
}

/// Inserting `key` at the insertion point of a miss keeps the sequence sorted.
pub proof fn lemma_insertion_point_keeps_sorted<T: CamiOrd>(s: Seq<T>, key: T, i: usize)
    requires
        is_sorted(s),
        is_search_result(s, &key, Err(i)),
    ensures
        is_sorted(s.insert(i as int, key)),
{
    let t = s.insert(i as int, key);
    assert forall|a: int, b: int| 0 <= a < b < t.len() implies cmp_full(&t[a], &t[b])
        != Ordering::Greater by {
        if a < i && b < i {
            assert(cmp_full(&s[a], &s[b]) != Ordering::Greater);
        } else if a < i && b == i {
            assert(cmp_full(&s[a], &key) == Ordering::Less);
        } else if a < i {
            assert(cmp_full(&s[a], &s[b - 1]) != Ordering::Greater);
        } else if a == i {
            assert(cmp_full(&s[b - 1], &key) == Ordering::Greater);
            T::lemma_cmp_full_antisymmetric(&s[b - 1], &key);
        } else {
            assert(cmp_full(&s[a - 1], &s[b - 1]) != Ordering::Greater);
        }
    }
}

/// A search in an empty sequence misses at `0`; a search in a sequence of one record finds it
/// exactly when it equals `key`, and otherwise misses before or after it.
pub proof fn lemma_search_boundaries<T: CamiOrd>(s: Seq<T>, key: &T, r: Result<usize, usize>)
    requires
        is_search_result(s, key, r),
    ensures
        s.len() == 0 ==> r == Err::<usize, usize>(0),
        s.len() == 1 ==> (r == Ok::<usize, usize>(0) <==> cmp_full(&s[0], key) == Ordering::Equal),
        s.len() == 1 && cmp_full(&s[0], key) == Ordering::Less ==> r == Err::<usize, usize>(1),
        s.len() == 1 && cmp_full(&s[0], key) == Ordering::Greater ==> r == Err::<usize, usize>(0),
{
    if s.len() == 1 {
        if let Err(i) = r {
            if i == 0 {
                assert(cmp_full(&s[0], key) == Ordering::Greater);
            } else {
                assert(cmp_full(&s[0], key) == Ordering::Less);
            }
        }
    }
}

/// With a single phase, the full order is that phase's order, and full equality that phase's
/// equality; so a search over such a type searches by that phase alone.
pub proof fn lemma_degenerate_locality<T: CamiOrd>(a: &T, b: &T)
    ensures
        T::spec_locality() == Locality::PureNonLocal ==> cmp_full(a, b) == a.spec_cmp_non_local(b)
            && eq_full(a, b) == a.spec_eq_non_local(b),
        T::spec_locality() == Locality::PureLocal ==> cmp_full(a, b) == a.spec_cmp_local(b)
            && eq_full(a, b) == a.spec_eq_local(b),
{
}

} // verus!
