use cami::search::{binary_search_ca_with, binary_search_full};
use cami::traits::compare_full;
use cami::slices::{compare_byte_slices, compare_bytes};
use cami::{
    Cami, CamiOrd, CamiPartialEq, CamiPartialOrd, CfWrap, IntoCami, IntoCamiClone, IntoCamiCopy,
    Locality, Slice,
};
use core::cmp::Ordering;

const VALUES: &[u8] = &[0, 2, 6, 40, 41, 80, 81];

#[test]
fn values_found_and_missed() {
    assert_eq!(VALUES.binary_search_ca(&2), Ok(1));
    assert_eq!(VALUES.binary_search_ca(&41), Ok(4));
    assert_eq!(VALUES.binary_search_ca(&3), Err(2));
    assert_eq!(VALUES.binary_search_ca(&0), Ok(0));
    assert_eq!(VALUES.binary_search_ca(&255), Err(7));
    assert_eq!(VALUES.binary_search_ca(&42), Err(5));
}

#[test]
fn byte_sequences_by_length_then_bytes() {
    let all: &[&[u8]] = &[&[9], &[5, 4], &[7, 1], &[3, 5, 1], &[3, 5, 3]];
    let found: &[u8] = &[7, 1];
    assert_eq!(all.binary_search_ca(&found), Ok(2));
    // Three records are shorter than [3, 5, 2] and [3, 5, 1] precedes it.
    let missing: &[u8] = &[3, 5, 2];
    assert_eq!(all.binary_search_ca(&missing), Err(4));
    let shortest: &[u8] = &[];
    assert_eq!(all.binary_search_ca(&shortest), Err(0));
}

#[test]
fn strings_by_length_then_bytes() {
    let all: &[&str] = &["a", "f", "g", "z", "dd", "ccc", "bbbb", "aaaaa"];
    assert_eq!(all.binary_search_ca(&"g"), Ok(2));
    assert_eq!(all.binary_search_ca(&"bbbb"), Ok(6));
    // "zz" is as long as "dd" and follows it.
    assert_eq!(all.binary_search_ca(&"zz"), Err(5));
    assert_eq!(all.binary_search_ca(&"ab"), Err(4));
    assert_eq!(all.binary_search_ca(&"zzzzzz"), Err(8));
}

#[test]
fn empty_sequence_misses_at_zero() {
    let empty: &[u8] = &[];
    for key in [0u8, 7, 255] {
        assert_eq!(empty.binary_search_ca(&key), Err(0));
        assert_eq!(binary_search_full(empty, &key), Err(0));
    }
    let no_strs: &[&str] = &[];
    assert_eq!(no_strs.binary_search_ca(&"x"), Err(0));
}

#[test]
fn single_record_found_only_when_equal() {
    let one: &[u8] = &[10];
    assert_eq!(one.binary_search_ca(&10), Ok(0));
    assert_eq!(one.binary_search_ca(&9), Err(0));
    assert_eq!(one.binary_search_ca(&11), Err(1));
    let one_str: &[&str] = &["mid"];
    assert_eq!(one_str.binary_search_ca(&"mid"), Ok(0));
    assert_eq!(one_str.binary_search_ca(&"abc"), Err(0));
    assert_eq!(one_str.binary_search_ca(&"zzz"), Err(1));
}

fn sample_sequences() -> Vec<Vec<u8>> {
    let mut seqs: Vec<Vec<u8>> = vec![vec![], vec![5], vec![1, 1, 1], vec![0, 255]];
    seqs.push((0..=255u8).collect());
    seqs.push((0..200u8).map(|x| x / 3).collect());
    seqs.push((0..100u8).map(|x| 2 * x + 1).collect());
    seqs.push(vec![3, 3, 3, 3, 9, 9, 9, 12, 40, 40, 41, 200, 200, 200, 200, 201]);
    seqs
}

const PARAMS: &[(usize, usize)] = &[
    (128, 1),
    (64, 1),
    (3, 1),
    (2, 1),
    (1, 1),
    (128, 0),
    (0, 4),
    (96, 32),
    (usize::MAX, 1),
];

fn check_outcome(s: &[u8], key: u8, r: Result<usize, usize>) {
    match r {
        Ok(i) => assert_eq!(s[i], key),
        Err(i) => {
            assert!(s[..i].iter().all(|&x| x < key));
            assert!(s[i..].iter().all(|&x| x > key));
        },
    }
}

#[test]
fn same_outcome_as_classical_search() {
    for s in sample_sequences() {
        for key in 0..=255u8 {
            let classical = binary_search_full(&s, &key);
            let ca = s.binary_search_ca(&key);
            check_outcome(&s, key, classical);
            check_outcome(&s, key, ca);
            assert_eq!(ca.is_ok(), classical.is_ok());
            if ca.is_err() {
                assert_eq!(ca, classical);
            }
            assert_eq!(ca.is_ok(), s.binary_search(&key).is_ok());
        }
    }
}

#[test]
fn cache_parameters_do_not_change_outcome() {
    for s in sample_sequences() {
        for key in 0..=255u8 {
            let reference = binary_search_full(&s, &key);
            for &(line, size) in PARAMS {
                let r = binary_search_ca_with(&s, &key, line, size);
                check_outcome(&s, key, r);
                assert_eq!(r.is_ok(), reference.is_ok());
                if r.is_err() {
                    assert_eq!(r, reference);
                }
            }
        }
    }
}

#[test]
fn distinct_records_give_same_index_under_any_parameters() {
    let s: Vec<u8> = (0..120u8).map(|x| 2 * x).collect();
    for key in 0..=255u8 {
        let reference = binary_search_full(&s, &key);
        for &(line, size) in PARAMS {
            assert_eq!(binary_search_ca_with(&s, &key, line, size), reference);
        }
    }
}

#[test]
fn insertion_point_keeps_order() {
    for s in sample_sequences() {
        for key in 0..=255u8 {
            if let Err(i) = s.binary_search_ca(&key) {
                let mut t = s.clone();
                t.insert(i, key);
                assert!(t.windows(2).all(|w| compare_full(&w[0], &w[1]) != Ordering::Greater));
            }
        }
    }
    let strs: Vec<&str> = vec!["a", "f", "g", "z", "dd", "ccc", "bbbb", "aaaaa"];
    for key in ["b", "zz", "aa", "cccc", "", "bbbbbb"] {
        if let Err(i) = strs.binary_search_ca(&key) {
            let mut t = strs.clone();
            t.insert(i, key);
            assert!(t.windows(2).all(|w| compare_full(&w[0], &w[1]) != Ordering::Greater));
        }
    }
}

#[test]
fn non_local_only_searches_by_non_local_order() {
    let values: Vec<u64> = vec![1, 4, 4, 9, 1000, 1 << 40];
    let wrapped: Vec<CfWrap<u64>> = values.iter().map(|&v| CfWrap::new(v)).collect();
    for key in [0u64, 1, 4, 5, 1000, 1 << 40, u64::MAX] {
        let r = wrapped.binary_search_ca(&CfWrap::new(key));
        assert_eq!(r.is_ok(), values.binary_search(&key).is_ok());
        match r {
            Ok(i) => assert_eq!(values[i], key),
            Err(i) => assert_eq!(i, values.partition_point(|&v| v < key)),
        }
    }
    let a = CfWrap::new(3usize);
    let b = CfWrap::new(8usize);
    assert_eq!(compare_full(&a, &b), Ordering::Less);
    assert_eq!(compare_full(&b, &a), Ordering::Greater);
    assert_eq!(CfWrap::new(5u64).into_inner(), 5);
}

#[test]
fn local_only_searches_by_local_order() {
    for (a, b) in [(1u8, 2u8), (2, 1), (7, 7)] {
        assert_eq!(compare_full(&a, &b), a.cmp_local(&b));
        assert_eq!(compare_full(&a, &b), a.cmp(&b));
    }
    let flags: &[bool] = &[false, false, true];
    assert_eq!(flags.binary_search_ca(&true), Ok(2));
    assert!(flags.binary_search_ca(&false).is_ok());
    let units: &[()] = &[(), ()];
    assert!(units.binary_search_ca(&()).is_ok());
}

#[test]
fn phases_of_strings() {
    let a: &str = "abc";
    let b: &str = "abd";
    let c: &str = "zz";
    assert_eq!(a.cmp_local(&b), Ordering::Equal);
    assert_eq!(a.cmp_non_local(&b), Ordering::Less);
    assert_eq!(a.cmp_local(&c), Ordering::Greater);
    assert_eq!(compare_full(&a, &c), Ordering::Greater);
    assert_eq!(compare_full(&c, &a), Ordering::Less);
    assert!(a.eq_local(&b));
    assert!(!a.eq_non_local(&b));
    assert!(a.eq_non_local(&"abc"));
    assert_eq!(a.partial_cmp_non_local(&b), Some(Ordering::Less));
    assert!(a.lt_non_local(&b));
    assert!(a.le_local(&b));
    assert!(!a.gt_local(&b));
    assert!(a.ge_local(&b));
    assert!(!a.ge_non_local(&b));
    assert!(c.gt_non_local(&a));
    assert_eq!(<&str as CamiPartialEq>::locality(), Locality::Both);
}

#[test]
fn phases_of_byte_slices() {
    let a: &[u8] = &[1, 2, 3];
    let b: &[u8] = &[1, 2];
    let c: &[u8] = &[9];
    assert_eq!(compare_bytes(a, b), Ordering::Greater);
    assert_eq!(compare_bytes(b, a), Ordering::Less);
    assert_eq!(compare_bytes(c, a), Ordering::Greater);
    assert_eq!(compare_bytes(a, a), Ordering::Equal);
    assert_eq!(a.cmp_local(&c), Ordering::Greater);
    assert_eq!(compare_full(&c, &b), Ordering::Less);
    assert_eq!(compare_full(&b, &c), Ordering::Greater);
}

#[test]
fn locality_phases() {
    assert!(Locality::PureLocal.has_local());
    assert!(!Locality::PureLocal.has_non_local());
    assert!(!Locality::PureNonLocal.has_local());
    assert!(Locality::PureNonLocal.has_non_local());
    assert!(Locality::Both.has_local());
    assert!(Locality::Both.has_non_local());
    Locality::Both.debug_reachable_for_local();
    Locality::PureNonLocal.debug_reachable_for_non_local();
}

#[test]
fn wrapper_compares_by_full_order() {
    let a = Cami::new("abc");
    let b = Cami::new("abd");
    let c = Cami::new("abc");
    let d = Cami::new("zz");
    assert!(a == c);
    assert!(a != b);
    assert!(a < b);
    assert!(d < a);
    assert!(b >= a);
    assert_eq!(a.partial_cmp(&d), Some(Ordering::Greater));
    assert_eq!(a.cmp(&b), Ordering::Less);
    assert_eq!(a.cmp(&c), Ordering::Equal);
    let wrapped: Vec<Cami<&str>> = vec![Cami::new("q"), Cami::new("ab"), Cami::new("ac")];
    assert_eq!(wrapped.binary_search_ca(&Cami::new("ac")), Ok(2));
    assert_eq!(wrapped.binary_search_ca(&Cami::new("b")), Err(0));
    assert_eq!(wrapped.binary_search_ca(&Cami::new("r")), Err(1));
    assert_eq!(wrapped.binary_search_ca(&Cami::new("ad")), Err(3));
}

#[test]
fn wrapper_accessors() {
    let mut w = Cami::new(5u8);
    assert_eq!(*w.in_cami(), 5);
    *w.in_cami_mut() = 9;
    assert_eq!(w.from_cami_copy(), 9);
    assert_eq!(w.from_cami_clone(), 9);
    assert_eq!(w.from_cami(), 9);
    assert_eq!(7u8.into_cami().from_cami(), 7);
    assert_eq!(true.into_cami_copy().from_cami(), true);
    assert_eq!("s".into_cami_clone().from_cami(), "s");
}

#[test]
fn nested_slices_compare_elements_by_their_plain_order() {
    let nine_first: &[&[u8]] = &[&[9], &[0, 5]];
    let zero_first: &[&[u8]] = &[&[0, 5], &[9]];
    // Equal lengths; the first elements differ, and [9] follows [0, 5] byte by byte.
    assert_eq!(compare_full(&nine_first, &zero_first), Ordering::Greater);
    assert_eq!(compare_full(&zero_first, &nine_first), Ordering::Less);
    assert_eq!(compare_full(&nine_first, &nine_first), Ordering::Equal);
    assert_eq!(compare_byte_slices(nine_first, zero_first), Ordering::Greater);
    assert!(nine_first.eq_non_local(&nine_first));
    assert!(!nine_first.eq_non_local(&zero_first));
    assert_eq!(nine_first.partial_cmp_non_local(&zero_first), Some(Ordering::Greater));
    // A shorter outer slice still comes first.
    let single: &[&[u8]] = &[&[255, 255, 255]];
    assert_eq!(compare_full(&single, &zero_first), Ordering::Less);
}

#[test]
fn bridged_integers_order_by_value() {
    assert_eq!(compare_full(&CfWrap::new(-5i8), &CfWrap::new(3i8)), Ordering::Less);
    assert_eq!(compare_full(&CfWrap::new(i64::MIN), &CfWrap::new(i64::MIN)), Ordering::Equal);
    assert_eq!(compare_full(&CfWrap::new(u128::MAX), &CfWrap::new(0u128)), Ordering::Greater);
    let signed: Vec<CfWrap<i32>> = [-7, -1, 0, 4].iter().map(|&v| CfWrap::new(v)).collect();
    assert_eq!(signed.binary_search_ca(&CfWrap::new(-1)), Ok(1));
    assert_eq!(signed.binary_search_ca(&CfWrap::new(2)), Err(3));
    assert!(CfWrap::new(7u16).eq_non_local(&CfWrap::new(7u16)));
    assert_eq!(<CfWrap<isize> as CamiPartialEq>::locality(), Locality::PureNonLocal);
}

#[test]
fn wrapper_equality_is_an_equivalence() {
    let a = Cami::new(4u8);
    assert_eq!(a, Cami::new(4u8));
    assert_ne!(a, Cami::new(5u8));
}
