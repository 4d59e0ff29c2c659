use cami::Slice;

const U8S: &[u8] = &[0, 2, 6, 40, 41, 80, 81];

#[test]
fn item_0() {
    assert_eq!(U8S.binary_search_ca(&0), Ok(0));
}

#[test]
fn item_1() {
    assert_eq!(U8S.binary_search_ca(&2), Ok(1));
}

#[test]
fn item_2() {
    assert_eq!(U8S.binary_search_ca(&6), Ok(2));
}

#[test]
fn item_3() {
    assert_eq!(U8S.binary_search_ca(&40), Ok(3));
}

#[test]
fn item_4() {
    assert_eq!(U8S.binary_search_ca(&41), Ok(4));
}

#[test]
fn item_5() {
    assert_eq!(U8S.binary_search_ca(&80), Ok(5));
}

#[test]
fn item_6() {
    assert_eq!(U8S.binary_search_ca(&81), Ok(6));
}

const BYTES_2D: &[&[u8]] = &[
    &[9],
    &[5, 4],
    &[7, 1],
    &[3, 5, 1],
    &[3, 5, 3],
    &[1, 0, 9, 9],
    &[1, 7, 0, 0],
    &[0, 0, 1, 9, 9],
    &[0, 2, 0, 5, 5],
];

#[test]
fn slice_item_0() {
    let key: &[u8] = &[9];
    assert_eq!(BYTES_2D.binary_search_ca(&key), Ok(0));
}

#[test]
fn slice_item_1() {
    let key: &[u8] = &[5, 4];
    assert_eq!(BYTES_2D.binary_search_ca(&key), Ok(1));
}

#[test]
fn slice_item_2() {
    let key: &[u8] = &[7, 1];
    assert_eq!(BYTES_2D.binary_search_ca(&key), Ok(2));
}

#[test]
fn slice_item_3() {
    let key: &[u8] = &[3, 5, 1];
    assert_eq!(BYTES_2D.binary_search_ca(&key), Ok(3));
}

#[test]
fn slice_item_4() {
    let key: &[u8] = &[3, 5, 3];
    assert_eq!(BYTES_2D.binary_search_ca(&key), Ok(4));
}

#[test]
fn slice_item_5() {
    let key: &[u8] = &[1, 0, 9, 9];
    assert_eq!(BYTES_2D.binary_search_ca(&key), Ok(5));
}

#[test]
fn slice_item_6() {
    let key: &[u8] = &[1, 7, 0, 0];
    assert_eq!(BYTES_2D.binary_search_ca(&key), Ok(6));
}

#[test]
fn slice_item_7() {
    let key: &[u8] = &[0, 0, 1, 9, 9];
    assert_eq!(BYTES_2D.binary_search_ca(&key), Ok(7));
}

#[test]
fn item_8() {
    let key: &[u8] = &[0, 2, 0, 5, 5];
    assert_eq!(BYTES_2D.binary_search_ca(&key), Ok(8));
}

const STRS: &[&str] = &["a", "f", "g", "z", "dd", "ccc", "bbbb", "aaaaa"];

#[test]
fn strs_item_0() {
    assert_eq!(STRS.binary_search_ca(&"a"), Ok(0));
}

#[test]
fn strs_item_1() {
    assert_eq!(STRS.binary_search_ca(&"f"), Ok(1));
}

#[test]
fn strs_item_2() {
    assert_eq!(STRS.binary_search_ca(&"g"), Ok(2));
}

#[test]
fn strs_item_3() {
    assert_eq!(STRS.binary_search_ca(&"z"), Ok(3));
}

#[test]
fn strs_item_4() {
    assert_eq!(STRS.binary_search_ca(&"dd"), Ok(4));
}

#[test]
fn strs_item_5() {
    assert_eq!(STRS.binary_search_ca(&"ccc"), Ok(5));
}

#[test]
fn strs_item_6() {
    assert_eq!(STRS.binary_search_ca(&"bbbb"), Ok(6));
}

#[test]
fn strs_item_7() {
    assert_eq!(STRS.binary_search_ca(&"aaaaa"), Ok(7));
}

const NESTED: &[&[&[u8]]] = &[
    &[&[9], &[0, 5]],
    &[&[7], &[1, 7], &[4, 1]],
    &[&[5], &[0, 7], &[4, 3], &[0, 1, 0]],
    &[&[5], &[6], &[0, 9, 9], &[1, 3, 2], &[1, 3, 4]],
];

#[test]
fn nested_item_0() {
    assert_eq!(NESTED.binary_search_ca(&NESTED[0]), Ok(0));
}

#[test]
fn nested_item_1() {
    assert_eq!(NESTED.binary_search_ca(&NESTED[1]), Ok(1));
}

#[test]
fn nested_item_2() {
    assert_eq!(NESTED.binary_search_ca(&NESTED[2]), Ok(2));
}

#[test]
fn nested_item_3() {
    assert_eq!(NESTED.binary_search_ca(&NESTED[3]), Ok(3));
}
