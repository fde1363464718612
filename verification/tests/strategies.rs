//! Comparison and normalization strategies, exercised from outside.

use atomset::compare::{Borrowing, Natural, Referencing};
use atomset::normalize::{Into, Normalize};

#[test]
pub fn referenced_u8_equality() {
    let v: Vec<u8> = vec![0x20, 0x61];
    let s = " a".to_string();
    let cmp: Referencing<[u8]> = Default::default();

    assert!(atomset::compare::Eq::eq(&cmp, &v, &s));
}

#[test]
fn referenced_u8_inequality() {
    let v: Vec<u8> = vec![0x20, 0x62];
    let s = " a".to_string();
    let cmp: Referencing<[u8]> = Default::default();

    assert!(!atomset::compare::Eq::eq(&cmp, &v, &s));
}

#[test]
fn referenced_string_pair() {
    let cmp: Referencing<[u8]> = Default::default();
    assert!(atomset::compare::Eq::eq(&cmp, &"same".to_string(), &"same".to_string()));
    assert!(!atomset::compare::Eq::eq(&cmp, &"same".to_string(), &"other".to_string()));
    assert!(atomset::compare::Eq::eq(&cmp, &"ab".to_string(), &vec![0x61u8, 0x62]));
}

#[test]
fn natural_byte_slices() {
    let cmp: Natural<Vec<u8>> = Natural::new();
    assert!(atomset::compare::Eq::eq(&cmp, &vec![1u8, 2, 3], &vec![1u8, 2, 3]));
    assert!(!atomset::compare::Eq::eq(&cmp, &vec![1u8, 2, 3], &vec![1u8, 2]));
    assert!(!atomset::compare::Eq::eq(&cmp, &vec![1u8, 2, 3], &vec![1u8, 2, 4]));
}

#[test]
fn natural_strings() {
    let cmp: Natural<String> = Default::default();
    assert!(atomset::compare::Eq::eq(&cmp, &"foo".to_string(), &"foo".to_string()));
    assert!(!atomset::compare::Eq::eq(&cmp, &"foo".to_string(), &"bar".to_string()));
}

#[test]
fn borrowing_strings_through_str() {
    let cmp: Borrowing<str, Natural<str>> = Borrowing::new(Natural::new());
    assert!(atomset::compare::Eq::eq(&cmp, &"foo".to_string(), &"foo".to_string()));
    assert!(!atomset::compare::Eq::eq(&cmp, &"foo".to_string(), &"fo".to_string()));
}

#[test]
fn borrowing_vecs_through_slice() {
    let cmp: Borrowing<[u8], Natural<[u8]>> = Default::default();
    assert!(atomset::compare::Eq::eq(&cmp, &vec![9u8], &vec![9u8]));
    assert!(!atomset::compare::Eq::eq(&cmp, &vec![9u8], &vec![8u8]));
}

#[test]
fn converting_str_to_string() {
    let n: Into<String> = Into::new();
    let s: String = n.normalize("hello");
    assert_eq!(s, "hello");
}

#[test]
fn converting_slice_to_vec() {
    let n: Into<Vec<u8>> = Default::default();
    let v: Vec<u8> = n.normalize(&[1u8, 2, 3][..]);
    assert_eq!(v, vec![1u8, 2, 3]);
}

#[test]
fn normalize_through_borrowed_string() {
    let n: atomset::wrapper::Borrowing<str, Into<String>> =
        atomset::wrapper::Borrowing::new(Into::new());
    let owned = "query".to_string();
    let s: String = n.normalize(&owned);
    assert_eq!(s, "query");
}

#[test]
fn normalize_through_referenced_vec() {
    let n: atomset::wrapper::Referencing<[u8], Into<Vec<u8>>> =
        atomset::wrapper::Referencing::new(Into::new());
    let owned: Vec<u8> = vec![4, 5];
    let v: Vec<u8> = n.normalize(&owned);
    assert_eq!(v, vec![4u8, 5]);
}

#[test]
fn normalize_through_referenced_string() {
    let n: atomset::wrapper::Referencing<str, Into<String>> =
        atomset::wrapper::Referencing::new(Into::new());
    let owned = "via as-ref".to_string();
    let s: String = n.normalize(&owned);
    assert_eq!(s, "via as-ref");
}

#[test]
fn wrapper_get_wrapped() {
    let b: atomset::wrapper::Borrowing<str, u32> = atomset::wrapper::Borrowing::new(7);
    assert_eq!(*b.get_wrapped(), 7);
    let r: atomset::wrapper::Referencing<[u8], u32> = atomset::wrapper::Referencing::new(9);
    assert_eq!(*r.get_wrapped(), 9);
}

#[test]
fn fnv1a_known_vectors() {
    let cmp: Natural<Vec<u8>> = Natural::new();
    assert_eq!(atomset::compare::Hash::hash(&cmp, &Vec::new()), 0xcbf29ce484222325);
    assert_eq!(atomset::compare::Hash::hash(&cmp, &vec![0x61u8]), 0xaf63dc4c8601ec8c);
    assert_eq!(atomset::compare::Hash::hash(&cmp, &vec![0x20u8, 0x61]), 0x07c56707b48e65fa);
}

#[test]
fn hash_consistent_with_eq() {
    let cmp: Referencing<[u8]> = Default::default();
    let v: Vec<u8> = vec![0x20, 0x61];
    let s = " a".to_string();
    assert!(atomset::compare::Eq::eq(&cmp, &v, &s));
    assert_eq!(
        atomset::compare::Hash::hash(&cmp, &v),
        atomset::compare::Hash::hash(&cmp, &s)
    );
    let n: Natural<String> = Natural::new();
    assert_eq!(atomset::compare::Hash::hash(&n, &" a".to_string()), 0x07c56707b48e65fa);
}

#[test]
fn empty_values_compare_equal() {
    let cmp: Natural<Vec<u8>> = Natural::new();
    assert!(atomset::compare::Eq::eq(&cmp, &Vec::new(), &Vec::new()));
    assert!(!atomset::compare::Eq::eq(&cmp, &Vec::new(), &vec![0u8]));
    let r: Referencing<[u8]> = Default::default();
    assert!(atomset::compare::Eq::eq(&r, &Vec::new(), &String::new()));
}

#[test]
fn wrapper_defaults() {
    let n: atomset::wrapper::Borrowing<str, Into<String>> = Default::default();
    let s: String = n.normalize(&"dflt".to_string());
    assert_eq!(s, "dflt");
    let m: atomset::wrapper::Referencing<[u8], Into<Vec<u8>>> = Default::default();
    let v: Vec<u8> = m.normalize(&vec![3u8, 4]);
    assert_eq!(v, vec![3u8, 4]);
}
