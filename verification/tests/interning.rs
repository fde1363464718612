//! The interning stores: get-or-insert, deduplication, distinctness,
//! stability and idempotence, exercised on concrete values.

use atomset::stable_map::{AtomMap, Atomizable};
use atomset::stable_set::StableSet;
use atomset::Atom;
use std::cmp::Ordering;

#[test]
fn byte_views_collapse() {
    // One byte sequence interned through an owned string buffer, then
    // through a borrowed slice view: one stored element, one handle.
    let mut set: StableSet<Vec<u8>> = StableSet::new();
    let a1 = set.add_element(&" a".to_string());
    let sl: &[u8] = &[0x20, 0x61];
    let a2 = set.add_element(&sl);
    assert_eq!(a1, a2);
    assert_eq!(set.len(), 1);
    assert_eq!(set.get(a1), &vec![0x20u8, 0x61]);
}

#[test]
fn foo_bar_foo_two_elements() {
    let mut set: StableSet<String> = StableSet::new();
    let a1 = set.add_element(&"foo");
    let a2 = set.add_element(&"bar");
    let a3 = set.add_element(&"foo");
    assert_eq!(a1, a3);
    assert_ne!(a1, a2);
    assert_ne!(a2, a3);
    assert_eq!(set.len(), 2);
    assert_eq!(set.get(a1), "foo");
    assert_eq!(set.get(a2), "bar");
}

#[test]
fn empty_store_first_insert() {
    let mut set: StableSet<String> = StableSet::new();
    assert_eq!(set.len(), 0);
    let a = set.add_element(&"x");
    assert_eq!(set.len(), 1);
    assert_eq!(set.get(a), "x");
    let b = set.add_element(&"x");
    assert_eq!(a, b);
    assert_eq!(set.len(), 1);
}

#[test]
fn handles_stay_valid_across_insertions() {
    let mut set: StableSet<String> = StableSet::new();
    let first = set.add_element(&"keep");
    for i in 0..64u32 {
        set.add_element(&format!("filler-{}", i));
    }
    assert_eq!(set.get(first), "keep");
    let again = set.add_element(&"keep");
    assert_eq!(first, again);
    assert_eq!(set.len(), 65);
}

#[test]
fn repeated_key_never_grows() {
    let mut set: StableSet<Vec<u8>> = StableSet::new();
    let key: Vec<u8> = vec![1, 2, 3];
    let a0 = set.add_element(&key);
    for _ in 0..5 {
        let a = set.add_element(&key);
        assert_eq!(a, a0);
        assert_eq!(set.len(), 1);
    }
}

#[test]
fn distinct_keys_distinct_handles() {
    let mut set: StableSet<Vec<u8>> = StableSet::new();
    let a = set.add_element(&vec![0u8]);
    let b = set.add_element(&vec![1u8]);
    let c = set.add_element(&vec![0u8, 0]);
    assert_ne!(a, b);
    assert_ne!(a, c);
    assert_ne!(b, c);
    assert_eq!(set.len(), 3);
}

#[test]
fn mixed_owned_and_borrowed_queries() {
    let mut set: StableSet<String> = StableSet::new();
    let a1 = set.add_element(&"dual");
    let a2 = set.add_element(&"dual".to_string());
    assert_eq!(a1, a2);
    assert_eq!(set.len(), 1);
}

#[test]
fn atom_slot_order() {
    let mut set: StableSet<String> = StableSet::new();
    let a1 = set.add_element(&"first");
    let a2 = set.add_element(&"second");
    assert_eq!(Atom::as_ref(a1), 0);
    assert_eq!(Atom::as_ref(a2), 1);
    assert!(a1 < a2);
    assert!(a2 > a1);
    assert!(a1 <= a1);
    let copy = a1;
    assert_eq!(copy, a1);
}

#[test]
fn atom_map_get_or_insert() {
    let mut map: AtomMap<String> = AtomMap::new();
    let a1 = map.add_element("foo");
    let a2 = map.add_element("bar");
    let a3 = map.add_element("foo");
    assert_eq!(a1, a3);
    assert_ne!(a1, a2);
    assert_eq!(map.len(), 2);
    assert_eq!(map.get(a1), "foo");
    assert_eq!(map.get(a2), "bar");
}

#[test]
fn atom_map_stability() {
    let mut map: AtomMap<String> = AtomMap::new();
    let first = map.add_element("anchor");
    for i in 0..32u32 {
        map.add_element(&format!("more-{}", i));
    }
    assert_eq!(map.get(first), "anchor");
    assert_eq!(map.add_element("anchor"), first);
}

#[test]
fn atomizable_string_projections() {
    let s = "abc".to_string();
    assert!(s.external_matches("abc"));
    assert!(!s.external_matches("abd"));
    assert_eq!(String::from_external("abc"), "abc");
}

#[test]
fn atom_total_order() {
    let mut set: StableSet<Vec<u8>> = StableSet::new();
    let a = set.add_element(&vec![1u8]);
    let b = set.add_element(&vec![2u8]);
    assert_eq!(a.cmp(&b), Ordering::Less);
    assert_eq!(b.cmp(&a), Ordering::Greater);
    assert_eq!(a.cmp(&a), Ordering::Equal);
    assert_eq!(a.partial_cmp(&b), Some(Ordering::Less));
}

#[test]
fn empty_key_interns_like_any_other() {
    let mut set: StableSet<Vec<u8>> = StableSet::new();
    let empty: &[u8] = &[];
    let a1 = set.add_element(&empty);
    let a2 = set.add_element(&Vec::new());
    let a3 = set.add_element(&String::new());
    assert_eq!(a1, a2);
    assert_eq!(a1, a3);
    assert_eq!(set.len(), 1);
    assert_eq!(set.get(a1), &Vec::<u8>::new());
}
