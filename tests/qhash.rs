use qt_bridge::{QByteArray, QHash};

fn bytes(s: &[u8]) -> QByteArray {
    QByteArray::from_slice(s)
}

fn role_names() -> QHash<i32, QByteArray> {
    let mut h = QHash::<i32, QByteArray>::default();
    h.insert(1, bytes(b"display"));
    h.insert_clone(&2, &bytes(b"edit"));
    h.insert(3, bytes(b"tooltip"));
    h
}

#[test]
fn hash_insert_and_lookup() {
    let h = role_names();
    assert_eq!(h.len(), 3);
    assert!(!h.is_empty());
    assert!(h.contains(&2));
    assert!(!h.contains(&4));
    assert_eq!(h.get(&1).unwrap().as_slice(), b"display");
    assert!(h.get(&4).is_none());
    assert_eq!(h.get_or_default(&3).as_slice(), b"tooltip");
    let d = h.get_or_default(&9);
    assert!(d.is_null());
}

#[test]
fn hash_insert_replaces_value() {
    let mut h = role_names();
    h.insert(2, bytes(b"changed"));
    assert_eq!(h.len(), 3);
    assert_eq!(h.get(&2).unwrap().as_slice(), b"changed");
}

#[test]
fn hash_remove_and_clear() {
    let mut h = role_names();
    assert!(h.remove(&2));
    assert!(!h.remove(&2));
    assert_eq!(h.len(), 2);
    assert!(!h.contains(&2));
    h.clear();
    assert!(h.is_empty());
    assert_eq!(h.len(), 0);
}

#[test]
fn hash_clones_compare_equal_and_drop_independently() {
    let h = role_names();
    let mut c1 = h.clone();
    let c2 = h.clone();
    assert!(c1 == h);
    assert!(h == c1);
    assert!(c1 == c2);
    c1.clear();
    assert!(c1.is_empty());
    drop(c1);
    assert_eq!(h.len(), 3);
    assert!(c2 == h);
}

#[test]
fn hash_equality_ignores_order_and_compares_values() {
    let mut a = QHash::<i32, QByteArray>::default();
    a.insert(1, bytes(b"x"));
    a.insert(2, bytes(b"y"));
    let mut b = QHash::<i32, QByteArray>::default();
    b.insert(2, bytes(b"y"));
    b.insert(1, bytes(b"x"));
    assert!(a == b);
    b.insert(1, bytes(b"z"));
    assert!(a != b);
    let mut c = QHash::<i32, QByteArray>::default();
    c.insert(1, QByteArray::new());
    let mut d = QHash::<i32, QByteArray>::default();
    d.insert(1, bytes(b""));
    assert!(c == d);
    d.insert(5, bytes(b""));
    assert!(c != d);
}

#[test]
fn hash_iteration_yields_each_entry_once() {
    let h = role_names();
    let mut it = h.iter();
    let n = h.len() as usize;
    assert_eq!(it.len(), n);
    assert_eq!(it.size_hint(), (n, Some(n)));
    let mut seen = Vec::new();
    let mut left = n;
    while let Some((k, v)) = it.next() {
        left -= 1;
        assert_eq!(it.len(), left);
        assert_eq!(it.size_hint(), (left, Some(left)));
        seen.push((*k, v.as_slice().to_vec()));
    }
    assert_eq!(seen.len(), 3);
    assert!(it.next().is_none());
    seen.sort();
    assert_eq!(
        seen,
        vec![(1, b"display".to_vec()), (2, b"edit".to_vec()), (3, b"tooltip".to_vec())]
    );
    let mut again = h.iter();
    assert_eq!(again.len(), 3);
    assert!(again.next().is_some());
}

#[test]
fn hash_unchecked_access() {
    let h = role_names();
    for pos in 0..h.len() {
        let k = *h.get_unchecked_key(pos);
        assert_eq!(h.get_unchecked_value(pos).as_slice(), h.get(&k).unwrap().as_slice());
    }
}

#[test]
fn empty_hash_iterates_nothing() {
    let h = QHash::<i32, QByteArray>::default();
    let mut it = h.iter();
    assert_eq!(it.len(), 0);
    assert_eq!(it.size_hint(), (0, Some(0)));
    assert!(it.next().is_none());
}
