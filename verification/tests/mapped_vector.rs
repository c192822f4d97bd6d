use odyssey::mapped_vector::MappedVector;

fn mv(labels: Vec<&'static str>, values: Vec<f64>) -> MappedVector<&'static str, f64> {
    MappedVector::new(labels, values)
}

#[test]
fn test_set() {
    let mut v = mv(vec!["a", "b"], vec![0.0, 0.0]);
    v.set("a", 5.0);
    v.set("b", 3.0);
    assert_eq!(v.values, vec![5.0, 3.0]);
}

#[test]
fn test_set_overwrite() {
    let mut v = mv(vec!["a"], vec![0.0]);
    v.set("a", 5.0);
    v.set("a", 3.0);
    assert_eq!(v.values, vec![3.0]);
}

#[test]
fn test_set_unknown() {
    let mut v = mv(vec!["a"], vec![1.0]);
    assert!(v.set("b", 2.0).is_none());
    assert_eq!(v.values, vec![1.0]);
}

#[test]
fn test_add_to() {
    let mut v = mv(vec!["a", "b"], vec![2.0, 3.0]);
    let old = v.add_to("a", 5.0);
    assert_eq!(old, Some(2.0));
    assert_eq!(v.values, vec![7.0, 3.0]);
}

#[test]
fn test_add_to_unknown() {
    let mut v = mv(vec!["a"], vec![1.0]);
    assert!(v.add_to("b", 5.0).is_none());
    assert_eq!(v.values, vec![1.0]);
}

#[test]
fn test_add() {
    let a = mv(vec!["x", "y"], vec![1.0, 2.0]);
    let b = mv(vec!["x", "y"], vec![3.0, 4.0]);
    let c = a + b;
    assert_eq!(c.values, vec![4.0, 6.0]);
}

#[test]
fn test_add_assign() {
    let mut a = mv(vec!["x", "y"], vec![1.0, 2.0]);
    let b = mv(vec!["x", "y"], vec![3.0, 4.0]);
    a += b;
    assert_eq!(a.values, vec![4.0, 6.0]);
}

#[test]
fn test_partial_eq() {
    let a = mv(vec!["x", "y"], vec![1.0, 2.0]);
    let b = mv(vec!["x", "y"], vec![1.0, 2.0]);
    assert_eq!(a, b);
}

#[test]
fn test_partial_eq_ne() {
    let a = mv(vec!["x", "y"], vec![1.0, 2.0]);
    let b = mv(vec!["x", "y"], vec![1.0, 99.0]);
    assert_ne!(a, b);
}

#[test]
fn rows_and_labels_correspond() {
    let v = mv(vec!["a", "b", "c"], vec![1.0, 2.0, 3.0]);
    for i in 0..3usize {
        let label = *v.irow(&i).unwrap();
        assert_eq!(v.row(&label), Some(i));
    }
    assert_eq!(v.row(&"d"), None);
    assert!(v.contains(&"b"));
    assert!(!v.contains(&"z"));
    assert_eq!(v.irow(&3), None);
}

#[test]
fn sums_keep_the_rows_both_have() {
    let a = MappedVector::new(vec!["x", "y", "z"], vec![1i64, 2, 3]);
    let b = MappedVector::new(vec!["x", "y"], vec![10i64, 20]);
    let c = a.clone() + b.clone();
    assert_eq!(c.values, vec![11, 22]);
    assert_eq!(c.mapping, vec!["x", "y", "z"]);
    let mut d = a;
    d += b;
    assert_eq!(d.values, vec![11, 22, 3]);
    let empty: MappedVector<&str, i64> = MappedVector::empty();
    assert_eq!(empty.nrows(), 0);
}

#[test]
fn string_labels_find_their_rows() {
    let mut v = MappedVector::new(vec!["co2".to_string(), "ch4".to_string()], vec![0i64, 0]);
    assert_eq!(v.row(&"ch4".to_string()), Some(1));
    assert_eq!(v.set("co2".to_string(), 4), Some(0));
    assert_eq!(v.add_to("co2".to_string(), 3), Some(4));
    assert_eq!(v.values, vec![7, 0]);
    assert!(!v.contains(&"n2o".to_string()));
}
