use fluent_kit::Collection;

#[test]
fn new_collection_is_empty() {
    let c: Collection<u32> = Collection::new();
    assert!(c.is_empty());
    assert_eq!(c.len(), 0);
    assert_eq!(c.get(0), None);
}

#[test]
fn push_appends_in_order() {
    let mut c = Collection::new();
    c.push(3);
    c.push(1);
    c.push(2);
    assert_eq!(c.all(), &vec![3, 1, 2]);
    assert_eq!(c.length(), 3);
    assert!(!c.is_empty());
    assert_eq!(c.get(1), Some(&1));
    assert_eq!(c.get(3), None);
    assert_eq!(c.into_inner(), vec![3, 1, 2]);
}

#[test]
fn filter_keeps_matching_in_order() {
    let c = Collection::from_vec(vec![5, 2, 8, 1, 6]);
    let even = c.filter(|x| *x % 2 == 0);
    assert_eq!(even.all(), &vec![2, 8, 6]);
    assert_eq!(c.all(), &vec![5, 2, 8, 1, 6]);
}

#[test]
fn filter_of_strings_clones_items() {
    let c = Collection::from_vec(vec!["ab".to_string(), "c".to_string(), "de".to_string()]);
    let long = c.filter(|s| s.len() == 2);
    assert_eq!(long.into_inner(), vec!["ab".to_string(), "de".to_string()]);
    assert_eq!(c.len(), 3);
}

#[test]
fn filter_on_empty_and_none_kept() {
    let e: Collection<i32> = Collection::new();
    assert!(e.filter(|_| true).is_empty());
    let c = Collection::from_vec(vec![1, 2, 3]);
    assert!(c.filter(|_| false).is_empty());
}

#[test]
fn map_applies_to_each_item() {
    let c = Collection::from_vec(vec![1, 2, 3]);
    let d = c.map(|x| x * 10);
    assert_eq!(d.all(), &vec![10, 20, 30]);
    let s = c.map(|x| format!("#{}", x));
    assert_eq!(s.len(), 3);
    assert_eq!(s.get(2), Some(&"#3".to_string()));
    assert_eq!(c.all(), &vec![1, 2, 3]);
}

#[test]
fn map_with_stateful_closure_calls_in_order() {
    let c = Collection::from_vec(vec![7, 7, 7]);
    let mut n = 0;
    let d = c.map(|x| {
        n += 1;
        x + n
    });
    assert_eq!(d.all(), &vec![8, 9, 10]);
}
