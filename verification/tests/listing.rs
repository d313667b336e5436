use adamantium_files::{list_order, name_le};

fn listed(names: &[&str]) -> Vec<String> {
    let bytes: Vec<Vec<u8>> = names.iter().map(|n| n.as_bytes().to_vec()).collect();
    let order = list_order(&bytes);
    order.iter().map(|&i| names[i].to_string()).collect()
}

#[test]
fn directories_are_listed_in_sorted_order() {
    assert_eq!(listed(&["z", "a"]), vec!["a", "z"]);
    assert_eq!(list_order(&vec![b"z".to_vec(), b"a".to_vec()]), vec![1, 0]);
}

#[test]
fn names_are_ordered_by_bytes() {
    assert_eq!(
        listed(&["b", "B", "ab", "a", "a.txt", "_", "10", "9"]),
        vec!["10", "9", "B", "_", "a", "a.txt", "ab", "b"]
    );
    assert!(name_le(&b"a".to_vec(), &b"ab".to_vec()));
    assert!(!name_le(&b"ab".to_vec(), &b"a".to_vec()));
    assert!(name_le(&b"".to_vec(), &b"".to_vec()));
    assert!(name_le(&vec![0x7f], &vec![0x80]));
    assert!(!name_le(&vec![0xff], &vec![0x80, 0x00]));
}

#[test]
fn empty_directory_lists_nothing() {
    assert!(list_order(&Vec::new()).is_empty());
}

#[test]
fn non_utf8_names_are_sorted_too() {
    let names = vec![vec![0xffu8, 0x01], vec![0x61u8], vec![0xc3u8, 0xa9]];
    assert_eq!(list_order(&names), vec![1, 2, 0]);
}

#[test]
fn listing_does_not_depend_on_read_order() {
    let first = listed(&["delta", "alpha", "charlie", "bravo"]);
    let second = listed(&["bravo", "delta", "charlie", "alpha"]);
    assert_eq!(first, second);
    assert_eq!(first, vec!["alpha", "bravo", "charlie", "delta"]);
}

#[test]
fn every_entry_is_listed_once() {
    let names = vec![b"same".to_vec(), b"other".to_vec(), b"same".to_vec()];
    let mut order = list_order(&names);
    assert_eq!(order.len(), 3);
    assert_eq!(names[order[0]], b"other".to_vec());
    order.sort();
    assert_eq!(order, vec![0, 1, 2]);
}
