use weeks_core::ordering::generate_append_key;
use weeks_core::ordering::generate_key_for_after_key;
use weeks_core::ordering::generate_key_for_move_down_with_key;
use weeks_core::ordering::generate_key_for_move_up_with_key;
use weeks_core::ordering::generate_key_for_reordering_item_index;
use weeks_core::ordering::midpoint;
use weeks_core::ordering::needs_reordering;
use weeks_core::ordering::new_ordering;
use weeks_core::ordering::position_of_key;
use weeks_core::ordering::str_lt;

fn keys(v: &[Option<&str>]) -> Vec<Option<String>> {
    v.iter().map(|k| k.map(|s| s.to_string())).collect()
}

#[test]
fn midpoint_is_strictly_between() {
    // ordinary interior bounds
    let k = midpoint("abc", "abd").unwrap();
    assert!("abc".to_string() < k && k < "abd".to_string());
    let k = midpoint("aaa", "aaz").unwrap();
    assert_eq!(k, "aan");
    assert!("aaa".to_string() < k && k < "aaz".to_string());
    // open bounds on either side
    let k = midpoint("", "").unwrap();
    assert_eq!(k, "n");
    let k = midpoint("", "b").unwrap();
    assert!(k < "b".to_string() && !k.is_empty());
    let k = midpoint("zz", "").unwrap();
    assert!("zz".to_string() < k);
}

#[test]
fn midpoint_rejects_bad_bounds() {
    // inverted and equal bounds
    assert!(midpoint("c", "b").is_err());
    assert!(midpoint("b", "b").is_err());
    // characters outside the key alphabet
    assert!(midpoint("A", "b").is_err());
    assert!(midpoint("a", "b0").is_err());
    // an upper bound ending in the lowest letter leaves no room
    assert!(midpoint("", "ba").is_err());
}

#[test]
fn inserting_between_two_keys_stays_between() {
    // an item squeezed between keys "a" and "b"
    let ks = keys(&[Some("a"), Some("b")]);
    let k = generate_key_for_after_key(&ks, &"a".to_string()).unwrap();
    assert!("a".to_string() < k && k < "b".to_string());
}

#[test]
fn repeated_append_gives_increasing_keys() {
    let mut ks: Vec<Option<String>> = Vec::new();
    let mut last = String::new();
    for _ in 0..40 {
        let k = generate_append_key(&ks).unwrap();
        assert!(last < k);
        last = k.clone();
        ks.push(Some(k));
    }
    for i in 1..ks.len() {
        assert!(ks[i - 1].as_ref().unwrap() < ks[i].as_ref().unwrap());
    }
}

#[test]
fn renormalization_assigns_sorted_keys_to_every_slot() {
    // all keys missing
    let mut ks = keys(&[None, None, None, None, None]);
    assert!(needs_reordering(&ks));
    new_ordering(&mut ks);
    assert_eq!(ks.len(), 5);
    for i in 0..ks.len() {
        assert!(ks[i].is_some());
        if i > 0 {
            assert!(ks[i - 1].as_ref().unwrap() < ks[i].as_ref().unwrap());
        }
    }
    // a mix of present and missing keys is renormalized in place
    let mut ks = keys(&[Some("x"), None, Some("b")]);
    assert!(needs_reordering(&ks));
    new_ordering(&mut ks);
    assert!(ks[0].as_ref().unwrap() < ks[1].as_ref().unwrap());
    assert!(ks[1].as_ref().unwrap() < ks[2].as_ref().unwrap());
    // nothing to repair
    let ks = keys(&[Some("b"), Some("c")]);
    assert!(!needs_reordering(&ks));
}

#[test]
fn move_up_then_down_restores_relative_order() {
    // neighbours of the moved item are "d" (above) and "h" (below)
    let ks = keys(&[Some("b"), Some("d"), Some("f"), Some("h")]);
    let k1 = generate_key_for_move_up_with_key(&ks, &"f".to_string()).unwrap();
    assert!("b".to_string() < k1 && k1 < "d".to_string());
    // after the move the list reads b, k1, d, h with the item at slot 1
    let moved = keys(&[Some("b"), Some(&k1), Some("d"), Some("h")]);
    let k2 = generate_key_for_move_down_with_key(&moved, &k1).unwrap();
    assert!("d".to_string() < k2 && k2 < "h".to_string());
}

#[test]
fn move_up_edge_cases() {
    let ks = keys(&[Some("b"), Some("d")]);
    // the first item keeps its own key
    let k = generate_key_for_move_up_with_key(&ks, &"b".to_string()).unwrap();
    assert_eq!(k, "b");
    // the second item moves above the first
    let k = generate_key_for_move_up_with_key(&ks, &"d".to_string()).unwrap();
    assert!(k < "b".to_string());
    // an unknown key is rejected
    assert!(generate_key_for_move_up_with_key(&ks, &"zz".to_string()).is_err());
}

#[test]
fn move_down_edge_cases() {
    let ks = keys(&[Some("b"), Some("d")]);
    let k = generate_key_for_move_down_with_key(&ks, &"d".to_string()).unwrap();
    assert_eq!(k, "d");
    let k = generate_key_for_move_down_with_key(&ks, &"b".to_string()).unwrap();
    assert!("d".to_string() < k);
    assert!(generate_key_for_move_down_with_key(&ks, &"zz".to_string()).is_err());
}

#[test]
fn reorder_by_index_cases() {
    let ks = keys(&[Some("b"), Some("d"), Some("f"), Some("h")]);
    // out-of-range and self-targets are rejected
    assert!(generate_key_for_reordering_item_index(&ks, 4, 0).is_err());
    assert!(generate_key_for_reordering_item_index(&ks, 0, 4).is_err());
    assert!(generate_key_for_reordering_item_index(&ks, 2, 2).is_err());
    // drag to the very top
    let k = generate_key_for_reordering_item_index(&ks, 2, 0).unwrap();
    assert!(k < "b".to_string());
    // drag to the very bottom
    let k = generate_key_for_reordering_item_index(&ks, 0, 3).unwrap();
    assert!("h".to_string() < k);
    // drag upward between two keys
    let k = generate_key_for_reordering_item_index(&ks, 3, 1).unwrap();
    assert!("b".to_string() < k && k < "d".to_string());
    // drag downward between two keys
    let k = generate_key_for_reordering_item_index(&ks, 0, 2).unwrap();
    assert!("f".to_string() < k && k < "h".to_string());
    // a missing key at the destination is rejected
    let with_hole = keys(&[None, Some("d"), Some("f")]);
    assert!(generate_key_for_reordering_item_index(&with_hole, 2, 0).is_err());
}

#[test]
fn key_generation_is_deterministic() {
    // equal bounds give the identical key on every call
    assert_eq!(midpoint("b", "d"), midpoint("b", "d"));
    assert_eq!(midpoint("", ""), midpoint("", ""));
    let ks = keys(&[Some("b"), Some("d"), Some("f")]);
    assert_eq!(generate_append_key(&ks), generate_append_key(&ks));
    assert_eq!(
        generate_key_for_after_key(&ks, &"b".to_string()),
        generate_key_for_after_key(&ks, &"b".to_string())
    );
    // renormalizing two lists of equal length assigns the same keys
    let mut a = keys(&[None, None, None]);
    let mut b = keys(&[Some("q"), None, Some("c")]);
    new_ordering(&mut a);
    new_ordering(&mut b);
    assert_eq!(a, b);
}

#[test]
fn string_comparison_and_search() {
    assert!(str_lt("a", "b"));
    assert!(str_lt("a", "ab"));
    assert!(!str_lt("b", "ab"));
    assert!(!str_lt("a", "a"));
    let ks = keys(&[Some("b"), None, Some("d")]);
    assert_eq!(position_of_key(&ks, &"d".to_string()), Some(2));
    assert_eq!(position_of_key(&ks, &"x".to_string()), None);
}
