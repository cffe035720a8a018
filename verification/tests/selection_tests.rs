use swarmfs_tui::widgets::MultiSelectState;

fn keys(names: &[&str]) -> Vec<String> {
    names.iter().map(|s| s.to_string()).collect()
}

/// The selection that holds exactly `names`, as `selected` shows it.
fn set(names: &[&str]) -> Vec<String> {
    let mut sorted = keys(names);
    sorted.sort();
    sorted.dedup();
    sorted
}

#[test]
fn range_select_then_retain() {
    let list = keys(&["a", "b", "c", "d", "e"]);
    let mut selection = MultiSelectState::default();
    selection.set_anchor(Some(1));
    selection.range_select(&list, 3);
    assert_eq!(selection.selected(), &set(&["b", "c", "d"]));
    selection.retain_existing(&set(&["a", "c", "e"]));
    assert_eq!(selection.selected(), &set(&["c"]));
}

#[test]
fn range_select_goes_either_way_and_adds() {
    let list = keys(&["a", "b", "c", "d", "e"]);
    let mut selection = MultiSelectState::default();
    selection.toggle("e".to_string(), 3);
    selection.range_select(&list, 1);
    assert_eq!(selection.selected(), &set(&["b", "c", "d", "e"]));
    // The anchor stays where it was.
    selection.range_select(&list, 3);
    assert_eq!(selection.selected(), &set(&["b", "c", "d", "e"]));
    selection.range_select(&list, 0);
    assert_eq!(selection.selected(), &set(&["a", "b", "c", "d", "e"]));
}

#[test]
fn range_select_without_anchor_selects_the_target() {
    let list = keys(&["a", "b", "c"]);
    let mut selection = MultiSelectState::default();
    selection.toggle("a".to_string(), 0);
    selection.set_anchor(None);
    selection.range_select(&list, 2);
    assert_eq!(selection.selected(), &set(&["c"]));
    // The target became the anchor.
    selection.range_select(&list, 1);
    assert_eq!(selection.selected(), &set(&["b", "c"]));

    let mut selection = MultiSelectState::default();
    selection.toggle("a".to_string(), 0);
    selection.set_anchor(None);
    selection.range_select(&list, 3);
    assert_eq!(selection.selected(), &set(&["a"]));
}

#[test]
fn range_select_stops_at_the_end_of_the_list() {
    let list = keys(&["a", "b", "c"]);
    let mut selection = MultiSelectState::default();
    selection.set_anchor(Some(1));
    selection.range_select(&list, usize::MAX);
    assert_eq!(selection.selected(), &set(&["b", "c"]));
    let mut selection = MultiSelectState::default();
    selection.set_anchor(Some(7));
    selection.range_select(&list, 9);
    assert!(selection.selected().is_empty());
    selection.range_select(&[], 0);
    assert!(selection.selected().is_empty());
}

#[test]
fn toggle_set_single_and_clear() {
    let mut selection = MultiSelectState::default();
    assert!(!selection.is_selected("a"));
    selection.toggle("a".to_string(), 0);
    selection.toggle("b".to_string(), 1);
    assert!(selection.is_selected("a"));
    selection.toggle("a".to_string(), 0);
    assert_eq!(selection.selected(), &set(&["b"]));
    selection.set_single("z".to_string(), 5);
    assert_eq!(selection.selected(), &set(&["z"]));
    selection.clear();
    assert!(selection.selected().is_empty());
    // After `clear` there is no anchor: a range selects its target alone.
    selection.range_select(&keys(&["a", "b", "c"]), 1);
    assert_eq!(selection.selected(), &set(&["b"]));
}

#[test]
fn select_all_and_invert_use_the_whole_list() {
    let list = keys(&["a", "b", "c", "b"]);
    let mut selection = MultiSelectState::default();
    selection.toggle("x".to_string(), 0);
    selection.select_all(&list);
    assert_eq!(selection.selected(), &set(&["a", "b", "c"]));
    selection.toggle("b".to_string(), 1);
    selection.invert(&list);
    assert_eq!(selection.selected(), &set(&["b"]));
    selection.toggle("outside".to_string(), 1);
    selection.invert(&list);
    assert_eq!(selection.selected(), &set(&["a", "c"]));
    selection.invert(&[]);
    assert!(selection.selected().is_empty());
}

#[test]
fn retain_with_an_empty_list_drops_the_anchor() {
    let list = keys(&["a", "b", "c"]);
    let mut selection = MultiSelectState::default();
    selection.toggle("a".to_string(), 0);
    selection.retain_existing(&set(&["a", "b"]));
    selection.range_select(&list, 1);
    // The anchor was kept: the range runs from it.
    assert_eq!(selection.selected(), &set(&["a", "b"]));
    selection.retain_existing(&[]);
    assert!(selection.selected().is_empty());
    selection.range_select(&list, 2);
    assert_eq!(selection.selected(), &set(&["c"]));
}

#[test]
fn selected_keys_come_in_dictionary_order() {
    let mut selection = MultiSelectState::default();
    for key in ["pear", "Zebra", "apple", "pear", "app", "\u{e9}t\u{e9}", "apple pie", ""] {
        selection.toggle(key.to_string(), 0);
    }
    // "pear" was toggled twice.
    assert_eq!(
        selection.selected(),
        &keys(&["", "Zebra", "app", "apple", "apple pie", "\u{e9}t\u{e9}"])
    );
    let mut by_std = selection.selected().clone();
    by_std.sort();
    assert_eq!(selection.selected(), &by_std);
    selection.select_all(&keys(&["b", "a", "b", "c", "a"]));
    assert_eq!(selection.selected(), &keys(&["a", "b", "c"]));
}
