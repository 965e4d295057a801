use brackets_ast::sticky_scroll::{sticky_lines_from_starts, PinnedItem, StickyLine};

#[test]
fn pinned_item_contains_its_bounds_inclusively() {
    let item = PinnedItem::new(3, 10, 0, String::from("fn outer"));
    assert!(item.contains(3));
    assert!(item.contains(7));
    assert!(item.contains(10));
    assert!(!item.contains(2));
    assert!(!item.contains(11));
}

#[test]
fn pinned_item_with_empty_range_contains_one_offset() {
    let item = PinnedItem::new(4, 4, 2, String::from("{"));
    assert!(item.contains(4));
    assert!(!item.contains(3));
    assert!(!item.contains(5));
}

#[test]
fn sticky_lines_keep_symbol_order() {
    let starts = vec![0u32, 5, 9];
    let lines = sticky_lines_from_starts(&starts);
    assert_eq!(
        lines,
        vec![StickyLine { line: 0 }, StickyLine { line: 5 }, StickyLine { line: 9 }]
    );
    assert!(sticky_lines_from_starts(&Vec::new()).is_empty());
}
