use placeholder_layout::placeholder::{collect_items, has_eltid, PlaceholderItem};

fn item(eltid: &str, src: &str, x: i32, y: i32, w: i32, h: i32) -> PlaceholderItem {
    PlaceholderItem::new(eltid.to_string(), src.to_string(), x, y, w, h)
}

fn ids(items: &[PlaceholderItem]) -> Vec<String> {
    items.iter().map(|it| it.eltid.clone()).collect()
}

#[test]
fn no_placeholders_gives_empty_manifest() {
    let layout = collect_items(Vec::new(), Vec::new());
    assert!(layout.items.is_empty());
}

#[test]
fn single_placeholder_found_by_both_passes() {
    // one element matched by both passes, with its geometry given directly
    let first = vec![item("a1", "x.png", 0, 0, 400, 0)];
    let second = vec![item("a1", "x.png", 0, 0, 400, 0)];
    let layout = collect_items(first, second);
    assert_eq!(layout.items.len(), 1);
    let it = &layout.items[0];
    assert_eq!(it.eltid, "a1");
    assert_eq!(it.src, "x.png");
    assert_eq!((it.x, it.y, it.w, it.h), (0, 0, 400, 0));
}

#[test]
fn duplicate_keeps_first_pass_geometry() {
    let first = vec![item("a1", "x.png", 5, 6, 7, 8)];
    let second = vec![item("a1", "other.png", 50, 60, 70, 80)];
    let layout = collect_items(first, second);
    assert_eq!(layout.items.len(), 1);
    let it = &layout.items[0];
    assert_eq!(it.src, "x.png");
    assert_eq!((it.x, it.y, it.w, it.h), (5, 6, 7, 8));
}

#[test]
fn empty_eltid_appears_once_per_pass() {
    let first = vec![item("", "p.png", 1, 2, 3, 4)];
    let second = vec![item("", "p.png", 1, 2, 3, 4), item("", "q.png", 9, 9, 9, 9)];
    let layout = collect_items(first, second);
    assert_eq!(layout.items.len(), 3);
    assert_eq!(layout.items[1].src, "p.png");
    assert_eq!(layout.items[2].src, "q.png");
}

#[test]
fn second_pass_items_keep_order_and_dedup_among_themselves() {
    let first = vec![item("a", "a.png", 0, 0, 1, 1)];
    let second = vec![
        item("b", "b.png", 0, 10, 1, 1),
        item("a", "dup.png", 0, 20, 1, 1),
        item("c", "c.png", 0, 30, 1, 1),
        item("b", "b2.png", 0, 40, 1, 1),
    ];
    let layout = collect_items(first, second);
    assert_eq!(ids(&layout.items), vec!["a", "b", "c"]);
    assert_eq!(layout.items[1].y, 10);
    assert_eq!(layout.items[2].y, 30);
}

#[test]
fn class_pass_duplicates_are_all_kept() {
    let first = vec![item("a", "1.png", 0, 0, 1, 1), item("a", "2.png", 0, 5, 1, 1)];
    let layout = collect_items(first, vec![item("a", "3.png", 0, 9, 1, 1)]);
    assert_eq!(layout.items.len(), 2);
    assert_eq!(layout.items[1].src, "2.png");
}

#[test]
fn non_negative_geometry_is_carried_over() {
    let first = vec![item("a", "a.png", 3, 4, 5, 6)];
    let second = vec![item("b", "b.png", 7, 8, 9, 10)];
    let layout = collect_items(first, second);
    for it in &layout.items {
        assert!(it.x >= 0 && it.y >= 0 && it.w >= 0 && it.h >= 0);
    }
    assert_eq!((layout.items[1].x, layout.items[1].h), (7, 10));
}

#[test]
fn has_eltid_ignores_empty_identifier() {
    let items = vec![item("", "p.png", 0, 0, 0, 0), item("z", "z.png", 0, 0, 0, 0)];
    assert!(!has_eltid(&items, &String::new()));
    assert!(has_eltid(&items, &"z".to_string()));
    assert!(!has_eltid(&items, &"y".to_string()));
}

#[test]
fn duplicate_copies_every_field() {
    let a = item("k", "s.png", -1, 2, 3, 4);
    let b = a.duplicate();
    assert_eq!((b.eltid.as_str(), b.src.as_str(), b.x, b.y, b.w, b.h), ("k", "s.png", -1, 2, 3, 4));
}
