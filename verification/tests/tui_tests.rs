use rustored::tui::{centered_rect, sort_by_key_descending, text_is_less, Area, SnapshotTable};
use rustored::ui::models::Key;

fn item(key: &str) -> (String, u64, String) {
    (key.to_string(), 1, "2024-01-01".to_string())
}

#[test]
fn table_navigation_wraps() {
    let mut t = SnapshotTable::new();
    t.next();
    assert_eq!(t.state, 0);
    t.items = vec![item("a"), item("b"), item("c")];
    t.next();
    t.next();
    t.next();
    assert_eq!(t.state, 0);
    t.prev();
    assert_eq!(t.state, 2);
    t.next();
    assert_eq!(t.state, 0);
}

#[test]
fn table_keys() {
    let mut t = SnapshotTable::new();
    assert!(!t.handle_key(Key::Enter));
    assert!(!t.show_confirm);
    t.items = vec![item("a"), item("b")];
    assert!(!t.handle_key(Key::Char('h')));
    assert!(t.show_help);
    assert!(!t.handle_key(Key::Down));
    assert_eq!(t.state, 1);
    assert!(!t.handle_key(Key::Enter));
    assert!(t.show_confirm);
    assert!(t.handle_key(Key::Char('q')));
}

#[test]
fn sorted_by_key_descending() {
    let sorted = sort_by_key_descending(vec![item("b"), item("a"), item("c"), item("ab")]);
    let keys: Vec<&str> = sorted.iter().map(|i| i.0.as_str()).collect();
    assert_eq!(keys, vec!["c", "b", "ab", "a"]);
    assert!(text_is_less("a", "ab"));
    assert!(text_is_less("ab", "b"));
    assert!(!text_is_less("b", "b"));
}

#[test]
fn centred_area() {
    let r = Area { x: 0, y: 0, width: 100, height: 50 };
    assert_eq!(centered_rect(60, 20, r), Area { x: 20, y: 20, width: 60, height: 10 });
    let r = Area { x: 5, y: 3, width: 11, height: 7 };
    assert_eq!(centered_rect(50, 50, r), Area { x: 8, y: 5, width: 5, height: 3 });
}
