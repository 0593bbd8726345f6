use liquidators::menu::{Menu, MenuItem};
use liquidators::physics_square::PhysicsSquare;

fn item(text: &str, hovered: bool, clicked: bool) -> MenuItem {
    MenuItem { text: text.to_string(), hovered, clicked }
}

#[test]
fn menu_item_update_follows_mouse() {
    let mut it = item("Delete", false, false);
    it.update(true, false);
    assert!(it.hovered);
    assert!(it.clicked);
    it.update(true, true);
    assert!(it.hovered);
    assert!(!it.clicked);
    it.update(false, false);
    assert!(!it.hovered);
    assert!(!it.clicked);
    assert_eq!(it.text, "Delete");
}

#[test]
fn menu_buttons_stack_and_update() {
    let mut m = Menu::new();
    assert!(m.get_menu_items().is_empty());
    m.add_button("Delete".to_string());
    m.add_button("Copy".to_string());
    let items = m.get_menu_items();
    assert_eq!(items.len(), 2);
    assert_eq!(items[0].text, "Delete");
    assert_eq!(items[1].text, "Copy");
    assert!(!items[0].hovered && !items[0].clicked);
    m.update(&vec![false, true], false);
    let items = m.get_menu_items();
    assert!(!items[0].hovered && !items[0].clicked);
    assert!(items[1].hovered && items[1].clicked);
}

fn square() -> PhysicsSquare {
    PhysicsSquare::new(&"me".to_string(), true)
}

#[test]
fn new_square_has_no_menu() {
    let s = square();
    assert_eq!(s.scale, 1);
    assert_eq!(s.owner, "me");
    assert!(s.controllable);
    assert!(s.menu.is_none());
    assert!(!s.selected);
    assert!(!s.dragging);
}

#[test]
fn spawned_menu_has_delete_button() {
    let mut s = square();
    s.spawn_menu();
    let items = s.menu.as_ref().unwrap().get_menu_items();
    assert_eq!(items.len(), 1);
    assert_eq!(items[0].text, "Delete");
}

#[test]
fn untouched_delete_menu_removes_square() {
    let mut s = square();
    s.spawn_menu();
    assert!(s.handle_menu().is_none());
}

#[test]
fn clicked_and_hovered_delete_keeps_square() {
    let mut s = square();
    s.spawn_menu();
    s.get_menu().as_mut().unwrap().update(&vec![true], false);
    let kept = s.handle_menu();
    assert!(kept.is_some());
    assert_eq!(kept.unwrap().owner, "me");
}

#[test]
fn first_unclicked_button_decides() {
    let mut s = square();
    let mut m = Menu::new();
    m.add_button("Copy".to_string());
    m.add_button("Delete".to_string());
    s.menu = Some(m);
    // "Copy" is neither clicked nor hovered: it decides, the square stays
    let s = s.handle_menu().unwrap();
    let mut s = s;
    let mut m = Menu::new();
    m.add_button("Copy".to_string());
    m.add_button("Delete".to_string());
    m.update(&vec![true, false], false);
    s.menu = Some(m);
    // "Copy" is clicked and hovered and is skipped; "Delete" decides
    assert!(s.handle_menu().is_none());
}

#[test]
fn menu_without_buttons_keeps_square() {
    let mut s = square();
    s.menu = Some(Menu::new());
    assert!(s.handle_menu().is_some());
}
