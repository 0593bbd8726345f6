use liquidators::brick::Brick;
use liquidators::ownership::{claim_all, is_owner, owned_by};

fn ids(v: &[&str]) -> Vec<String> {
    v.iter().map(|s| s.to_string()).collect()
}

#[test]
fn owner_compares_ids() {
    assert!(is_owner(&"a".to_string(), &"a".to_string()));
    assert!(!is_owner(&"a".to_string(), &"b".to_string()));
}

#[test]
fn owned_positions_in_order() {
    let owners = ids(&["me", "you", "me", "them", "me"]);
    assert_eq!(owned_by(&owners, &"me".to_string()), vec![0, 2, 4]);
    assert_eq!(owned_by(&owners, &"you".to_string()), vec![1]);
    assert!(owned_by(&owners, &"nobody".to_string()).is_empty());
    assert!(owned_by(&Vec::new(), &"me".to_string()).is_empty());
}

#[test]
fn reset_claims_everything() {
    let mut owners = vec![None, Some("you".to_string()), Some("me".to_string())];
    claim_all(&mut owners, &"me".to_string());
    assert_eq!(owners, vec![Some("me".to_string()); 3]);
}

#[test]
fn new_brick() {
    let b = Brick::new(Some("me".to_string()));
    assert_eq!(b.owner, Some("me".to_string()));
    assert_eq!(b.editor_owner, None);
    assert_eq!(b.texture_path, "assets/structure/brick.png");
    assert!(!b.selected && !b.dragging);
}

#[test]
fn clicking_a_brick_claims_it_in_the_editor() {
    let mut b = Brick::new(None);
    let editor = "editor-1".to_string();
    b.update_editor_owner(&editor, false, true);
    assert_eq!(b.editor_owner, None);
    b.update_editor_owner(&editor, true, false);
    assert_eq!(b.editor_owner, None);
    b.update_editor_owner(&editor, true, true);
    assert_eq!(b.editor_owner, Some("editor-1".to_string()));
    // another editor takes it over by clicking it
    b.update_editor_owner(&"editor-2".to_string(), true, true);
    assert_eq!(b.editor_owner, Some("editor-2".to_string()));
    assert_eq!(b.owner, None);
}
