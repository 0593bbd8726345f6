use liquidators::editor_client::EditorClient;

fn editor() -> EditorClient<(i32, i32)> {
    EditorClient::new((0, 0))
}

#[test]
fn toggle_physics_on_release() {
    let mut e = editor();
    e.toggle_physics(false);
    assert!(!e.enable_physics);
    e.toggle_physics(true);
    assert!(e.enable_physics);
    e.toggle_physics(true);
    assert!(!e.enable_physics);
}

#[test]
fn selection_keeps_order_and_adds_new() {
    let mut e = editor();
    e.first_point = Some((0, 0));
    e.second_point = Some((9, 9));
    e.select_physics_objects(&vec![5, 2, 5, 9]);
    assert_eq!(e.selected_physics_objects, vec![5, 2, 9]);
    e.select_physics_objects(&vec![9, 7, 5]);
    assert_eq!(e.selected_physics_objects, vec![5, 9, 7]);
    // without a second corner the selection clears, whatever was found
    e.second_point = None;
    e.select_physics_objects(&vec![9, 7, 5]);
    assert!(e.selected_physics_objects.is_empty());
}

#[test]
fn joint_pairs_are_consecutive() {
    let mut e = editor();
    assert!(e.joint_selected_bodies().is_empty());
    e.selected_physics_objects = vec![4];
    assert!(e.joint_selected_bodies().is_empty());
    e.selected_physics_objects = vec![4, 8, 1];
    assert_eq!(e.joint_selected_bodies(), vec![(4, 8), (8, 1)]);
}

#[test]
fn drag_select_sequence() {
    let mut e = editor();
    // without shift nothing starts
    e.create_drag_select(false, false, true, (1, 1));
    assert_eq!(e.first_point, None);
    // shift + press: both corners at the mouse
    e.create_drag_select(false, true, true, (1, 2));
    assert_eq!(e.first_point, Some((1, 2)));
    assert_eq!(e.second_point, Some((1, 2)));
    assert!(!e.released);
    // holding moves the second corner only
    e.create_drag_select(false, true, true, (5, 6));
    assert_eq!(e.first_point, Some((1, 2)));
    assert_eq!(e.second_point, Some((5, 6)));
    // release
    e.create_drag_select(false, true, false, (5, 6));
    assert!(e.released);
    assert_eq!(e.second_point, Some((5, 6)));
    // escape clears
    e.create_drag_select(true, false, false, (0, 0));
    assert_eq!(e.first_point, None);
    assert_eq!(e.second_point, None);
}

#[test]
fn paste_once_per_press() {
    let mut e = editor();
    assert!(!e.paste_copied_structures(false));
    assert!(e.paste_copied_structures(true));
    assert!(!e.paste_copied_structures(true));
    assert!(!e.paste_copied_structures(false));
    assert!(e.paste_copied_structures(true));
}

#[test]
fn new_editor_starts_empty() {
    let e = editor();
    assert!(!e.enable_physics);
    assert!(e.selected_physics_objects.is_empty());
    assert!(e.clipboard.is_empty());
    assert_eq!(e.first_point, None);
    assert_eq!(e.second_point, None);
    assert!(e.released);
    assert!(!e.pasted);
    assert_eq!(e.copy_mouse_position, (0, 0));
}

#[test]
fn highlight_and_delete_only_selected() {
    let mut e = editor();
    e.selected_physics_objects = vec![7, 3];
    let level = vec![1, 3, 5, 7, 9];
    assert_eq!(e.highlight_selected_physics_objects(&level), vec![3, 7]);
    assert!(e.delete_selected_structures(false, &level).is_empty());
    assert_eq!(e.delete_selected_structures(true, &level), vec![3, 7]);
    // the selection stays
    assert_eq!(e.selected_physics_objects, vec![7, 3]);
}

#[test]
fn copy_takes_selected_and_first_corner() {
    let mut e = editor();
    e.selected_physics_objects = vec![2, 4];
    e.first_point = Some((10, 20));
    let level = vec![4, 6, 2];
    e.copy_selected_structures(false, &level);
    assert!(e.clipboard.is_empty());
    assert_eq!(e.copy_mouse_position, (0, 0));
    e.copy_selected_structures(true, &level);
    assert_eq!(e.clipboard, vec![4, 2]);
    assert_eq!(e.copy_mouse_position, (10, 20));
}

#[test]
fn paste_once_while_held() {
    let mut e = editor();
    let pastes: Vec<bool> = [false, true, true, true, false, true]
        .iter()
        .map(|&down| e.paste_copied_structures(down))
        .collect();
    assert_eq!(pastes, vec![false, true, false, false, false, true]);
}
