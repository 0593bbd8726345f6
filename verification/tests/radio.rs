use liquidators::radio::RadioBuilder;

#[test]
fn radio_defaults() {
    let radio = RadioBuilder::<u32, u64, (i32, i32)>::new(3, 4).build((0, 0));
    assert_eq!(radio.rigid_body_handle, 3);
    assert_eq!(radio.collider_handle, 4);
    assert!(!radio.selected);
    assert!(!radio.dragging);
    assert_eq!(radio.drag_offset, Some((0, 0)));
    assert_eq!(radio.owner, None);
    assert_eq!(radio.editor_owner, None);
    assert_eq!(radio.texture_path, "assets/structure/radio_on.png");
}

#[test]
fn radio_setters_override_defaults() {
    let radio = RadioBuilder::<u32, u64, (i32, i32)>::new(3, 4)
        .rigid_body_handle(7)
        .collider_handle(8)
        .selected(true)
        .dragging(true)
        .drag_offset((5, -2))
        .owner("me".to_string())
        .editor_owner("editor".to_string())
        .texture_path("assets/structure/radio_off.png".to_string())
        .build((0, 0));
    assert_eq!(radio.rigid_body_handle, 7);
    assert_eq!(radio.collider_handle, 8);
    assert!(radio.selected);
    assert!(radio.dragging);
    assert_eq!(radio.drag_offset, Some((5, -2)));
    assert_eq!(radio.owner, Some("me".to_string()));
    assert_eq!(radio.editor_owner, Some("editor".to_string()));
    assert_eq!(radio.texture_path, "assets/structure/radio_off.png");
}

#[test]
fn only_the_editor_owner_edits_a_radio() {
    let radio = RadioBuilder::<u32, u64, (i32, i32)>::new(1, 2)
        .editor_owner("editor".to_string())
        .build((0, 0));
    assert!(radio.tick_editor(&"editor".to_string()));
    assert!(!radio.tick_editor(&"someone".to_string()));
}
