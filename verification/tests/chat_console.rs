use liquidators::chat::Chat;
use liquidators::console::{Console, WindowMove};

#[test]
fn chat_starts_empty() {
    let chat = Chat::new();
    assert!(chat.messages.is_empty());
}

#[test]
fn chat_appends_in_order() {
    let mut chat = Chat::new();
    chat.add_message("Gamer".to_string(), "Test message".to_string());
    chat.add_message("Other".to_string(), "second".to_string());
    assert_eq!(chat.messages.len(), 2);
    assert_eq!(chat.messages[0].author, "Gamer");
    assert_eq!(chat.messages[0].content, "Test message");
    assert_eq!(chat.messages[1].author, "Other");
    assert_eq!(chat.messages[1].content, "second");
}

#[test]
fn console_logs_and_toggles() {
    let mut console = Console::new();
    assert!(!console.enabled);
    console.log("rounds: 12".to_string());
    console.log("reserve: 24".to_string());
    assert_eq!(console.messages, vec!["rounds: 12".to_string(), "reserve: 24".to_string()]);
    console.toggle();
    assert!(console.enabled);
    console.toggle();
    assert!(!console.enabled);
    assert_eq!(console.messages.len(), 2);
}

#[test]
fn console_window_drag_steps() {
    let mut c = Console::new();
    // hidden: the mouse does nothing
    assert_eq!(c.move_window(true, false, true), WindowMove::Stay);
    c.toggle();
    // outside and not dragging: nothing
    assert_eq!(c.move_window(false, false, true), WindowMove::Stay);
    // inside, button held: the drag starts
    assert_eq!(c.move_window(true, false, true), WindowMove::Grab);
    // dragging goes on even when the mouse leaves the window
    assert_eq!(c.move_window(false, true, true), WindowMove::Follow);
    // letting go ends it
    assert_eq!(c.move_window(false, true, false), WindowMove::Release);
    assert_eq!(c.move_window(true, false, false), WindowMove::Release);
}
