use autodesk::{Direction, InputAction, InputController, Key, MouseButton, ScrollAxis};

#[test]
fn named_keys_map() {
    let cases = [
        ("Enter", Key::Return),
        ("Backspace", Key::Backspace),
        ("Tab", Key::Tab),
        ("Escape", Key::Escape),
        ("Space", Key::Space),
        ("ArrowUp", Key::UpArrow),
        ("ArrowDown", Key::DownArrow),
        ("ArrowLeft", Key::LeftArrow),
        ("ArrowRight", Key::RightArrow),
        ("Shift", Key::Shift),
        ("Control", Key::Control),
        ("Alt", Key::Alt),
        ("Meta", Key::Meta),
        ("Delete", Key::Delete),
        ("Home", Key::Home),
        ("End", Key::End),
        ("PageUp", Key::PageUp),
        ("PageDown", Key::PageDown),
    ];
    for (name, key) in cases {
        assert_eq!(InputController::map_key(name), key);
    }
}

#[test]
fn single_characters_map_to_unicode() {
    assert_eq!(InputController::map_key("a"), Key::Unicode('a'));
    assert_eq!(InputController::map_key("Z"), Key::Unicode('Z'));
    assert_eq!(InputController::map_key(" "), Key::Unicode(' '));
    assert_eq!(InputController::map_key("é"), Key::Unicode('é'));
    assert_eq!(InputController::map_key("中"), Key::Unicode('中'));
}

#[test]
fn unknown_keys_map_to_question_mark() {
    assert_eq!(InputController::map_key("F13"), Key::Unicode('?'));
    assert_eq!(InputController::map_key(""), Key::Unicode('?'));
    assert_eq!(InputController::map_key("enter"), Key::Unicode('?'));
}

#[test]
fn mouse_click_actions() {
    assert_eq!(
        InputController::mouse_click("left", true),
        vec![InputAction::Button { button: MouseButton::Left, direction: Direction::Press }]
    );
    assert_eq!(
        InputController::mouse_click("right", false),
        vec![InputAction::Button { button: MouseButton::Right, direction: Direction::Release }]
    );
    assert_eq!(
        InputController::mouse_click("middle", true),
        vec![InputAction::Button { button: MouseButton::Middle, direction: Direction::Press }]
    );
    assert!(InputController::mouse_click("back", true).is_empty());
}

#[test]
fn mouse_scroll_actions() {
    assert!(InputController::mouse_scroll(0, 0).is_empty());
    assert_eq!(
        InputController::mouse_scroll(0, -3),
        vec![InputAction::Scroll { amount: -3, axis: ScrollAxis::Vertical }]
    );
    assert_eq!(
        InputController::mouse_scroll(2, 0),
        vec![InputAction::Scroll { amount: 2, axis: ScrollAxis::Horizontal }]
    );
    assert_eq!(
        InputController::mouse_scroll(4, 5),
        vec![
            InputAction::Scroll { amount: 5, axis: ScrollAxis::Vertical },
            InputAction::Scroll { amount: 4, axis: ScrollAxis::Horizontal },
        ]
    );
}

#[test]
fn key_and_move_actions() {
    assert_eq!(
        InputController::key_event("Enter", true),
        vec![InputAction::Key { key: Key::Return, direction: Direction::Press }]
    );
    assert_eq!(
        InputController::key_event("x", false),
        vec![InputAction::Key { key: Key::Unicode('x'), direction: Direction::Release }]
    );
    assert_eq!(InputController::mouse_move(10, -20), vec![InputAction::MoveMouse { x: 10, y: -20 }]);
}
