//! Remote input events, as the controlling side names them, mapped onto the
//! keyboard and mouse actions the controlled machine performs.
use vstd::prelude::*;
use vstd::string::*;

use crate::text::str_equal;

verus! {

/// A mouse button.
#[derive(Debug, Clone, Copy, PartialEq, Eq, Structural)]
pub enum MouseButton {
    Left,
    Right,
    Middle,
}

/// Whether a button or key goes down or comes up.
#[derive(Debug, Clone, Copy, PartialEq, Eq, Structural)]
pub enum Direction {
    Press,
    Release,
}

/// The axis a scroll moves along.
#[derive(Debug, Clone, Copy, PartialEq, Eq, Structural)]
pub enum ScrollAxis {
    Horizontal,
    Vertical,
}

/// A key of the controlled machine's keyboard.
#[derive(Debug, Clone, Copy, PartialEq, Eq, Structural)]
pub enum Key {
    Return,
    Backspace,
    Tab,
    Escape,
    Space,
    UpArrow,
    DownArrow,
    LeftArrow,
    RightArrow,
    Shift,
    Control,
    Alt,
    Meta,
    Delete,
    Home,
    End,
    PageUp,
    PageDown,
    /// The key that types this character.
    Unicode(char),
}

/// One action on the controlled machine's input devices.
#[derive(Debug, Clone, Copy, PartialEq, Eq, Structural)]
pub enum InputAction {
    /// Move the pointer to absolute screen coordinates.
    MoveMouse { x: i32, y: i32 },
    /// Press or release a mouse button.
    Button { button: MouseButton, direction: Direction },
    /// Scroll by `amount` steps along `axis`.
    Scroll { amount: i32, axis: ScrollAxis },
    /// Press or release a key.
    Key { key: Key, direction: Direction },
}

/// The key that a browser key name stands for: the named keys map to their
/// keys, a single character to the key that types it, anything else to `?`.
pub open spec fn key_for(name: Seq<char>) -> Key {
    if name == "Enter"@ {
        Key::Return
    } else if name == "Backspace"@ {
        Key::Backspace
    } else if name == "Tab"@ {
        Key::Tab
    } else if name == "Escape"@ {
        Key::Escape
    } else if name == "Space"@ {
        Key::Space
    } else if name == "ArrowUp"@ {
        Key::UpArrow
    } else if name == "ArrowDown"@ {
        Key::DownArrow
    } else if name == "ArrowLeft"@ {
        Key::LeftArrow
    } else if name == "ArrowRight"@ {
        Key::RightArrow
    } else if name == "Shift"@ {
        Key::Shift
    } else if name == "Control"@ {
        Key::Control
    } else if name == "Alt"@ {
        Key::Alt
    } else if name == "Meta"@ {
        Key::Meta
    } else if name == "Delete"@ {
        Key::Delete
    } else if name == "Home"@ {
        Key::Home
    } else if name == "End"@ {
        Key::End
    } else if name == "PageUp"@ {
        Key::PageUp
    } else if name == "PageDown"@ {
        Key::PageDown
    } else if name.len() == 1 {
        Key::Unicode(name[0])
    } else {
        Key::Unicode('?')
    }
}

/// The mouse button a button name stands for, if any.
pub open spec fn button_for(name: Seq<char>) -> Option<MouseButton> {
    if name == "left"@ {
        Some(MouseButton::Left)
    } else if name == "right"@ {
        Some(MouseButton::Right)
    } else if name == "middle"@ {
        Some(MouseButton::Middle)
    } else {
        None
    }
}

/// Press when going down, release otherwise.
pub open spec fn direction_for(is_down: bool) -> Direction {
    if is_down {
        Direction::Press
    } else {
        Direction::Release
    }
}

/// The scroll actions for a wheel event: vertical first, then horizontal,
/// each only when its amount is not zero.
pub open spec fn scroll_actions(x: i32, y: i32) -> Seq<InputAction> {
    let v = if y != 0 {
        seq![InputAction::Scroll { amount: y, axis: ScrollAxis::Vertical }]
    } else {
        Seq::empty()
    };
    if x != 0 {
        v.push(InputAction::Scroll { amount: x, axis: ScrollAxis::Horizontal })
    } else {
        v
    }
}

/// The mouse button a button name stands for, if any.
pub fn parse_button(name: &str) -> (r: Option<MouseButton>)
    ensures
        r == button_for(name@),
{
    if str_equal(name, "left") {
        Some(MouseButton::Left)
    } else if str_equal(name, "right") {
        Some(MouseButton::Right)
    } else if str_equal(name, "middle") {
        Some(MouseButton::Middle)
    } else {
        None
    }
}

/// Press when going down, release otherwise.
pub fn direction(is_down: bool) -> (r: Direction)
    ensures
        r == direction_for(is_down),
{
    if is_down {
        Direction::Press
    } else {
        Direction::Release
    }
}

/// Maps the input events the controlling side sends onto device actions.
pub struct InputController;

impl InputController {
    /// Maps a browser key name onto a key.
    pub fn map_key(key_code: &str) -> (r: Key)
        ensures
            r == key_for(key_code@),
    {
        if str_equal(key_code, "Enter") {
            Key::Return
        } else if str_equal(key_code, "Backspace") {
            Key::Backspace
        } else if str_equal(key_code, "Tab") {
            Key::Tab
        } else if str_equal(key_code, "Escape") {
            Key::Escape
        } else if str_equal(key_code, "Space") {
            Key::Space
        } else if str_equal(key_code, "ArrowUp") {
            Key::UpArrow
        } else if str_equal(key_code, "ArrowDown") {
            Key::DownArrow
        } else if str_equal(key_code, "ArrowLeft") {
            Key::LeftArrow
        } else if str_equal(key_code, "ArrowRight") {
            Key::RightArrow
        } else if str_equal(key_code, "Shift") {
            Key::Shift
        } else if str_equal(key_code, "Control") {
            Key::Control
        } else if str_equal(key_code, "Alt") {
            Key::Alt
        } else if str_equal(key_code, "Meta") {
            Key::Meta
        } else if str_equal(key_code, "Delete") {
            Key::Delete
        } else if str_equal(key_code, "Home") {
            Key::Home
        } else if str_equal(key_code, "End") {
            Key::End
        } else if str_equal(key_code, "PageUp") {
            Key::PageUp
        } else if str_equal(key_code, "PageDown") {
            Key::PageDown
        } else if key_code.unicode_len() == 1 {
            Key::Unicode(key_code.get_char(0))
        } else {
            Key::Unicode('?')
        }
    }

    /// Moving the pointer to absolute coordinates.
    pub fn mouse_move(x: i32, y: i32) -> (r: Vec<InputAction>)
        ensures
            r@ == seq![InputAction::MoveMouse { x, y }],
    {
        let r = vec![InputAction::MoveMouse { x, y }];
        assert(r@ =~= seq![InputAction::MoveMouse { x, y }]);
        r
    }

    /// A mouse button going down or up; an unknown button name does nothing.
    pub fn mouse_click(button: &str, is_down: bool) -> (r: Vec<InputAction>)
        ensures
            r@ == match button_for(button@) {
                Some(b) => seq![InputAction::Button { button: b, direction: direction_for(is_down) }],
                None => Seq::<InputAction>::empty(),
            },
    {
        let mut r: Vec<InputAction> = Vec::new();
        match parse_button(button) {
            Some(b) => {
                r.push(InputAction::Button { button: b, direction: direction(is_down) });
            },
            None => {},
        }
        proof {
            match button_for(button@) {
                Some(b) => assert(r@ =~= seq![InputAction::Button { button: b, direction: direction_for(is_down) }]),
                None => assert(r@ =~= Seq::<InputAction>::empty()),
            }
        }
        r
    }

    /// A wheel event: a vertical scroll by `y`, then a horizontal one by `x`,
    /// each only when not zero.
    pub fn mouse_scroll(x: i32, y: i32) -> (r: Vec<InputAction>)
        ensures
            r@ == scroll_actions(x, y),
    {
        let mut r: Vec<InputAction> = Vec::new();
        if y != 0 {
            r.push(InputAction::Scroll { amount: y, axis: ScrollAxis::Vertical });
        }
        if x != 0 {
            r.push(InputAction::Scroll { amount: x, axis: ScrollAxis::Horizontal });
        }
        assert(r@ =~= scroll_actions(x, y));
        r
    }

    /// A key going down or up.
    pub fn key_event(key_code: &str, is_down: bool) -> (r: Vec<InputAction>)
        ensures
            r@ == seq![InputAction::Key { key: key_for(key_code@), direction: direction_for(is_down) }],
    {
        let key = Self::map_key(key_code);
        let r = vec![InputAction::Key { key, direction: direction(is_down) }];
        assert(r@ =~= seq![InputAction::Key { key: key_for(key_code@), direction: direction_for(is_down) }]);
        r
    }
}

} // verus!

verus! {

/// A wheel event gives at most one action per axis, vertical first, each
/// carrying exactly the wheel's amount on that axis, sign included, and
/// nothing for an axis whose amount is zero.
pub proof fn law_scroll_carries_wheel_amounts(x: i32, y: i32)
    ensures
        scroll_actions(x, y).len() == (if y != 0 { 1int } else { 0int }) + (if x != 0 { 1int } else { 0int }),
        y != 0 ==> scroll_actions(x, y)[0] == (InputAction::Scroll { amount: y, axis: ScrollAxis::Vertical }),
        x != 0 ==> scroll_actions(x, y).last() == (InputAction::Scroll {
            amount: x,
            axis: ScrollAxis::Horizontal,
        }),
        forall|i: int|
            0 <= i < scroll_actions(x, y).len() ==> match #[trigger] scroll_actions(x, y)[i] {
                InputAction::Scroll { amount, axis } => amount != 0 && (axis == ScrollAxis::Vertical
                    ==> amount == y) && (axis == ScrollAxis::Horizontal ==> amount == x),
                _ => false,
            },
{
}

/// Every one-character name, whatever the character, maps to the key that
/// types that same character: no named key has a one-character name.
pub proof fn law_single_character_types_itself(name: Seq<char>)
    requires
        name.len() == 1,
    ensures
        key_for(name) == Key::Unicode(name[0]),
{
    reveal_strlit("Enter");
    reveal_strlit("Backspace");
    reveal_strlit("Tab");
    reveal_strlit("Escape");
    reveal_strlit("Space");
    reveal_strlit("ArrowUp");
    reveal_strlit("ArrowDown");
    reveal_strlit("ArrowLeft");
    reveal_strlit("ArrowRight");
    reveal_strlit("Shift");
    reveal_strlit("Control");
    reveal_strlit("Alt");
    reveal_strlit("Meta");
    reveal_strlit("Delete");
    reveal_strlit("Home");
    reveal_strlit("End");
    reveal_strlit("PageUp");
    reveal_strlit("PageDown");
}

/// A click on a known button gives exactly one action on that button, a press
/// when going down and a release when coming up; an unknown button gives none.
pub proof fn law_click_direction(name: Seq<char>, is_down: bool)
    ensures
        direction_for(is_down) == (if is_down { Direction::Press } else { Direction::Release }),
        direction_for(true) != direction_for(false),
        button_for(name) is Some ==> (name == "left"@ || name == "right"@ || name == "middle"@),
        (button_for(name) == Some(MouseButton::Left)) == (name == "left"@),
        (button_for(name) == Some(MouseButton::Right)) == (name == "right"@),
        (button_for(name) == Some(MouseButton::Middle)) == (name == "middle"@),
{
    reveal_strlit("left");
    reveal_strlit("right");
    reveal_strlit("middle");
    assert("left"@.len() == 4);
    assert("right"@.len() == 5);
    assert("middle"@.len() == 6);
    assert("left"@ != "right"@);
    assert("left"@ != "middle"@);
    assert("right"@ != "middle"@);
}

} // verus!
