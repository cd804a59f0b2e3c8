//! Mouse events: buttons, actions, coordinates and modifiers.
use vstd::prelude::*;

use crate::text::{decimal, push_decimal};

verus! {

/// MouseButton indicates which mouse button an event concerns.
#[derive(Debug, Clone, Copy, PartialEq, Eq, Hash, Structural)]
pub enum MouseButton {
    /// Left button.
    MouseLeft,
    /// Right button.
    MouseRight,
    /// Middle button.
    MouseMiddle,
    /// Wheel scrolled up.
    MouseWheelUp,
    /// Wheel scrolled down.
    MouseWheelDown,
    /// Button release.
    MouseRelease,
    /// Unknown button.
    MouseUnknown,
}

/// MouseAction indicates the kind of mouse event.
#[derive(Debug, Clone, Copy, PartialEq, Eq, Hash, Structural)]
pub enum MouseAction {
    /// Button press.
    MouseActionPress,
    /// Button release.
    MouseActionRelease,
    /// Mouse movement.
    MouseActionMotion,
}

/// MouseMsg is a mouse event with its coordinates, button and modifiers.
#[derive(Debug, Clone, Copy, PartialEq, Eq, Structural)]
pub struct MouseMsg {
    /// Column (0-based).
    pub x: u16,
    /// Row (0-based).
    pub y: u16,
    /// Button of the event.
    pub button: MouseButton,
    /// Action of the event.
    pub action: MouseAction,
    /// Whether Alt was held.
    pub alt: bool,
    /// Whether Ctrl was held.
    pub ctrl: bool,
    /// Whether Shift was held.
    pub shift: bool,
}

/// The name of a mouse button.
pub open spec fn button_name(b: MouseButton) -> Seq<char> {
    match b {
        MouseButton::MouseLeft => "MouseLeft"@,
        MouseButton::MouseRight => "MouseRight"@,
        MouseButton::MouseMiddle => "MouseMiddle"@,
        MouseButton::MouseWheelUp => "MouseWheelUp"@,
        MouseButton::MouseWheelDown => "MouseWheelDown"@,
        MouseButton::MouseRelease => "MouseRelease"@,
        MouseButton::MouseUnknown => "MouseUnknown"@,
    }
}

/// The name of a mouse action.
pub open spec fn action_name(a: MouseAction) -> Seq<char> {
    match a {
        MouseAction::MouseActionPress => "MouseActionPress"@,
        MouseAction::MouseActionRelease => "MouseActionRelease"@,
        MouseAction::MouseActionMotion => "MouseActionMotion"@,
    }
}

/// The textual form of a mouse event: `(x, y: Button Action)`.
pub open spec fn mouse_text(m: MouseMsg) -> Seq<char> {
    "("@ + decimal(m.x as nat) + ", "@ + decimal(m.y as nat) + ": "@ + button_name(m.button) + " "@
        + action_name(m.action) + ")"@
}

fn button_name_string(b: MouseButton) -> (s: String)
    ensures
        s@ == button_name(b),
{
    match b {
        MouseButton::MouseLeft => "MouseLeft".to_owned(),
        MouseButton::MouseRight => "MouseRight".to_owned(),
        MouseButton::MouseMiddle => "MouseMiddle".to_owned(),
        MouseButton::MouseWheelUp => "MouseWheelUp".to_owned(),
        MouseButton::MouseWheelDown => "MouseWheelDown".to_owned(),
        MouseButton::MouseRelease => "MouseRelease".to_owned(),
        MouseButton::MouseUnknown => "MouseUnknown".to_owned(),
    }
}

fn action_name_string(a: MouseAction) -> (s: String)
    ensures
        s@ == action_name(a),
{
    match a {
        MouseAction::MouseActionPress => "MouseActionPress".to_owned(),
        MouseAction::MouseActionRelease => "MouseActionRelease".to_owned(),
        MouseAction::MouseActionMotion => "MouseActionMotion".to_owned(),
    }
}

impl MouseMsg {
    /// Creates a mouse event without modifiers.
    pub fn new(x: u16, y: u16, button: MouseButton, action: MouseAction) -> (m: MouseMsg)
        ensures
            m == (MouseMsg { x, y, button, action, alt: false, ctrl: false, shift: false }),
    {
        MouseMsg { x, y, button, action, alt: false, ctrl: false, shift: false }
    }

    /// Returns the textual form of the event, such as
    /// `(10, 20: MouseLeft MouseActionPress)`.
    pub fn to_string_rep(&self) -> (s: String)
        ensures
            s@ == mouse_text(*self),
    {
        let mut s = "(".to_owned();
        push_decimal(&mut s, self.x as u64);
        s.append(", ");
        push_decimal(&mut s, self.y as u64);
        s.append(": ");
        let b = button_name_string(self.button);
        s.append(b.as_str());
        s.append(" ");
        let a = action_name_string(self.action);
        s.append(a.as_str());
        s.append(")");
        s
    }
}

} // verus!
