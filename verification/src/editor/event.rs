//! What the pointer and the keyboard report, as far as the canvas reads it.

use vstd::prelude::*;

verus! {

#[derive(Debug, Clone, Copy, PartialEq, Eq, Structural)]
pub enum MouseButton {
    Left,
    Right,
    Other(i16),
}

impl MouseButton {
    pub fn left(self) -> (yes: bool)
        ensures
            yes == (self == MouseButton::Left),
    {
        match self {
            MouseButton::Left => true,
            _ => false,
        }
    }

    pub fn right(self) -> (yes: bool)
        ensures
            yes == (self == MouseButton::Right),
    {
        match self {
            MouseButton::Right => true,
            _ => false,
        }
    }

    /// The button with the number `button`: 0 is the left one, 2 the right.
    pub open spec fn of_number(button: i16) -> MouseButton {
        if button == 0 {
            MouseButton::Left
        } else if button == 2 {
            MouseButton::Right
        } else {
            MouseButton::Other(button)
        }
    }

    /// The number of the button.
    pub open spec fn number(self) -> i16 {
        match self {
            MouseButton::Left => 0,
            MouseButton::Right => 2,
            MouseButton::Other(i) => i,
        }
    }

    pub fn into_i16(self) -> (button: i16)
        ensures
            button == self.number(),
    {
        match self {
            MouseButton::Left => 0,
            MouseButton::Right => 2,
            MouseButton::Other(i) => i,
        }
    }
}

impl From<i16> for MouseButton {
    fn from(button: i16) -> (pressed: Self) {
        if button == 0 {
            MouseButton::Left
        } else if button == 2 {
            MouseButton::Right
        } else {
            MouseButton::Other(button)
        }
    }
}

impl vstd::std_specs::convert::FromSpecImpl<i16> for MouseButton {
    open spec fn obeys_from_spec() -> bool {
        true
    }

    open spec fn from_spec(button: i16) -> Self {
        MouseButton::of_number(button)
    }
}

/// A press, a release or a move of the pointer.
#[derive(Debug, Clone, Copy, PartialEq, Eq, Structural)]
pub struct MouseEvent {
    pub button: MouseButton,
}

/// A turn of the wheel: 1 towards the user and -1 away.
#[derive(Debug, Clone, Copy, PartialEq, Eq, Structural)]
pub struct WheelEvent {
    pub direction: i32,
}

/// What a control on the canvas reports back.
#[derive(Debug, Clone, Copy, PartialEq, Eq, Structural)]
pub enum ObjectUiEvent {
    MouseUp,
    MouseDown,
    MouseClick,
    MouseScroll,
    KeyDown,
    KeyUp,
}

/// What happened, as the canvas is told of it.
#[derive(Debug, Clone, Copy, PartialEq, Eq, Structural)]
pub enum EditorEvent {
    MouseMove(MouseEvent),
    MouseDown(MouseEvent),
    MouseUp(MouseEvent),
    MouseClick(MouseEvent),
    KeyDown,
    KeyUp,
    Scroll(WheelEvent),
    GlobalTick,
}

impl EditorEvent {
    /// The event that follows of itself once this one has been dealt
    /// with: the release of a button is followed by a click of that
    /// button, and nothing else is followed by anything.
    pub open spec fn followed_by(self) -> Option<EditorEvent> {
        match self {
            EditorEvent::MouseUp(mouse) => Some(EditorEvent::MouseClick(mouse)),
            _ => None,
        }
    }

    /// The event to deal with right after this one, if there is one. A
    /// click has none, so one event is followed by at most one more.
    pub fn follow_up(&self) -> (next: Option<EditorEvent>)
        ensures
            next == self.followed_by(),
            next matches Some(event) ==> event.followed_by() is None,
    {
        match *self {
            EditorEvent::MouseUp(mouse) => Some(EditorEvent::MouseClick(mouse)),
            _ => None,
        }
    }
}

} // verus!
