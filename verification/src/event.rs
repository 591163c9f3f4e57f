//! Input events and the actions that widgets hand back up the tree.

use crate::geometry::{Point, Size};
use vstd::prelude::*;

verus! {

/// A pointer position, in the coordinate frame of whoever receives the event.
#[derive(Clone, Copy, Debug, PartialEq, Eq, Structural)]
pub struct MouseEvent {
    pub pos: Point,
}

impl MouseEvent {
    pub fn new(pos: Point) -> (r: MouseEvent)
        ensures
            r.pos == pos,
    {
        MouseEvent { pos }
    }

    /// The same event seen from a frame whose origin is `origin`.
    pub fn relative_to(&self, origin: Point) -> (r: MouseEvent)
        ensures
            r.pos == self.pos.minus_spec(origin),
    {
        MouseEvent { pos: self.pos.minus(origin) }
    }

    /// The same event seen from a frame that was scrolled by `offset`.
    pub fn scrolled_by(&self, offset: Point) -> (r: MouseEvent)
        ensures
            r.pos == self.pos.plus_spec(offset),
    {
        MouseEvent { pos: self.pos.plus(offset) }
    }
}

/// The key that a key event is about.
#[derive(Clone, Copy, Debug, PartialEq, Eq, Structural)]
pub enum KeyCode {
    Backspace,
    Tab,
    Return,
    Escape,
    Space,
    /// Any key that produces text other than a space.
    Character,
    /// Any key that produces no text and has no variant of its own.
    Other,
}

impl KeyCode {
    /// Whether the key produces text when pressed.
    pub open spec fn is_printable_spec(self) -> bool {
        self == KeyCode::Space || self == KeyCode::Character
    }

    /// Whether the key produces text when pressed.
    pub fn is_printable(self) -> (r: bool)
        ensures
            r == self.is_printable_spec(),
    {
        match self {
            KeyCode::Space => true,
            KeyCode::Character => true,
            _ => false,
        }
    }
}

/// A key press, with the text that it produces, if any.
#[derive(Clone, Debug, PartialEq, Eq)]
pub struct KeyEvent {
    pub key_code: KeyCode,
    pub text: Option<String>,
}

impl KeyEvent {
    /// The characters that the key press produces; none where it has no text.
    pub open spec fn text_spec(&self) -> Seq<char> {
        match self.text {
            Some(t) => t@,
            None => Seq::empty(),
        }
    }

    pub fn new(key_code: KeyCode, text: Option<String>) -> (r: KeyEvent)
        ensures
            r.key_code == key_code,
            r.text == text,
    {
        KeyEvent { key_code, text }
    }

    /// The text that the key press produces, if any.
    pub fn text(&self) -> (r: Option<&str>)
        ensures
            r is Some == self.text is Some,
            r matches Some(s) ==> s@ == self.text_spec(),
    {
        match &self.text {
            Some(t) => Some(t.as_str()),
            None => None,
        }
    }
}

/// One input event, from outside or made up by the framework on the way down.
#[derive(Clone, Debug, PartialEq, Eq)]
pub enum Event {
    /// A pointer button went down.
    MouseDown(MouseEvent),
    /// A pointer button went up.
    MouseUp(MouseEvent),
    /// The pointer moved.
    MouseMoved(MouseEvent),
    /// A key went down.
    KeyDown(KeyEvent),
    /// The pointer entered (`true`) or left (`false`) the widget that receives
    /// this event. Made up by the widget's pod; it never comes from outside.
    HotChanged(bool),
    /// The window was resized. Only the root sees this event.
    Size(Size),
}

impl Event {
    /// Whether the event carries a pointer position.
    pub open spec fn is_pointer(&self) -> bool {
        self is MouseDown || self is MouseUp || self is MouseMoved
    }
}

/// A notification that a widget hands back to its ancestors.
#[derive(Clone, Debug, PartialEq, Eq)]
pub struct Action {
    pub text: String,
}

impl Action {
    pub fn from_str(text: &str) -> (r: Action)
        ensures
            r.text@ == text@,
    {
        Action { text: text.to_owned() }
    }

    pub fn as_str(&self) -> (r: &str)
        ensures
            r@ == self.text@,
    {
        self.text.as_str()
    }

    /// Joins the actions of two children: the earlier one wins.
    pub fn merge(this: Option<Action>, other: Option<Action>) -> (r: Option<Action>)
        ensures
            r == (if this is Some {
                this
            } else {
                other
            }),
    {
        if this.is_some() {
            this
        } else {
            other
        }
    }
}

} // verus!
