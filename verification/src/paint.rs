//! Painting as a list of drawing commands.
//!
//! A paint pass does not draw: it records what is to be drawn, in order, in
//! the coordinate frame that is current at that point of the list. Whoever
//! owns the render surface replays the list on it.

use crate::geometry::{Point, Rect};
use vstd::prelude::*;

verus! {

/// A colour as four bytes: red, green, blue, alpha, the red byte highest.
#[derive(Clone, Copy, Debug, PartialEq, Eq, Structural)]
pub struct Color {
    pub rgba: u32,
}

impl Color {
    pub fn rgba32(rgba: u32) -> (r: Color)
        ensures
            r.rgba == rgba,
    {
        Color { rgba }
    }
}

/// One step of a paint pass.
#[derive(Clone, Debug, PartialEq, Eq)]
pub enum DrawCommand {
    /// Remember the current frame and clip.
    Save,
    /// Go back to the frame and clip of the matching `Save`.
    Restore,
    /// Move the frame's origin.
    Translate { by: Point },
    /// Confine what follows to a rounded rectangle.
    Clip { rect: Rect, radius: u32 },
    /// Fill a rounded rectangle.
    Fill { rect: Rect, radius: u32, color: Color },
    /// Draw the outline of a rounded rectangle.
    Stroke { rect: Rect, radius: u32, color: Color, width: u32 },
    /// Draw a line of text whose baseline starts at `pos`.
    Text { text: String, font_size: u32, pos: Point, color: Color },
    /// Draw a vertical line of the given length, starting at `pos` moved to
    /// the right by the width that `text` takes at `font_size`.
    Caret { text: String, font_size: u32, pos: Point, length: u32, color: Color, width: u32 },
}

/// A drawing command with its text as a sequence of characters.
pub enum DrawCommandView {
    Save,
    Restore,
    Translate { by: Point },
    Clip { rect: Rect, radius: u32 },
    Fill { rect: Rect, radius: u32, color: Color },
    Stroke { rect: Rect, radius: u32, color: Color, width: u32 },
    Text { text: Seq<char>, font_size: u32, pos: Point, color: Color },
    Caret { text: Seq<char>, font_size: u32, pos: Point, length: u32, color: Color, width: u32 },
}

impl View for DrawCommand {
    type V = DrawCommandView;

    open spec fn view(&self) -> DrawCommandView {
        match *self {
            DrawCommand::Save => DrawCommandView::Save,
            DrawCommand::Restore => DrawCommandView::Restore,
            DrawCommand::Translate { by } => DrawCommandView::Translate { by },
            DrawCommand::Clip { rect, radius } => DrawCommandView::Clip { rect, radius },
            DrawCommand::Fill { rect, radius, color } => DrawCommandView::Fill {
                rect,
                radius,
                color,
            },
            DrawCommand::Stroke { rect, radius, color, width } => DrawCommandView::Stroke {
                rect,
                radius,
                color,
                width,
            },
            DrawCommand::Text { text, font_size, pos, color } => DrawCommandView::Text {
                text: text@,
                font_size,
                pos,
                color,
            },
            DrawCommand::Caret {
                text,
                font_size,
                pos,
                length,
                color,
                width,
            } => DrawCommandView::Caret { text: text@, font_size, pos, length, color, width },
        }
    }
}

/// The list of commands recorded so far in a paint pass.
pub struct PaintCtx {
    pub commands: Vec<DrawCommand>,
}

impl View for PaintCtx {
    type V = Seq<DrawCommandView>;

    open spec fn view(&self) -> Seq<DrawCommandView> {
        self.commands@.map_values(|c: DrawCommand| c@)
    }
}

impl PaintCtx {
    /// An empty list.
    pub fn new() -> (r: PaintCtx)
        ensures
            r@ == Seq::<DrawCommandView>::empty(),
    {
        let r = PaintCtx { commands: Vec::new() };
        assert(r@ =~= Seq::<DrawCommandView>::empty());
        r
    }

    /// Records one command.
    pub fn push(&mut self, command: DrawCommand)
        ensures
            final(self)@ == old(self)@.push(command@),
    {
        self.commands.push(command);
        assert(self@ =~= old(self)@.push(command@));
    }

    /// The commands recorded, in order.
    pub fn into_commands(self) -> (r: Vec<DrawCommand>)
        ensures
            r == self.commands,
    {
        self.commands
    }
}

} // verus!
