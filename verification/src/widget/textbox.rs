//! A single-line text box.
//!
//! The box does not own its text. It reads the text out of the data through
//! one function and writes an edited text back through another, so that it
//! can be bound to any part of any data type.

use crate::context::{BaseState, Env, EventCtx, UpdateCtx};
use crate::data::Data;
use crate::event::{Action, Event, KeyCode, KeyEvent};
use crate::geometry::{clip_len, BoxConstraints, Point, Rect, Size};
use crate::paint::{Color, DrawCommand, DrawCommandView, PaintCtx};
use crate::widget::Widget;
use std::marker::PhantomData;
use vstd::prelude::*;
use vstd::string::StringExecFns;

verus! {

pub const BACKGROUND_GREY_LIGHT: u32 = 0x3a3a_3aff;

pub const BORDER_GREY: u32 = 0x5a5a_5aff;

pub const PRIMARY_LIGHT: u32 = 0x5cc4_ffff;

pub const TEXT_COLOR: u32 = 0xf0f0_eaff;

pub const PLACEHOLDER_COLOR: u32 = 0xf0f0_ea88;

pub const CURSOR_COLOR: u32 = 0xffff_ffff;

pub const BOX_HEIGHT: u32 = 24;

pub const FONT_SIZE: u32 = 14;

pub const BORDER_WIDTH: u32 = 1;

pub const CORNER_RADIUS: u32 = 2;

pub const PADDING_TOP: u32 = 5;

pub const PADDING_LEFT: u32 = 4;

/// `String::pop` of std: removes the last character and returns it; an empty
/// string stays empty and gives `None`.
pub assume_specification[ String::pop ](s: &mut String) -> (r: Option<char>)
    ensures
        old(s)@.len() == 0 ==> r is None && final(s)@ == old(s)@,
        old(s)@.len() > 0 ==> r == Some(old(s)@.last()) && final(s)@ == old(s)@.drop_last(),
;

/// The text that a key press makes of `text`: backspace removes the last
/// character, if there is one; a printable key appends what it produces; any
/// other key is no edit at all.
pub open spec fn edit_text_spec(text: Seq<char>, key: KeyEvent) -> Option<Seq<char>> {
    if key.key_code == KeyCode::Backspace {
        if text.len() > 0 {
            Some(text.drop_last())
        } else {
            Some(text)
        }
    } else if key.key_code.is_printable_spec() {
        Some(text + key.text_spec())
    } else {
        None
    }
}

/// Applies a key press to a text. `None` means that the key does not edit.
pub fn edit_text(text: String, key: &KeyEvent) -> (r: Option<String>)
    ensures
        r is Some == edit_text_spec(text@, *key) is Some,
        r matches Some(t) ==> Some(t@) == edit_text_spec(text@, *key),
{
    let mut text = text;
    match key.key_code {
        KeyCode::Backspace => {
            let _ = text.pop();
            Some(text)
        },
        _ => {
            if key.key_code.is_printable() {
                match key.text() {
                    Some(produced) => {
                        text.append(produced);
                    },
                    None => {
                        assert(text@ + key.text_spec() =~= text@);
                    },
                }
                Some(text)
            } else {
                None
            }
        },
    }
}

/// The rounded rectangle that a text box of the given size fills: the whole
/// box but for the border's width on the right.
pub open spec fn box_rect_spec(size: Size) -> Rect {
    Rect {
        origin: Point { x: 0, y: 0 },
        size: Size { width: clip_len(size.width - BORDER_WIDTH), height: size.height },
    }
}

/// Where the baseline of the text starts: past the left padding, and below
/// the top padding by four fifths of the font size, rounded down.
pub open spec fn text_pos_spec() -> Point {
    Point { x: PADDING_LEFT as i64, y: (FONT_SIZE * 4 / 5 + PADDING_TOP) as i64 }
}

/// What a text box draws: background, border, and inside a clip the text and,
/// while the box is active, a caret behind the text. The border shows whether
/// the box is active.
pub open spec fn text_box_commands(
    size: Size,
    is_active: bool,
    text: Seq<char>,
    text_color: Color,
) -> Seq<DrawCommandView> {
    let rect = box_rect_spec(size);
    let border = Color {
        rgba: if is_active {
            PRIMARY_LIGHT
        } else {
            BORDER_GREY
        },
    };
    let pos = text_pos_spec();
    let body = seq![
        DrawCommandView::Fill {
            rect,
            radius: CORNER_RADIUS,
            color: Color { rgba: BACKGROUND_GREY_LIGHT },
        },
        DrawCommandView::Stroke { rect, radius: CORNER_RADIUS, color: border, width: BORDER_WIDTH },
        DrawCommandView::Save,
        DrawCommandView::Clip { rect, radius: CORNER_RADIUS },
        DrawCommandView::Text { text, font_size: FONT_SIZE, pos, color: text_color },
    ];
    let caret = seq![
        DrawCommandView::Caret {
            text,
            font_size: FONT_SIZE,
            pos: Point { x: (pos.x + 2) as i64, y: (pos.y + 2 - FONT_SIZE) as i64 },
            length: (FONT_SIZE + 2) as u32,
            color: Color { rgba: CURSOR_COLOR },
            width: 1,
        },
    ];
    if is_active {
        body + caret + seq![DrawCommandView::Restore]
    } else {
        body + seq![DrawCommandView::Restore]
    }
}

/// Records the commands that draw a text box showing `text`.
pub fn draw_text_box(
    paint_ctx: &mut PaintCtx,
    size: Size,
    is_active: bool,
    text: String,
    text_color: Color,
)
    ensures
        final(paint_ctx)@ == old(paint_ctx)@ + text_box_commands(size, is_active, text@, text_color),
{
    let border = if is_active {
        Color::rgba32(PRIMARY_LIGHT)
    } else {
        Color::rgba32(BORDER_GREY)
    };
    let inner_width = if size.width >= BORDER_WIDTH {
        size.width - BORDER_WIDTH
    } else {
        0
    };
    let rect = Rect::from_origin_size(Point::origin(), Size::new(inner_width, size.height));
    let pos = Point::new(PADDING_LEFT as i64, (FONT_SIZE * 4 / 5 + PADDING_TOP) as i64);
    paint_ctx.push(
        DrawCommand::Fill {
            rect,
            radius: CORNER_RADIUS,
            color: Color::rgba32(BACKGROUND_GREY_LIGHT),
        },
    );
    paint_ctx.push(
        DrawCommand::Stroke { rect, radius: CORNER_RADIUS, color: border, width: BORDER_WIDTH },
    );
    paint_ctx.push(DrawCommand::Save);
    paint_ctx.push(DrawCommand::Clip { rect, radius: CORNER_RADIUS });
    if is_active {
        let shown = text.clone();
        paint_ctx.push(DrawCommand::Text { text: shown, font_size: FONT_SIZE, pos, color: text_color });
        paint_ctx.push(
            DrawCommand::Caret {
                text,
                font_size: FONT_SIZE,
                pos: Point::new(pos.x + 2, pos.y + 2 - FONT_SIZE as i64),
                length: FONT_SIZE + 2,
                color: Color::rgba32(CURSOR_COLOR),
                width: 1,
            },
        );
    } else {
        paint_ctx.push(DrawCommand::Text { text, font_size: FONT_SIZE, pos, color: text_color });
    }
    paint_ctx.push(DrawCommand::Restore);
    assert(paint_ctx@ =~= old(paint_ctx)@ + text_box_commands(size, is_active, text@, text_color));
}

/// A text box of a fixed width over data of type `T`.
///
/// `value` reads the text out of the data, `on_change` writes an edited text
/// back, and `placeholder` gives the text to show while the value is empty.
pub struct TextBox<V, C, P, T> {
    pub width: u32,
    pub value: Option<V>,
    pub placeholder: Option<P>,
    pub on_change: Option<C>,
    pub phantom: PhantomData<T>,
}

impl<V, C, P, T> TextBox<V, C, P, T> where
    V: Fn(&T) -> String,
    C: Fn(String, &mut T),
    P: Fn() -> String,
 {
    /// Each of the three functions, where it is set, accepts every argument.
    pub open spec fn wf(&self) -> bool {
        &&& self.value matches Some(v) ==> forall|d: &T| call_requires(v, (d,))
        &&& self.placeholder matches Some(p) ==> call_requires(p, ())
        &&& self.on_change matches Some(o) ==> forall|s: String, d: &mut T|
            call_requires(o, (s, d))
    }

    /// Whether `text` may be what the box reads out of `data`: a result of
    /// `value`, or the words "no value" where no `value` is set.
    pub open spec fn reads(&self, data: T, text: String) -> bool {
        match self.value {
            Some(v) => call_ensures(v, (&data,), text),
            None => text@ == "no value"@,
        }
    }

    /// Whether `text` in `color` may be what the box shows for `data`: the
    /// value that it reads, or, where that is empty and a placeholder is set,
    /// the placeholder in its own colour.
    pub open spec fn shows(&self, data: T, text: String, color: Color) -> bool {
        exists|read: String| #[trigger]
            self.reads(data, read) && match self.placeholder {
                Some(p) if read@.len() == 0 => call_ensures(p, (), text) && color.rgba
                    == PLACEHOLDER_COLOR,
                _ => text == read && color.rgba == TEXT_COLOR,
            }
    }

    /// A text box of the given width, with nothing bound to it.
    pub fn new(width: u32) -> (r: Self)
        ensures
            r.wf(),
            r.width == width,
            r.value is None,
            r.placeholder is None,
            r.on_change is None,
    {
        TextBox { width, value: None, placeholder: None, on_change: None, phantom: PhantomData }
    }

    /// Sets the function that reads the text out of the data.
    pub fn value(self, v: V) -> (r: Self)
        requires
            self.wf(),
            forall|d: &T| call_requires(v, (d,)),
        ensures
            r.wf(),
            r.value == Some(v),
            r.width == self.width,
            r.placeholder == self.placeholder,
            r.on_change == self.on_change,
    {
        let mut this = self;
        this.value = Some(v);
        this
    }

    /// Sets the function that gives the text to show while the value is empty.
    pub fn placeholder(self, p: P) -> (r: Self)
        requires
            self.wf(),
            call_requires(p, ()),
        ensures
            r.wf(),
            r.placeholder == Some(p),
            r.width == self.width,
            r.value == self.value,
            r.on_change == self.on_change,
    {
        let mut this = self;
        this.placeholder = Some(p);
        this
    }

    /// Sets the function that writes an edited text back into the data.
    pub fn on_change(self, o: C) -> (r: Self)
        requires
            self.wf(),
            forall|s: String, d: &mut T| call_requires(o, (s, d)),
        ensures
            r.wf(),
            r.on_change == Some(o),
            r.width == self.width,
            r.value == self.value,
            r.placeholder == self.placeholder,
    {
        let mut this = self;
        this.on_change = Some(o);
        this
    }

    fn get_text(&self, data: &T) -> (r: String)
        requires
            self.wf(),
        ensures
            self.reads(*data, r),
    {
        match self.value {
            Some(ref v) => v(data),
            None => String::from_str("no value"),
        }
    }

    fn change_text(&self, data: &mut T, text: String)
        requires
            self.wf(),
        ensures
            match self.on_change {
                Some(o) => exists|d: &mut T|
                    *d == *old(data) && *final(d) == *final(data) && #[trigger] call_ensures(
                        o,
                        (text, d),
                        (),
                    ),
                None => *final(data) == *old(data),
            },
    {
        match self.on_change {
            Some(ref o) => {
                o(text, data);
            },
            None => {},
        }
    }

    fn shown_text(&self, data: &T) -> (r: (String, Color))
        requires
            self.wf(),
        ensures
            self.shows(*data, r.0, r.1),
    {
        let read = self.get_text(data);
        match self.placeholder {
            Some(ref p) => {
                if read.as_str().is_empty() {
                    (p(), Color::rgba32(PLACEHOLDER_COLOR))
                } else {
                    (read, Color::rgba32(TEXT_COLOR))
                }
            },
            None => (read, Color::rgba32(TEXT_COLOR)),
        }
    }
}

impl<V, C, P, T> Widget<T> for TextBox<V, C, P, T> where
    V: Fn(&T) -> String,
    C: Fn(String, &mut T),
    P: Fn() -> String,
    T: Data,
 {
    open spec fn inv(&self) -> bool {
        self.wf()
    }

    /// Draws the box with the text that it shows for `data`.
    fn paint(&mut self, paint_ctx: &mut PaintCtx, base_state: &BaseState, data: &T, env: &Env)
        ensures
            *final(self) == *old(self),
            exists|text: String, color: Color| #[trigger]
                old(self).shows(*data, text, color) && final(paint_ctx)@ == old(paint_ctx)@
                    + text_box_commands(
                    base_state.layout_rect.size,
                    base_state.is_active,
                    text@,
                    color,
                ),
    {
        let (text, color) = self.shown_text(data);
        draw_text_box(paint_ctx, base_state.size(), base_state.is_active(), text, color);
    }

    /// The box is as wide as it was made and one line high, clipped to `bc`.
    fn layout(&mut self, bc: &BoxConstraints, data: &T, env: &Env) -> (size: Size)
        ensures
            *final(self) == *old(self),
            size == bc.constrain_spec(Size { width: old(self).width, height: BOX_HEIGHT }),
    {
        bc.constrain(Size::new(self.width, BOX_HEIGHT))
    }

    /// A button press under the pointer makes the box active and gives it the
    /// keyboard focus; a button press elsewhere takes both away. A key press
    /// reads the text and, where the key edits, hands the edited text to
    /// `on_change`; without an `on_change` the data stays as it is. Both kinds
    /// of event ask for invalidation. Nothing else does anything.
    fn event(&mut self, event: &Event, ctx: &mut EventCtx, data: &mut T, env: &Env) -> (action:
        Option<Action>)
        ensures
            *final(self) == *old(self),
            action is None,
            match *event {
                Event::MouseDown(_) => {
                    &&& *final(data) == *old(data)
                    &&& *final(ctx) == (EventCtx {
                        base_state: BaseState {
                            is_active: old(ctx).base_state.is_hot,
                            is_focused: old(ctx).base_state.is_hot,
                            needs_inval: true,
                            ..old(ctx).base_state
                        },
                        ..*old(ctx)
                    })
                },
                Event::KeyDown(key) => {
                    &&& *final(ctx) == (EventCtx {
                        base_state: BaseState { needs_inval: true, ..old(ctx).base_state },
                        ..*old(ctx)
                    })
                    &&& exists|read: String| #[trigger]
                        old(self).reads(*old(data), read) && match edit_text_spec(read@, key) {
                            Some(edited) => match old(self).on_change {
                                Some(o) => exists|text: String, d: &mut T|
                                    text@ == edited && *d == *old(data)
                                        && *final(d) == *final(data)
                                        && #[trigger] call_ensures(o, (text, d), ()),
                                None => *final(data) == *old(data),
                            },
                            None => *final(data) == *old(data),
                        }
                },
                _ => *final(data) == *old(data) && *final(ctx) == *old(ctx),
            },
    {
        match event {
            Event::MouseDown(_) => {
                let hot = ctx.is_hot();
                ctx.set_active(hot);
                ctx.set_focus(hot);
                ctx.invalidate();
            },
            Event::KeyDown(key) => {
                let read = self.get_text(data);
                match edit_text(read, key) {
                    Some(text) => {
                        self.change_text(data, text);
                    },
                    None => {},
                }
                ctx.invalidate();
            },
            _ => {},
        }
        None
    }

    /// Asks for invalidation, unless the data is the same as before.
    fn update(&mut self, ctx: &mut UpdateCtx, old_data: Option<&T>, data: &T, env: &Env)
        ensures
            *final(self) == *old(self),
            !(old_data is Some && old_data->0.same_spec(data)) ==> final(ctx).needs_inval,
    {
        if let Some(previous) = old_data {
            if previous.same(data) {
                return ;
            }
        }
        ctx.invalidate();
    }
}

} // verus!
