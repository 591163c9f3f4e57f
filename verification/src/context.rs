//! The bookkeeping that the framework keeps for each widget, and the contexts
//! through which a widget talks back to it during event dispatch and update.

use crate::geometry::{Point, Rect, Size};
use vstd::prelude::*;

verus! {

/// Inherited configuration, handed down the tree with every call. The core
/// passes it on untouched.
#[derive(Clone, Copy, Debug, PartialEq, Eq, Structural)]
pub struct Env {}

impl Env {
    pub fn new() -> (r: Env) {
        Env {  }
    }
}

/// What the framework tracks for one widget: where the last layout pass put
/// it, and its interaction flags.
#[derive(Clone, Copy, Debug, PartialEq, Eq, Structural)]
pub struct BaseState {
    /// The widget's place in its parent's coordinate frame.
    pub layout_rect: Rect,
    /// The pointer is over the widget.
    pub is_hot: bool,
    /// The widget has captured the current pointer gesture.
    pub is_active: bool,
    /// The widget or one below it is active.
    pub has_active: bool,
    /// The widget itself holds the keyboard focus.
    pub is_focused: bool,
    /// The widget or one below it holds the keyboard focus.
    pub has_focus: bool,
    /// A repaint and relayout was asked for.
    pub needs_inval: bool,
}

impl BaseState {
    /// The state of a widget that was never laid out or touched.
    pub open spec fn initial() -> BaseState {
        BaseState {
            layout_rect: Rect {
                origin: Point { x: 0, y: 0 },
                size: Size { width: 0, height: 0 },
            },
            is_hot: false,
            is_active: false,
            has_active: false,
            is_focused: false,
            has_focus: false,
            needs_inval: false,
        }
    }

    pub fn new() -> (r: BaseState)
        ensures
            r == BaseState::initial(),
    {
        BaseState {
            layout_rect: Rect::from_origin_size(Point::origin(), Size::zero()),
            is_hot: false,
            is_active: false,
            has_active: false,
            is_focused: false,
            has_focus: false,
            needs_inval: false,
        }
    }

    pub fn is_hot(&self) -> (r: bool)
        ensures
            r == self.is_hot,
    {
        self.is_hot
    }

    pub fn is_active(&self) -> (r: bool)
        ensures
            r == self.is_active,
    {
        self.is_active
    }

    pub fn has_focus(&self) -> (r: bool)
        ensures
            r == self.has_focus,
    {
        self.has_focus
    }

    /// The size that the last layout pass gave the widget.
    pub fn size(&self) -> (r: Size)
        ensures
            r == self.layout_rect.size,
    {
        self.layout_rect.size
    }
}

/// What a widget sees of the framework while it handles an event.
#[derive(Clone, Copy, Debug, PartialEq, Eq, Structural)]
pub struct EventCtx {
    /// The state of the widget that handles the event.
    pub base_state: BaseState,
    /// Whether the widget's subtree held an active widget when the event came in.
    pub had_active: bool,
    /// Whether the event was consumed.
    pub is_handled: bool,
    /// Whether the widget is the root of the tree.
    pub is_root: bool,
}

impl EventCtx {
    /// What an event handler may do to its context: it may claim or release
    /// the pointer and the focus, ask for invalidation and consume the event.
    /// It can neither move the widget, change whether the pointer is over it,
    /// nor take back an invalidation or a consumption.
    pub open spec fn follows(self, before: EventCtx) -> bool {
        &&& self.base_state.layout_rect == before.base_state.layout_rect
        &&& self.base_state.is_hot == before.base_state.is_hot
        &&& self.had_active == before.had_active
        &&& self.is_root == before.is_root
        &&& before.is_handled ==> self.is_handled
        &&& before.base_state.needs_inval ==> self.base_state.needs_inval
    }

    /// The context for one widget at the start of a dispatch.
    pub fn new(base_state: BaseState, had_active: bool, is_root: bool) -> (r: EventCtx)
        ensures
            r == (EventCtx { base_state, had_active, is_handled: false, is_root }),
    {
        EventCtx { base_state, had_active, is_handled: false, is_root }
    }

    /// Asks for a repaint and relayout.
    pub fn invalidate(&mut self)
        ensures
            *final(self) == (EventCtx {
                base_state: BaseState { needs_inval: true, ..old(self).base_state },
                ..*old(self)
            }),
    {
        self.base_state.needs_inval = true;
    }

    /// Whether the pointer is over the widget.
    pub fn is_hot(&self) -> (r: bool)
        ensures
            r == self.base_state.is_hot,
    {
        self.base_state.is_hot
    }

    /// Whether the widget has captured the pointer.
    pub fn is_active(&self) -> (r: bool)
        ensures
            r == self.base_state.is_active,
    {
        self.base_state.is_active
    }

    /// Claims (`true`) or releases (`false`) the pointer. While a widget is
    /// active, pointer events reach it wherever the pointer is.
    pub fn set_active(&mut self, active: bool)
        ensures
            *final(self) == (EventCtx {
                base_state: BaseState { is_active: active, ..old(self).base_state },
                ..*old(self)
            }),
    {
        self.base_state.is_active = active;
    }

    /// Whether the widget holds the keyboard focus.
    pub fn is_focused(&self) -> (r: bool)
        ensures
            r == self.base_state.is_focused,
    {
        self.base_state.is_focused
    }

    /// Claims (`true`) or releases (`false`) the keyboard focus. Key events
    /// reach a widget only while it, or a widget below it, holds the focus.
    pub fn set_focus(&mut self, focused: bool)
        ensures
            *final(self) == (EventCtx {
                base_state: BaseState { is_focused: focused, ..old(self).base_state },
                ..*old(self)
            }),
    {
        self.base_state.is_focused = focused;
    }

    /// Consumes the event: no widget after this one will see it.
    pub fn set_handled(&mut self)
        ensures
            *final(self) == (EventCtx { is_handled: true, ..*old(self) }),
    {
        self.is_handled = true;
    }

    pub fn is_handled(&self) -> (r: bool)
        ensures
            r == self.is_handled,
    {
        self.is_handled
    }
}

/// What a widget sees of the framework while it is told that the data changed.
#[derive(Clone, Copy, Debug, PartialEq, Eq, Structural)]
pub struct UpdateCtx {
    /// A repaint and relayout was asked for.
    pub needs_inval: bool,
}

impl UpdateCtx {
    pub fn new() -> (r: UpdateCtx)
        ensures
            !r.needs_inval,
    {
        UpdateCtx { needs_inval: false }
    }

    /// Asks for a repaint and relayout.
    pub fn invalidate(&mut self)
        ensures
            final(self).needs_inval,
    {
        self.needs_inval = true;
    }
}

} // verus!
