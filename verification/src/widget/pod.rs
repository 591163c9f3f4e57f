//! The wrapper that a container keeps around each child.

use crate::context::{BaseState, Env, EventCtx, UpdateCtx};
use crate::data::Data;
use crate::event::{Action, Event, MouseEvent};
use crate::geometry::{BoxConstraints, Point, Rect, Size};
use crate::paint::{DrawCommand, DrawCommandView, PaintCtx};
use crate::widget::Widget;
use std::marker::PhantomData;
use vstd::prelude::*;

verus! {

/// Whether the pointer is over a widget once `event` has been seen: a pointer
/// move decides it by hit test, any other event leaves it as it was.
pub open spec fn hot_after_spec(state: BaseState, event: Event) -> bool {
    match event {
        Event::MouseMoved(m) => state.layout_rect.contains_spec(m.pos),
        _ => state.is_hot,
    }
}

/// Whether an event that reaches a pod goes on to the pod's widget.
///
/// - Button events go to the subtree that holds the active widget; while no
///   widget of the parent's subtree is active, they go by hit test.
/// - Pointer moves go to the subtree that holds the active widget, and to
///   every widget that the pointer is over, was over, or has just left.
/// - Key events go to the subtree that holds the keyboard focus.
/// - A resize goes to the root only.
/// - A hot change is made up by a pod for its own widget and is never passed on.
pub open spec fn routes_spec(
    state: BaseState,
    event: Event,
    parent_had_active: bool,
    parent_is_root: bool,
) -> bool {
    match event {
        Event::MouseDown(m) => state.has_active || (!parent_had_active
            && state.layout_rect.contains_spec(m.pos)),
        Event::MouseUp(m) => state.has_active || (!parent_had_active
            && state.layout_rect.contains_spec(m.pos)),
        Event::MouseMoved(m) => state.has_active || state.is_hot
            || state.layout_rect.contains_spec(m.pos),
        Event::KeyDown(_) => state.has_focus,
        Event::HotChanged(_) => false,
        Event::Size(_) => parent_is_root,
    }
}

/// Whether the pointer is over a widget once `event` has been seen.
pub fn hot_after(state: &BaseState, event: &Event) -> (r: bool)
    ensures
        r == hot_after_spec(*state, *event),
{
    match event {
        Event::MouseMoved(m) => state.layout_rect.contains(m.pos),
        _ => state.is_hot,
    }
}

/// Whether an event that reaches a pod goes on to the pod's widget.
pub fn routes(state: &BaseState, event: &Event, parent_had_active: bool, parent_is_root: bool) -> (r:
    bool)
    ensures
        r == routes_spec(*state, *event, parent_had_active, parent_is_root),
{
    match event {
        Event::MouseDown(m) => state.has_active || (!parent_had_active
            && state.layout_rect.contains(m.pos)),
        Event::MouseUp(m) => state.has_active || (!parent_had_active && state.layout_rect.contains(
            m.pos,
        )),
        Event::MouseMoved(m) => state.has_active || state.is_hot || state.layout_rect.contains(
            m.pos,
        ),
        Event::KeyDown(_) => state.has_focus,
        Event::HotChanged(_) => false,
        Event::Size(_) => parent_is_root,
    }
}

/// The event as a widget at `origin` sees it: pointer positions are moved
/// into the widget's frame, anything else is as it was.
pub open spec fn moved_spec(event: Event, origin: Point) -> Event {
    match event {
        Event::MouseDown(m) => Event::MouseDown(MouseEvent { pos: m.pos.minus_spec(origin) }),
        Event::MouseUp(m) => Event::MouseUp(MouseEvent { pos: m.pos.minus_spec(origin) }),
        Event::MouseMoved(m) => Event::MouseMoved(MouseEvent { pos: m.pos.minus_spec(origin) }),
        _ => event,
    }
}

/// The context that a pod makes for its widget when `event` arrives: the
/// pod's state with the pointer where the event puts it and with no
/// invalidation asked for yet, nothing consumed, and not the root.
pub open spec fn child_ctx_spec(state: BaseState, event: Event) -> EventCtx {
    EventCtx {
        base_state: BaseState {
            is_hot: hot_after_spec(state, event),
            needs_inval: false,
            ..state
        },
        had_active: state.has_active,
        is_handled: false,
        is_root: false,
    }
}

/// The context in which the event itself is handed on: what the subtree
/// holds of activity and focus is gathered anew.
pub open spec fn routed_ctx_spec(ctx: EventCtx) -> EventCtx {
    EventCtx {
        base_state: BaseState { has_active: false, has_focus: false, ..ctx.base_state },
        ..ctx
    }
}

/// The state that a pod keeps of the context that its widget left: the
/// subtree counts as active or focused where the widget itself is.
pub open spec fn settled_spec(ctx: EventCtx) -> BaseState {
    BaseState {
        has_active: ctx.base_state.has_active || ctx.base_state.is_active,
        has_focus: ctx.base_state.has_focus || ctx.base_state.is_focused,
        ..ctx.base_state
    }
}

/// The parent's context once a pod in the given state has handed up what
/// its subtree asked for.
pub open spec fn handed_up_spec(ctx: EventCtx, state: BaseState, handled: bool) -> EventCtx {
    EventCtx {
        base_state: BaseState {
            has_active: ctx.base_state.has_active || state.has_active,
            has_focus: ctx.base_state.has_focus || state.has_focus,
            needs_inval: ctx.base_state.needs_inval || state.needs_inval,
            ..ctx.base_state
        },
        is_handled: ctx.is_handled || handled,
        ..ctx
    }
}

/// An event that changes whether the pointer is over a widget is routed to it.
pub proof fn lemma_hot_change_is_routed(
    state: BaseState,
    event: Event,
    parent_had_active: bool,
    parent_is_root: bool,
)
    requires
        hot_after_spec(state, event) != state.is_hot,
    ensures
        routes_spec(state, event, parent_had_active, parent_is_root),
{
}

/// While a widget, or one below it, is active, every pointer event is routed
/// to it, wherever the pointer is.
pub proof fn lemma_active_captures_pointer(
    state: BaseState,
    event: Event,
    parent_had_active: bool,
    parent_is_root: bool,
)
    requires
        state.has_active,
        event.is_pointer(),
    ensures
        routes_spec(state, event, parent_had_active, parent_is_root),
{
}

/// While some other widget under the same parent is active, button events do
/// not reach a widget that holds no active widget, even under the pointer.
pub proof fn lemma_capture_is_exclusive(state: BaseState, event: Event, parent_is_root: bool)
    requires
        !state.has_active,
        event is MouseDown || event is MouseUp,
    ensures
        !routes_spec(state, event, true, parent_is_root),
{
}

/// A widget together with what the framework tracks for it.
pub struct WidgetPod<T: Data, W: Widget<T>> {
    pub state: BaseState,
    pub inner: W,
    pub phantom: PhantomData<T>,
}

impl<T: Data, W: Widget<T>> WidgetPod<T, W> {
    /// The wrapped widget's invariant.
    pub open spec fn inv(&self) -> bool {
        self.inner.inv()
    }

    /// Whether `event`, arriving through the parent's context `ctx`, goes on
    /// to the wrapped widget.
    pub open spec fn delivers(&self, event: Event, ctx: EventCtx) -> bool {
        !ctx.is_handled && (routes_spec(self.state, event, ctx.had_active, ctx.is_root)
            || hot_after_spec(self.state, event) != self.state.is_hot)
    }

    /// What holds of a dispatch whatever the widget does: whether this pod,
    /// the parent's context, the data and the action can have come of
    /// dispatching `event` to the pod `before`. What a delivered event makes
    /// of the widget is stated by [`WidgetPod::event`] itself.
    ///
    /// - The pod is never moved, and the parent's context changes only as
    ///   [`EventCtx::follows`] allows.
    /// - An event that was consumed before leaves pod and context as they were.
    /// - Otherwise the pod is hot exactly where the pointer is over it, its
    ///   subtree counts as active or focused where the widget itself is, and
    ///   what the subtree asked for is handed up into the parent's context.
    /// - Where the event is not delivered, the widget and the data stay, no
    ///   action comes back, and the event is no more consumed than before.
    pub open spec fn dispatched(
        &self,
        before: &Self,
        event: Event,
        ctx_before: EventCtx,
        ctx_after: EventCtx,
        data_before: T,
        data_after: T,
        action: Option<Action>,
    ) -> bool {
        &&& ctx_after.follows(ctx_before)
        &&& self.state.layout_rect == before.state.layout_rect
        &&& ctx_before.is_handled ==> {
            &&& self.state == before.state
            &&& ctx_after == ctx_before
        }
        &&& !ctx_before.is_handled ==> {
            &&& self.state.is_hot == hot_after_spec(before.state, event)
            &&& self.state.is_active ==> self.state.has_active
            &&& self.state.is_focused ==> self.state.has_focus
            &&& ctx_after.base_state == (BaseState {
                has_active: ctx_before.base_state.has_active || self.state.has_active,
                has_focus: ctx_before.base_state.has_focus || self.state.has_focus,
                needs_inval: ctx_before.base_state.needs_inval || self.state.needs_inval,
                ..ctx_before.base_state
            })
        }
        &&& !before.delivers(event, ctx_before) ==> {
            &&& action is None
            &&& self.inner == before.inner
            &&& data_after == data_before
            &&& ctx_after.is_handled == ctx_before.is_handled
        }
    }

    /// Wraps a widget. It starts at the origin with no size and no flag set.
    pub fn new(inner: W) -> (r: Self)
        requires
            inner.inv(),
        ensures
            r.inv(),
            r.inner == inner,
            r.state == BaseState::initial(),
    {
        WidgetPod { state: BaseState::new(), inner, phantom: PhantomData }
    }

    /// Places the widget in its parent's coordinate frame.
    pub fn set_layout_rect(&mut self, layout_rect: Rect)
        ensures
            final(self).state == (BaseState { layout_rect, ..old(self).state }),
            final(self).inner == old(self).inner,
    {
        self.state.layout_rect = layout_rect;
    }

    /// The widget's place in its parent's coordinate frame.
    pub fn get_layout_rect(&self) -> (r: Rect)
        ensures
            r == self.state.layout_rect,
    {
        self.state.layout_rect
    }

    /// Paints the widget in the current frame: what comes of it is what the
    /// widget's own `paint` makes of the pod's state and the data.
    pub fn paint(&mut self, paint_ctx: &mut PaintCtx, data: &T, env: &Env)
        requires
            old(self).inv(),
        ensures
            final(self).inv(),
            final(self).state == old(self).state,
            old(paint_ctx)@.is_prefix_of(final(paint_ctx)@),
            exists|widget: &mut W, inner_ctx: &mut PaintCtx|
                *widget == old(self).inner && *final(widget) == final(self).inner && *inner_ctx
                    == *old(paint_ctx) && *final(inner_ctx) == *final(paint_ctx)
                    && #[trigger] call_ensures(
                    <W as Widget<T>>::paint,
                    (widget, inner_ctx, &old(self).state, data, env),
                    (),
                ),
    {
        self.inner.paint(paint_ctx, &self.state, data, env);
    }

    /// Paints the widget in a frame moved to the origin of its layout
    /// rectangle, and goes back to the current frame afterwards: between
    /// the two commands that open the frame and the one that closes it
    /// stands what the widget's own `paint` records.
    pub fn paint_with_offset(&mut self, paint_ctx: &mut PaintCtx, data: &T, env: &Env)
        requires
            old(self).inv(),
        ensures
            final(self).inv(),
            final(self).state == old(self).state,
            (old(paint_ctx)@ + seq![
                DrawCommandView::Save,
                DrawCommandView::Translate { by: old(self).state.layout_rect.origin },
            ]).is_prefix_of(final(paint_ctx)@),
            final(paint_ctx)@.len() >= old(paint_ctx)@.len() + 3,
            final(paint_ctx)@.last() == DrawCommandView::Restore,
            exists|widget: &mut W, inner_ctx: &mut PaintCtx|
                *widget == old(self).inner && *final(widget) == final(self).inner && (
                *inner_ctx)@ == old(paint_ctx)@ + seq![
                    DrawCommandView::Save,
                    DrawCommandView::Translate { by: old(self).state.layout_rect.origin },
                ] && final(paint_ctx)@ == (*final(inner_ctx))@.push(DrawCommandView::Restore)
                    && #[trigger] call_ensures(
                    <W as Widget<T>>::paint,
                    (widget, inner_ctx, &old(self).state, data, env),
                    (),
                ),
    {
        let ghost before = paint_ctx@;
        paint_ctx.push(DrawCommand::Save);
        paint_ctx.push(DrawCommand::Translate { by: self.state.layout_rect.origin });
        let ghost opened = paint_ctx@;
        assert(opened =~= before + seq![
            DrawCommandView::Save,
            DrawCommandView::Translate { by: self.state.layout_rect.origin },
        ]);
        self.inner.paint(paint_ctx, &self.state, data, env);
        paint_ctx.push(DrawCommand::Restore);
    }

    /// Lets the widget choose its size within `bc`: the size is what the
    /// widget's own `layout` returns for `bc` and the data. Placing the
    /// widget is up to the caller.
    pub fn layout(&mut self, bc: &BoxConstraints, data: &T, env: &Env) -> (size: Size)
        requires
            old(self).inv(),
            bc.wf(),
        ensures
            final(self).inv(),
            final(self).state == old(self).state,
            bc.contains_spec(size),
            exists|widget: &mut W|
                *widget == old(self).inner && *final(widget) == final(self).inner
                    && #[trigger] call_ensures(
                    <W as Widget<T>>::layout,
                    (widget, bc, data, env),
                    size,
                ),
    {
        self.inner.layout(bc, data, env)
    }

    /// Hands one event to a widget: what comes of it is what the widget's
    /// own `event` makes of it.
    fn tell(inner: &mut W, event: &Event, child_ctx: &mut EventCtx, data: &mut T, env: &Env) -> (action:
        Option<Action>)
        requires
            old(inner).inv(),
        ensures
            final(inner).inv(),
            final(child_ctx).follows(*old(child_ctx)),
            exists|widget: &mut W, inner_ctx: &mut EventCtx, inner_data: &mut T|
                *widget == *old(inner) && *final(widget) == *final(inner) && *inner_ctx == *old(child_ctx) && *final(inner_ctx) == *final(child_ctx) && *inner_data == *old(data) && *final(inner_data) == *final(data) && #[trigger] call_ensures(
                    <W as Widget<T>>::event,
                    (widget, event, inner_ctx, inner_data, env),
                    action,
                ),
    {
        inner.event(event, child_ctx, data, env)
    }

    /// Hands an event to a widget whose frame starts at `origin`, pointer
    /// positions moved into that frame.
    fn hand_on(
        inner: &mut W,
        event: &Event,
        origin: Point,
        child_ctx: &mut EventCtx,
        data: &mut T,
        env: &Env,
    ) -> (action: Option<Action>)
        requires
            old(inner).inv(),
        ensures
            final(inner).inv(),
            final(child_ctx).follows(*old(child_ctx)),
            exists|widget: &mut W, inner_ctx: &mut EventCtx, inner_data: &mut T|
                *widget == *old(inner) && *final(widget) == *final(inner) && *inner_ctx == *old(child_ctx) && *final(inner_ctx) == *final(child_ctx) && *inner_data == *old(data) && *final(inner_data) == *final(data) && #[trigger] call_ensures(
                    <W as Widget<T>>::event,
                    (widget, &moved_spec(*event, origin), inner_ctx, inner_data, env),
                    action,
                ),
    {
        match event {
            Event::MouseDown(m) => {
                let child_event = Event::MouseDown(m.relative_to(origin));
                Self::tell(inner, &child_event, child_ctx, data, env)
            },
            Event::MouseUp(m) => {
                let child_event = Event::MouseUp(m.relative_to(origin));
                Self::tell(inner, &child_event, child_ctx, data, env)
            },
            Event::MouseMoved(m) => {
                let child_event = Event::MouseMoved(m.relative_to(origin));
                Self::tell(inner, &child_event, child_ctx, data, env)
            },
            _ => Self::tell(inner, event, child_ctx, data, env),
        }
    }

    /// Dispatches an event that the parent received.
    ///
    /// The pod first settles whether the pointer is over the widget. Where that
    /// changed, the widget is told so with a hot change of its own. Then the
    /// event goes on, pointer positions moved into the widget's frame, where
    /// [`routes_spec`] says so. What the widget asked for is handed up into
    /// `ctx`. An event that was consumed before it arrives changes nothing.
    ///
    /// Where the event is delivered, the widget, the data and the action are
    /// what the widget's own `event` makes of the moved event in the context
    /// that the pod made for it, after it was told of a hot change where
    /// there was one. The pod's state is what the widget left of that
    /// context.
    #[verifier::rlimit(60)]
    pub fn event(&mut self, event: &Event, ctx: &mut EventCtx, data: &mut T, env: &Env) -> (action:
        Option<Action>)
        requires
            old(self).inv(),
        ensures
            final(self).inv(),
            final(self).dispatched(
                old(self),
                *event,
                *old(ctx),
                *final(ctx),
                *old(data),
                *final(data),
                action,
            ),
            !old(ctx).is_handled && !old(self).delivers(*event, *old(ctx)) ==> {
                &&& final(self).state == settled_spec(child_ctx_spec(old(self).state, *event))
                &&& *final(ctx) == handed_up_spec(*old(ctx), final(self).state, false)
            },
            !old(ctx).is_handled && hot_after_spec(old(self).state, *event) == old(self).state.is_hot && routes_spec(
                old(self).state,
                *event,
                old(ctx).had_active,
                old(ctx).is_root,
            ) ==> exists|widget: &mut W, inner_ctx: &mut EventCtx, inner_data: &mut T|
                *widget == old(self).inner && *final(widget) == final(self).inner && *inner_ctx
                    == routed_ctx_spec(child_ctx_spec(old(self).state, *event)) && *inner_data
                    == *old(data) && *final(inner_data) == *final(data) && final(self).state
                    == settled_spec(*final(inner_ctx)) && *final(ctx) == handed_up_spec(
                    *old(ctx),
                    final(self).state,
                    (*final(inner_ctx)).is_handled,
                ) && #[trigger] call_ensures(
                    <W as Widget<T>>::event,
                    (
                        widget,
                        &moved_spec(*event, old(self).state.layout_rect.origin),
                        inner_ctx,
                        inner_data,
                        env,
                    ),
                    action,
                ),
            !old(ctx).is_handled && hot_after_spec(old(self).state, *event) != old(self).state.is_hot ==> exists|
                told: &mut W,
                told_ctx: &mut EventCtx,
                told_data: &mut T,
                told_action: Option<Action>,
                widget: &mut W,
                inner_ctx: &mut EventCtx,
                inner_data: &mut T,
            |
                #![trigger
                    call_ensures(
                        <W as Widget<T>>::event,
                        (
                            told,
                            &Event::HotChanged(hot_after_spec(old(self).state, *event)),
                            told_ctx,
                            told_data,
                            env,
                        ),
                        told_action,
                    ),
                    call_ensures(
                        <W as Widget<T>>::event,
                        (
                            widget,
                            &moved_spec(*event, old(self).state.layout_rect.origin),
                            inner_ctx,
                            inner_data,
                            env,
                        ),
                        action,
                    )
                ]
                {
                    &&& *told == old(self).inner
                    &&& *told_ctx == child_ctx_spec(old(self).state, *event)
                    &&& *told_data == *old(data)
                    &&& call_ensures(
                        <W as Widget<T>>::event,
                        (
                            told,
                            &Event::HotChanged(hot_after_spec(old(self).state, *event)),
                            told_ctx,
                            told_data,
                            env,
                        ),
                        told_action,
                    )
                    &&& *widget == *final(told)
                    &&& *inner_ctx == routed_ctx_spec(*final(told_ctx))
                    &&& *inner_data == *final(told_data)
                    &&& call_ensures(
                        <W as Widget<T>>::event,
                        (
                            widget,
                            &moved_spec(*event, old(self).state.layout_rect.origin),
                            inner_ctx,
                            inner_data,
                            env,
                        ),
                        action,
                    )
                    &&& *final(widget) == final(self).inner
                    &&& *final(inner_data) == *final(data)
                    &&& final(self).state == settled_spec(*final(inner_ctx))
                    &&& *final(ctx) == handed_up_spec(
                        *old(ctx),
                        final(self).state,
                        (*final(inner_ctx)).is_handled,
                    )
                },
    {
        if ctx.is_handled {
            return None;
        }
        let origin = self.state.layout_rect.origin;
        let had_hot = self.state.is_hot;
        let recurse = routes(&self.state, event, ctx.had_active, ctx.is_root);
        let is_hot = hot_after(&self.state, event);
        proof {
            if had_hot != is_hot {
                lemma_hot_change_is_routed(self.state, *event, ctx.had_active, ctx.is_root);
            }
        }
        let mut child_ctx = EventCtx::new(
            BaseState { is_hot, needs_inval: false, ..self.state },
            self.state.has_active,
            false,
        );
        if had_hot != is_hot {
            let hot_changed = Event::HotChanged(is_hot);
            let _ = Self::tell(&mut self.inner, &hot_changed, &mut child_ctx, data, env);
        }
        let action = if recurse {
            child_ctx.base_state.has_active = false;
            child_ctx.base_state.has_focus = false;
            Self::hand_on(&mut self.inner, event, origin, &mut child_ctx, data, env)
        } else {
            None
        };
        self.settle(&child_ctx, ctx);
        action
    }

    /// Keeps what the widget left of its context and hands up into the
    /// parent's context what the subtree asked for.
    fn settle(&mut self, child_ctx: &EventCtx, ctx: &mut EventCtx)
        ensures
            final(self).inner == old(self).inner,
            final(self).state == settled_spec(*child_ctx),
            *final(ctx) == handed_up_spec(*old(ctx), final(self).state, child_ctx.is_handled),
    {
        let mut state = child_ctx.base_state;
        state.has_active = state.has_active || state.is_active;
        state.has_focus = state.has_focus || state.is_focused;
        self.state = state;
        ctx.base_state.needs_inval = ctx.base_state.needs_inval || state.needs_inval;
        ctx.base_state.has_active = ctx.base_state.has_active || state.has_active;
        ctx.base_state.has_focus = ctx.base_state.has_focus || state.has_focus;
        ctx.is_handled = ctx.is_handled || child_ctx.is_handled;
    }

    /// Tells the widget that the data changed, unless it did not: where
    /// `old_data` is the same as `data`, the widget is not even called.
    /// Where it is called, what comes of it is what the widget's own `update`
    /// makes of the two values; where there was no data before, or the two
    /// values are not the same, it is called.
    pub fn update(&mut self, ctx: &mut UpdateCtx, old_data: Option<&T>, data: &T, env: &Env)
        requires
            old(self).inv(),
        ensures
            final(self).inv(),
            final(self).state == old(self).state,
            old(ctx).needs_inval ==> final(ctx).needs_inval,
            T::obeys_same_spec() && old_data is Some && old_data->0.same_spec(data) ==> {
                &&& *final(ctx) == *old(ctx)
                &&& final(self).inner == old(self).inner
            },
            (final(self).inner == old(self).inner && *final(ctx) == *old(ctx)) || (exists|
                widget: &mut W,
                inner_ctx: &mut UpdateCtx,
            |
                *widget == old(self).inner && *final(widget) == final(self).inner && *inner_ctx
                    == *old(ctx) && *final(inner_ctx) == *final(ctx) && #[trigger] call_ensures(
                    <W as Widget<T>>::update,
                    (widget, inner_ctx, old_data, data, env),
                    (),
                )),
            !(old_data is Some && old_data->0.same_spec(data)) ==> (exists|
                widget: &mut W,
                inner_ctx: &mut UpdateCtx,
            |
                *widget == old(self).inner && *final(widget) == final(self).inner && *inner_ctx
                    == *old(ctx) && *final(inner_ctx) == *final(ctx) && #[trigger] call_ensures(
                    <W as Widget<T>>::update,
                    (widget, inner_ctx, old_data, data, env),
                    (),
                )),
    {
        if let Some(previous) = old_data {
            if previous.same(data) {
                return ;
            }
        }
        self.inner.update(ctx, old_data, data, env);
    }
}

} // verus!
