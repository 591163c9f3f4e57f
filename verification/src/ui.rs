//! The root of the tree: it owns the data and the root widget and drives one
//! pass of event, update, layout and paint for each event from outside.

use crate::context::{BaseState, Env, EventCtx, UpdateCtx};
use crate::data::Data;
use crate::event::{Action, Event};
use crate::geometry::{BoxConstraints, Point, Rect, Size};
use crate::paint::{DrawCommand, DrawCommandView, PaintCtx};
use crate::widget::pod::WidgetPod;
use crate::widget::Widget;
use vstd::prelude::*;

verus! {

/// What one event led to.
pub struct EventOutcome {
    /// The action that came up from the tree, if any.
    pub action: Option<Action>,
    /// Whether some widget consumed the event.
    pub is_handled: bool,
    /// Whether some widget asked for a repaint and relayout.
    pub dirty: bool,
}

/// The application's data together with the widget tree that shows it.
pub struct UiState<T: Data, W: Widget<T>> {
    pub root: WidgetPod<T, W>,
    /// The one authoritative value of the data.
    pub data: T,
    /// The data as the tree was last told of it; none before the first time.
    pub snapshot: Option<T>,
    /// The size of the window.
    pub size: Size,
    pub env: Env,
}

/// The size of the window once `event` has been seen: a resize sets it, any
/// other event leaves it as it was.
pub open spec fn size_after_spec(size: Size, event: Event) -> Size {
    match event {
        Event::Size(to) => to,
        _ => size,
    }
}

/// The context in which the root is handed an event: nothing asked for
/// and nothing consumed yet.
pub open spec fn root_ctx_spec(had_active: bool) -> EventCtx {
    EventCtx { base_state: BaseState::initial(), had_active, is_handled: false, is_root: true }
}

/// The data that the tree was last told of, for telling it again.
pub open spec fn told_of<T>(snapshot: &Option<T>) -> Option<&T> {
    match snapshot {
        Some(previous) => Some(previous),
        None => None,
    }
}

impl<T: Data, W: Widget<T>> UiState<T, W> {
    /// The root widget's invariant holds.
    pub open spec fn wf(&self) -> bool {
        self.root.inv()
    }

    /// A tree with `root` at its top, showing `data`, in a window of no size.
    pub fn new(root: W, data: T) -> (r: Self)
        requires
            root.inv(),
        ensures
            r.wf(),
            r.root.inner == root,
            r.root.state == BaseState::initial(),
            r.data == data,
            r.snapshot is None,
            r.size == (Size { width: 0, height: 0 }),
    {
        UiState {
            root: WidgetPod::new(root),
            data,
            snapshot: None,
            size: Size::zero(),
            env: Env::new(),
        }
    }

    /// The data as it is now.
    pub fn data(&self) -> (r: &T)
        ensures
            *r == self.data,
    {
        &self.data
    }

    /// Dispatches one event from outside and then, where the data is not the
    /// same as the tree was last told, tells the tree.
    ///
    /// A resize sets the window's size before it is dispatched. The tree is
    /// told of the data the first time in any case. Where the data is the
    /// same as the snapshot, the snapshot stays and the tree is not told.
    ///
    /// The action, and whether the event was consumed, are what the root's
    /// pod makes of the event in a fresh root context. Where the tree is
    /// told, what comes of it is what the root's pod makes of the snapshot
    /// and the data, and the new snapshot is a clone of the data. The
    /// outcome is dirty where either of the two asked for invalidation.
    pub fn event(&mut self, event: &Event) -> (outcome: EventOutcome)
        requires
            old(self).wf(),
        ensures
            final(self).wf(),
            final(self).size == size_after_spec(old(self).size, *event),
            final(self).root.state.layout_rect == old(self).root.state.layout_rect,
            final(self).snapshot is Some,
            T::obeys_same_spec() && old(self).snapshot is Some && old(self).snapshot->0.same_spec(
                &final(self).data,
            ) ==> final(self).snapshot == old(self).snapshot,
            exists|pod: &mut WidgetPod<T, W>, root_ctx: &mut EventCtx, root_data: &mut T|
                {
                    &&& *pod == old(self).root
                    &&& *root_ctx == root_ctx_spec(old(self).root.state.has_active)
                    &&& *root_data == old(self).data
                    &&& *final(root_data) == final(self).data
                    &&& #[trigger] call_ensures(
                        WidgetPod::<T, W>::event,
                        (pod, event, root_ctx, root_data, &old(self).env),
                        outcome.action,
                    )
                    &&& outcome.is_handled == (*final(root_ctx)).is_handled
                    &&& {
                        ||| {
                            &&& old(self).snapshot is Some
                            &&& old(self).snapshot->0.same_spec(&final(self).data)
                            &&& final(self).root == *final(pod)
                            &&& final(self).snapshot == old(self).snapshot
                            &&& outcome.dirty == (*final(root_ctx)).base_state.needs_inval
                        }
                        ||| exists|told: &mut WidgetPod<T, W>, update_ctx: &mut UpdateCtx|
                            {
                                &&& *told == *final(pod)
                                &&& *final(told) == final(self).root
                                &&& !(*update_ctx).needs_inval
                                &&& #[trigger] call_ensures(
                                    WidgetPod::<T, W>::update,
                                    (
                                        told,
                                        update_ctx,
                                        told_of(&old(self).snapshot),
                                        &final(self).data,
                                        &old(self).env,
                                    ),
                                    (),
                                )
                                &&& outcome.dirty == ((*final(root_ctx)).base_state.needs_inval || (
                                *final(update_ctx)).needs_inval)
                                &&& vstd::pervasive::cloned::<T>(
                                    final(self).data,
                                    final(self).snapshot->0,
                                )
                            }
                    }
                },
    {
        let mut ctx = EventCtx::new(BaseState::new(), self.root.state.has_active, true);
        let action = self.dispatch(event, &mut ctx);
        let ghost dispatched = *self;
        let told = self.tell_tree();
        EventOutcome {
            action,
            is_handled: ctx.is_handled,
            dirty: ctx.base_state.needs_inval || told,
        }
    }

    /// The first half of a pass: sets the size on a resize and hands the
    /// event to the root's pod in the given context.
    fn dispatch(&mut self, event: &Event, ctx: &mut EventCtx) -> (action: Option<Action>)
        requires
            old(self).wf(),
        ensures
            final(self).wf(),
            final(self).size == size_after_spec(old(self).size, *event),
            final(self).snapshot == old(self).snapshot,
            final(self).env == old(self).env,
            final(self).root.state.layout_rect == old(self).root.state.layout_rect,
            exists|pod: &mut WidgetPod<T, W>, root_ctx: &mut EventCtx, root_data: &mut T|
                {
                    &&& *pod == old(self).root
                    &&& *final(pod) == final(self).root
                    &&& *root_ctx == *old(ctx)
                    &&& *final(root_ctx) == *final(ctx)
                    &&& *root_data == old(self).data
                    &&& *final(root_data) == final(self).data
                    &&& #[trigger] call_ensures(
                        WidgetPod::<T, W>::event,
                        (pod, event, root_ctx, root_data, &old(self).env),
                        action,
                    )
                },
    {
        match event {
            Event::Size(to) => {
                self.size = *to;
            },
            _ => {},
        }
        self.root.event(event, ctx, &mut self.data, &self.env)
    }

    /// The second half of a pass: tells the tree of the data unless the data
    /// is the same as the tree was last told, and keeps a clone of the data
    /// as the new snapshot. Returns whether invalidation was asked for.
    fn tell_tree(&mut self) -> (needs_inval: bool)
        requires
            old(self).wf(),
        ensures
            final(self).wf(),
            final(self).size == old(self).size,
            final(self).data == old(self).data,
            final(self).env == old(self).env,
            final(self).root.state == old(self).root.state,
            final(self).snapshot is Some,
            T::obeys_same_spec() && old(self).snapshot is Some && old(self).snapshot->0.same_spec(
                &old(self).data,
            ) ==> final(self).snapshot == old(self).snapshot,
            ({
                &&& old(self).snapshot is Some
                &&& old(self).snapshot->0.same_spec(&old(self).data)
                &&& final(self).root == old(self).root
                &&& final(self).snapshot == old(self).snapshot
                &&& !needs_inval
            }) || (exists|told: &mut WidgetPod<T, W>, update_ctx: &mut UpdateCtx|
                {
                    &&& *told == old(self).root
                    &&& *final(told) == final(self).root
                    &&& !(*update_ctx).needs_inval
                    &&& #[trigger] call_ensures(
                        WidgetPod::<T, W>::update,
                        (
                            told,
                            update_ctx,
                            told_of(&old(self).snapshot),
                            &old(self).data,
                            &old(self).env,
                        ),
                        (),
                    )
                    &&& needs_inval == (*final(update_ctx)).needs_inval
                    &&& vstd::pervasive::cloned::<T>(old(self).data, final(self).snapshot->0)
                }),
    {
        let mut update_ctx = UpdateCtx::new();
        let same = match &self.snapshot {
            Some(previous) => previous.same(&self.data),
            None => false,
        };
        if !same {
            match &self.snapshot {
                Some(previous) => {
                    self.root.update(&mut update_ctx, Some(previous), &self.data, &self.env);
                },
                None => {
                    self.root.update(&mut update_ctx, None, &self.data, &self.env);
                },
            }
            self.snapshot = Some(self.data.clone());
        }
        update_ctx.needs_inval
    }

    /// Sets the window's size, as a resize event does: what comes of it is
    /// what [`UiState::event`] makes of a resize to that size.
    pub fn size_changed(&mut self, size: Size) -> (outcome: EventOutcome)
        requires
            old(self).wf(),
        ensures
            final(self).wf(),
            final(self).size == size,
            final(self).snapshot is Some,
            exists|state: &mut UiState<T, W>|
                *state == *old(self) && *final(state) == *final(self) && #[trigger] call_ensures(
                    UiState::<T, W>::event,
                    (state, &Event::Size(size)),
                    outcome,
                ),
    {
        let event = Event::Size(size);
        self.event(&event)
    }

    /// Lays the tree out in the window: the root widget's own `layout` is
    /// asked for exactly the window's size, and the root stands at the
    /// origin with that size.
    pub fn layout(&mut self) -> (size: Size)
        requires
            old(self).wf(),
        ensures
            final(self).wf(),
            size == old(self).size,
            final(self).size == old(self).size,
            final(self).data == old(self).data,
            final(self).snapshot == old(self).snapshot,
            final(self).root.state == (BaseState {
                layout_rect: Rect { origin: Point { x: 0, y: 0 }, size: old(self).size },
                ..old(self).root.state
            }),
            exists|widget: &mut W|
                *widget == old(self).root.inner && *final(widget) == final(self).root.inner
                    && #[trigger] call_ensures(
                    <W as Widget<T>>::layout,
                    (
                        widget,
                        &(BoxConstraints { min: old(self).size, max: old(self).size }),
                        &old(self).data,
                        &old(self).env,
                    ),
                    size,
                ),
    {
        let bc = BoxConstraints::tight(self.size);
        let size = self.root.layout(&bc, &self.data, &self.env);
        self.root.set_layout_rect(Rect::from_origin_size(Point::origin(), size));
        size
    }

    /// Lays the tree out and paints it. Returns the commands to draw the
    /// window with, in order: what the root widget's own `paint` records,
    /// starting from nothing, once it was laid out. The data is not touched.
    pub fn paint(&mut self) -> (commands: Vec<DrawCommand>)
        requires
            old(self).wf(),
        ensures
            final(self).wf(),
            final(self).size == old(self).size,
            final(self).data == old(self).data,
            final(self).snapshot == old(self).snapshot,
            final(self).root.state == (BaseState {
                layout_rect: Rect { origin: Point { x: 0, y: 0 }, size: old(self).size },
                ..old(self).root.state
            }),
            exists|laid: &mut W, painted: &mut W, paint_ctx: &mut PaintCtx|
                #![trigger
                    call_ensures(
                        <W as Widget<T>>::layout,
                        (
                            laid,
                            &(BoxConstraints { min: old(self).size, max: old(self).size }),
                            &old(self).data,
                            &old(self).env,
                        ),
                        old(self).size,
                    ),
                    call_ensures(
                        <W as Widget<T>>::paint,
                        (
                            painted,
                            paint_ctx,
                            &final(self).root.state,
                            &old(self).data,
                            &old(self).env,
                        ),
                        (),
                    )
                ]
                {
                    &&& *laid == old(self).root.inner
                    &&& call_ensures(
                        <W as Widget<T>>::layout,
                        (
                            laid,
                            &(BoxConstraints { min: old(self).size, max: old(self).size }),
                            &old(self).data,
                            &old(self).env,
                        ),
                        old(self).size,
                    )
                    &&& *painted == *final(laid)
                    &&& *final(painted) == final(self).root.inner
                    &&& (*paint_ctx)@ == Seq::<DrawCommandView>::empty()
                    &&& (*final(paint_ctx)).commands == commands
                    &&& call_ensures(
                        <W as Widget<T>>::paint,
                        (
                            painted,
                            paint_ctx,
                            &final(self).root.state,
                            &old(self).data,
                            &old(self).env,
                        ),
                        (),
                    )
                },
    {
        let _ = self.layout();
        let mut paint_ctx = PaintCtx::new();
        self.root.paint(&mut paint_ctx, &self.data, &self.env);
        paint_ctx.into_commands()
    }

    /// One whole pass for one event from outside: event, update, layout and
    /// paint, in this order and without a break. The outcome is what
    /// [`UiState::event`] makes of the event, and the commands are what
    /// [`UiState::paint`] records right after it.
    pub fn cycle(&mut self, event: &Event) -> (r: (EventOutcome, Vec<DrawCommand>))
        requires
            old(self).wf(),
        ensures
            final(self).wf(),
            final(self).size == size_after_spec(old(self).size, *event),
            final(self).snapshot is Some,
            final(self).root.state.layout_rect == (Rect {
                origin: Point { x: 0, y: 0 },
                size: final(self).size,
            }),
            exists|first: &mut UiState<T, W>, second: &mut UiState<T, W>|
                #![trigger
                    call_ensures(UiState::<T, W>::event, (first, event), r.0),
                    call_ensures(UiState::<T, W>::paint, (second,), r.1)
                ]
                {
                    &&& *first == *old(self)
                    &&& call_ensures(UiState::<T, W>::event, (first, event), r.0)
                    &&& *second == *final(first)
                    &&& *final(second) == *final(self)
                    &&& call_ensures(UiState::<T, W>::paint, (second,), r.1)
                },
    {
        let outcome = self.event(event);
        let ghost told = *self;
        let commands = self.paint();
        let r = (outcome, commands);
        proof {
            assert(exists|first: &mut UiState<T, W>, second: &mut UiState<T, W>|
                #![trigger
                    call_ensures(UiState::<T, W>::event, (first, event), outcome),
                    call_ensures(UiState::<T, W>::paint, (second,), commands)
                ]
                {
                    &&& *first == *old(self)
                    &&& *final(first) == told
                    &&& call_ensures(UiState::<T, W>::event, (first, event), outcome)
                    &&& *second == told
                    &&& *final(second) == *self
                    &&& call_ensures(UiState::<T, W>::paint, (second,), commands)
                });
            assert(r.0 == outcome);
            assert(r.1 == commands);
        }
        r
    }
}

} // verus!
