//! Lists: a fixed one, and one that is built anew from the data.

use crate::context::{BaseState, Env, EventCtx, UpdateCtx};
use crate::data::Data;
use crate::event::{Action, Event};
use crate::geometry::{Axis, BoxConstraints, Point, Rect, Size};
use crate::paint::{DrawCommandView, PaintCtx};
use crate::widget::flex::{Column, Flex};
use crate::widget::pod::WidgetPod;
use crate::widget::scroll::{scrolled_spec, Scroll, ScrollDirection};
use crate::widget::Widget;
use vstd::prelude::*;

verus! {

/// A fixed list: the given widgets one below the other, each as high as it
/// asks to be, in a viewport that scrolls up and down.
pub struct ListView<T: Data, W: Widget<T>> {
    pub child: Scroll<T, Flex<T, W>>,
}

impl<T: Data, W: Widget<T>> ListView<T, W> {
    /// The column of widgets inside the viewport.
    pub open spec fn column(&self) -> Flex<T, W> {
        self.child.child.inner
    }

    /// Whether the list shows exactly `widgets`, in order, fresh and unscrolled.
    pub open spec fn lists(&self, widgets: Seq<W>) -> bool {
        &&& self.child.direction == ScrollDirection::Vertical
        &&& self.child.scroll_offset == (Point { x: 0, y: 0 })
        &&& self.child.child.state == BaseState::initial()
        &&& self.column().direction == Axis::Vertical
        &&& self.column().children@.len() == widgets.len()
        &&& forall|i: int|
            #![trigger widgets[i]]
            0 <= i < widgets.len() ==> {
                &&& self.column().children@[i].pod.inner == widgets[i]
                &&& self.column().children@[i].pod.state == BaseState::initial()
                &&& self.column().children@[i].weight == 0
            }
    }

    /// A list of the given widgets, in the order given.
    pub fn new(children: Vec<W>) -> (r: Self)
        requires
            forall|i: int| 0 <= i < children@.len() ==> (#[trigger] children@[i]).inv(),
        ensures
            r.inv(),
            r.lists(children@),
    {
        let ghost widgets = children@;
        let ghost n = children@.len() as int;
        // A vector gives its elements up from the back, so the widgets are
        // first turned over and then added from what was the front.
        let mut rest = children;
        let mut stack: Vec<W> = Vec::new();
        while rest.len() > 0
            invariant
                rest@.len() + stack@.len() == n,
                n == widgets.len(),
                forall|i: int| 0 <= i < rest@.len() ==> rest@[i] == widgets[i],
                forall|i: int| 0 <= i < stack@.len() ==> stack@[i] == widgets[n - 1 - i],
            decreases rest@.len(),
        {
            match rest.pop() {
                Some(widget) => {
                    stack.push(widget);
                },
                None => {},
            }
        }
        let mut flex: Flex<T, W> = Column::new();
        while stack.len() > 0
            invariant
                flex.children@.len() + stack@.len() == n,
                n == widgets.len(),
                forall|i: int| 0 <= i < n ==> (#[trigger] widgets[i]).inv(),
                forall|i: int| 0 <= i < stack@.len() ==> stack@[i] == widgets[n - 1 - i],
                flex.wf(),
                flex.direction == Axis::Vertical,
                forall|i: int|
                    #![trigger widgets[i]]
                    0 <= i < flex.children@.len() ==> {
                        &&& flex.children@[i].pod.inner == widgets[i]
                        &&& flex.children@[i].pod.state == BaseState::initial()
                        &&& flex.children@[i].weight == 0
                    },
            decreases stack@.len(),
        {
            let ghost before = flex.children@;
            match stack.pop() {
                Some(widget) => {
                    assert(widget == widgets[before.len() as int]);
                    flex.add_child(widget, 0);
                    assert forall|i: int| 0 <= i < before.len() implies flex.children@[i]
                        == before[i] by {
                        assert(flex.children@.drop_last()[i] == before[i]);
                    }
                    assert(flex.children@[before.len() as int] == flex.children@.last());
                },
                None => {},
            }
        }
        ListView { child: Scroll::new(flex).vertical() }
    }
}

impl<T: Data, W: Widget<T>> Widget<T> for ListView<T, W> {
    open spec fn inv(&self) -> bool {
        self.child.inv()
    }

    /// Paints the column clipped to the viewport, in a frame moved back by
    /// the scroll offset: between the three commands that open the frame and
    /// the one that closes it stands what the column records.
    fn paint(&mut self, paint_ctx: &mut PaintCtx, base_state: &BaseState, data: &T, env: &Env)
        ensures
            (old(paint_ctx)@ + seq![
                DrawCommandView::Save,
                DrawCommandView::Clip {
                    rect: Rect { origin: Point { x: 0, y: 0 }, size: base_state.layout_rect.size },
                    radius: 0,
                },
                DrawCommandView::Translate {
                    by: (Point { x: 0, y: 0 }).minus_spec(old(self).child.scroll_offset),
                },
            ]).is_prefix_of(final(paint_ctx)@),
            final(paint_ctx)@.last() == DrawCommandView::Restore,
            final(self).child.scroll_offset == old(self).child.scroll_offset,
            final(self).child.child.state == old(self).child.child.state,
            exists|column: &mut Flex<T, W>, inner_ctx: &mut PaintCtx|
                *column == old(self).column() && *final(column) == final(self).column()
                    && (*inner_ctx)@ == old(paint_ctx)@ + seq![
                    DrawCommandView::Save,
                    DrawCommandView::Clip {
                        rect: Rect {
                            origin: Point { x: 0, y: 0 },
                            size: base_state.layout_rect.size,
                        },
                        radius: 0,
                    },
                    DrawCommandView::Translate {
                        by: (Point { x: 0, y: 0 }).minus_spec(old(self).child.scroll_offset),
                    },
                ] && final(paint_ctx)@ == (*final(inner_ctx))@.push(DrawCommandView::Restore)
                    && #[trigger] call_ensures(
                    <Flex<T, W> as Widget<T>>::paint,
                    (column, inner_ctx, &old(self).child.child.state, data, env),
                    (),
                ),
    {
        self.child.paint(paint_ctx, base_state, data, env);
    }

    /// Lays out the viewport: the size is what the viewport's own `layout`
    /// returns, which lets the column be as high as its widgets ask, puts
    /// it at the origin and clips its size to `bc`.
    fn layout(&mut self, bc: &BoxConstraints, data: &T, env: &Env) -> (size: Size)
        ensures
            size == bc.constrain_spec(final(self).child.child_size),
            final(self).child.direction == old(self).child.direction,
            final(self).child.child.state == (BaseState {
                layout_rect: Rect {
                    origin: Point { x: 0, y: 0 },
                    size: final(self).child.child_size,
                },
                ..old(self).child.child.state
            }),
            exists|column: &mut Flex<T, W>|
                *column == old(self).column() && *final(column) == final(self).column()
                    && #[trigger] call_ensures(
                    <Flex<T, W> as Widget<T>>::layout,
                    (
                        column,
                        &(BoxConstraints {
                            min: Size { width: 0, height: 0 },
                            max: old(self).child.direction.max_size_spec(*bc),
                        }),
                        data,
                        env,
                    ),
                    final(self).child.child_size,
                ),
            exists|scroll: &mut Scroll<T, Flex<T, W>>|
                *scroll == old(self).child && *final(scroll) == final(self).child
                    && #[trigger] call_ensures(
                    <Scroll<T, Flex<T, W>> as Widget<T>>::layout,
                    (scroll, bc, data, env),
                    size,
                ),
    {
        self.child.layout(bc, data, env)
    }

    /// Hands the event to the column, pointer positions moved by the scroll
    /// offset: what comes of it is what the column's pod makes of the moved
    /// event. The viewport stays as it is, and the column keeps its widgets
    /// and their weights.
    fn event(&mut self, event: &Event, ctx: &mut EventCtx, data: &mut T, env: &Env) -> (action:
        Option<Action>)
        ensures
            final(self).child.child_size == old(self).child.child_size,
            final(self).child.scroll_offset == old(self).child.scroll_offset,
            final(self).child.direction == old(self).child.direction,
            final(self).child.child.dispatched(
                &old(self).child.child,
                scrolled_spec(*event, old(self).child.scroll_offset),
                *old(ctx),
                *final(ctx),
                *old(data),
                *final(data),
                action,
            ),
            final(self).column().direction == old(self).column().direction,
            final(self).column().children@.len() == old(self).column().children@.len(),
            final(self).column().weights() == old(self).column().weights(),
            exists|
                pod: &mut WidgetPod<T, Flex<T, W>>,
                inner_ctx: &mut EventCtx,
                inner_data: &mut T,
            |
                *pod == old(self).child.child && *final(pod) == final(self).child.child
                    && *inner_ctx == *old(ctx) && *final(inner_ctx) == *final(ctx) && *inner_data
                    == *old(data) && *final(inner_data) == *final(data)
                    && #[trigger] call_ensures(
                    WidgetPod::<T, Flex<T, W>>::event,
                    (
                        pod,
                        &scrolled_spec(*event, old(self).child.scroll_offset),
                        inner_ctx,
                        inner_data,
                        env,
                    ),
                    action,
                ),
    {
        self.child.event(event, ctx, data, env)
    }

    /// Tells the column that the data changed, unless it is the same as
    /// before: what comes of it is what the column's own `update` makes of
    /// the two values. The viewport stays as it is.
    fn update(&mut self, ctx: &mut UpdateCtx, old_data: Option<&T>, data: &T, env: &Env)
        ensures
            T::obeys_same_spec() && old_data is Some && old_data->0.same_spec(data)
                ==> final(self).column() == old(self).column(),
            final(self).child.scroll_offset == old(self).child.scroll_offset,
            final(self).child.child.state == old(self).child.child.state,
            (final(self).column() == old(self).column() && *final(ctx) == *old(ctx)) || (exists|
                column: &mut Flex<T, W>,
                inner_ctx: &mut UpdateCtx,
            |
                *column == old(self).column() && *final(column) == final(self).column()
                    && *inner_ctx == *old(ctx) && *final(inner_ctx) == *final(ctx)
                    && #[trigger] call_ensures(
                    <Flex<T, W> as Widget<T>>::update,
                    (column, inner_ctx, old_data, data, env),
                    (),
                )),
            !(old_data is Some && old_data->0.same_spec(data)) ==> (exists|
                column: &mut Flex<T, W>,
                inner_ctx: &mut UpdateCtx,
            |
                *column == old(self).column() && *final(column) == final(self).column()
                    && *inner_ctx == *old(ctx) && *final(inner_ctx) == *final(ctx)
                    && #[trigger] call_ensures(
                    <Flex<T, W> as Widget<T>>::update,
                    (column, inner_ctx, old_data, data, env),
                    (),
                )),
    {
        self.child.update(ctx, old_data, data, env);
    }
}

/// A list that is made from the data: one widget for each string, built by
/// a function from the string and its place in the list.
///
/// The list is built anew whenever the data is not the same as before.
/// Since vectors are the same whenever they are equally long, replacing a
/// string by another leaves the list as it was.
pub struct DynListView<C: Widget<Vec<String>>, F> {
    pub child: Scroll<Vec<String>, Flex<Vec<String>, C>>,
    pub builder: F,
}

impl<C: Widget<Vec<String>>, F: Fn(usize, &String) -> C> DynListView<C, F> {
    /// The builder accepts every argument, and what it builds is in order.
    pub open spec fn wf(&self) -> bool {
        &&& self.child.inv()
        &&& forall|i: usize, item: &String| call_requires(self.builder, (i, item))
        &&& forall|i: usize, item: &String, built: C|
            call_ensures(self.builder, (i, item), built) ==> built.inv()
    }

    /// The column of widgets inside the viewport.
    pub open spec fn column(&self) -> Flex<Vec<String>, C> {
        self.child.child.inner
    }

    /// Whether the list was just built from `items`: one widget for each
    /// item, in order, each a result of the builder on the item and its
    /// index, all fresh and unscrolled.
    pub open spec fn built_from(&self, items: Seq<String>) -> bool {
        &&& self.child.direction == ScrollDirection::Vertical
        &&& self.child.scroll_offset == (Point { x: 0, y: 0 })
        &&& self.child.child.state == BaseState::initial()
        &&& self.column().direction == Axis::Vertical
        &&& self.column().children@.len() == items.len()
        &&& forall|i: int|
            #![trigger items[i]]
            0 <= i < items.len() ==> {
                &&& call_ensures(
                    self.builder,
                    (i as usize, &items[i]),
                    self.column().children@[i].pod.inner,
                )
                &&& self.column().children@[i].pod.state == BaseState::initial()
                &&& self.column().children@[i].weight == 0
            }
    }

    /// An empty list that will be built by `builder`.
    pub fn new(builder: F) -> (r: Self)
        requires
            forall|i: usize, item: &String| call_requires(builder, (i, item)),
            forall|i: usize, item: &String, built: C|
                call_ensures(builder, (i, item), built) ==> built.inv(),
        ensures
            r.wf(),
            r.builder == builder,
            r.built_from(Seq::empty()),
    {
        let flex: Flex<Vec<String>, C> = Column::new();
        DynListView { child: Scroll::new(flex).vertical(), builder }
    }

    /// Throws the widgets away and builds the list anew from `data`, calling
    /// the builder once for each item, in order.
    fn rebuild(&mut self, data: &Vec<String>)
        requires
            old(self).wf(),
        ensures
            final(self).wf(),
            final(self).builder == old(self).builder,
            final(self).built_from(data@),
    {
        let mut flex: Flex<Vec<String>, C> = Column::new();
        let mut i: usize = 0;
        while i < data.len()
            invariant
                i <= data@.len(),
                self.wf(),
                self.builder == old(self).builder,
                flex.wf(),
                flex.direction == Axis::Vertical,
                flex.children@.len() == i,
                forall|j: int|
                    #![trigger data@[j]]
                    0 <= j < i ==> {
                        &&& call_ensures(
                            self.builder,
                            (j as usize, &data@[j]),
                            flex.children@[j].pod.inner,
                        )
                        &&& flex.children@[j].pod.state == BaseState::initial()
                        &&& flex.children@[j].weight == 0
                    },
            decreases data@.len() - i,
        {
            let ghost before = flex.children@;
            let built = (self.builder)(i, &data[i]);
            flex.add_child(built, 0);
            assert forall|j: int| 0 <= j < before.len() implies flex.children@[j] == before[j] by {
                assert(flex.children@.drop_last()[j] == before[j]);
            }
            i += 1;
        }
        self.child = Scroll::new(flex).vertical();
    }
}

impl<C: Widget<Vec<String>>, F: Fn(usize, &String) -> C> Widget<Vec<String>> for DynListView<C, F> {
    open spec fn inv(&self) -> bool {
        self.wf()
    }

    /// Paints the column clipped to the viewport, in a frame moved back by
    /// the scroll offset: between the three commands that open the frame and
    /// the one that closes it stands what the column records.
    fn paint(
        &mut self,
        paint_ctx: &mut PaintCtx,
        base_state: &BaseState,
        data: &Vec<String>,
        env: &Env,
    )
        ensures
            final(self).builder == old(self).builder,
            (old(paint_ctx)@ + seq![
                DrawCommandView::Save,
                DrawCommandView::Clip {
                    rect: Rect { origin: Point { x: 0, y: 0 }, size: base_state.layout_rect.size },
                    radius: 0,
                },
                DrawCommandView::Translate {
                    by: (Point { x: 0, y: 0 }).minus_spec(old(self).child.scroll_offset),
                },
            ]).is_prefix_of(final(paint_ctx)@),
            final(paint_ctx)@.last() == DrawCommandView::Restore,
            final(self).child.scroll_offset == old(self).child.scroll_offset,
            final(self).child.child.state == old(self).child.child.state,
            exists|column: &mut Flex<Vec<String>, C>, inner_ctx: &mut PaintCtx|
                *column == old(self).column() && *final(column) == final(self).column()
                    && (*inner_ctx)@ == old(paint_ctx)@ + seq![
                    DrawCommandView::Save,
                    DrawCommandView::Clip {
                        rect: Rect {
                            origin: Point { x: 0, y: 0 },
                            size: base_state.layout_rect.size,
                        },
                        radius: 0,
                    },
                    DrawCommandView::Translate {
                        by: (Point { x: 0, y: 0 }).minus_spec(old(self).child.scroll_offset),
                    },
                ] && final(paint_ctx)@ == (*final(inner_ctx))@.push(DrawCommandView::Restore)
                    && #[trigger] call_ensures(
                    <Flex<Vec<String>, C> as Widget<Vec<String>>>::paint,
                    (column, inner_ctx, &old(self).child.child.state, data, env),
                    (),
                ),
    {
        self.child.paint(paint_ctx, base_state, data, env);
    }

    /// Lays out the viewport: the size is what the viewport's own `layout`
    /// returns, which lets the column be as high as its widgets ask, puts
    /// it at the origin and clips its size to `bc`.
    fn layout(&mut self, bc: &BoxConstraints, data: &Vec<String>, env: &Env) -> (size: Size)
        ensures
            final(self).builder == old(self).builder,
            size == bc.constrain_spec(final(self).child.child_size),
            final(self).child.direction == old(self).child.direction,
            final(self).child.child.state == (BaseState {
                layout_rect: Rect {
                    origin: Point { x: 0, y: 0 },
                    size: final(self).child.child_size,
                },
                ..old(self).child.child.state
            }),
            exists|column: &mut Flex<Vec<String>, C>|
                *column == old(self).column() && *final(column) == final(self).column()
                    && #[trigger] call_ensures(
                    <Flex<Vec<String>, C> as Widget<Vec<String>>>::layout,
                    (
                        column,
                        &(BoxConstraints {
                            min: Size { width: 0, height: 0 },
                            max: old(self).child.direction.max_size_spec(*bc),
                        }),
                        data,
                        env,
                    ),
                    final(self).child.child_size,
                ),
            exists|scroll: &mut Scroll<Vec<String>, Flex<Vec<String>, C>>|
                *scroll == old(self).child && *final(scroll) == final(self).child
                    && #[trigger] call_ensures(
                    <Scroll<Vec<String>, Flex<Vec<String>, C>> as Widget<Vec<String>>>::layout,
                    (scroll, bc, data, env),
                    size,
                ),
    {
        self.child.layout(bc, data, env)
    }

    /// Hands the event to the column, pointer positions moved by the scroll
    /// offset: what comes of it is what the column's pod makes of the moved
    /// event. The viewport and the builder stay as they are; the column
    /// keeps its widgets and their weights, and none is built anew.
    fn event(
        &mut self,
        event: &Event,
        ctx: &mut EventCtx,
        data: &mut Vec<String>,
        env: &Env,
    ) -> (action: Option<Action>)
        ensures
            final(self).builder == old(self).builder,
            final(self).child.child_size == old(self).child.child_size,
            final(self).child.scroll_offset == old(self).child.scroll_offset,
            final(self).child.direction == old(self).child.direction,
            final(self).child.child.dispatched(
                &old(self).child.child,
                scrolled_spec(*event, old(self).child.scroll_offset),
                *old(ctx),
                *final(ctx),
                *old(data),
                *final(data),
                action,
            ),
            final(self).column().direction == old(self).column().direction,
            final(self).column().children@.len() == old(self).column().children@.len(),
            final(self).column().weights() == old(self).column().weights(),
            exists|
                pod: &mut WidgetPod<Vec<String>, Flex<Vec<String>, C>>,
                inner_ctx: &mut EventCtx,
                inner_data: &mut Vec<String>,
            |
                *pod == old(self).child.child && *final(pod) == final(self).child.child
                    && *inner_ctx == *old(ctx) && *final(inner_ctx) == *final(ctx) && *inner_data
                    == *old(data) && *final(inner_data) == *final(data)
                    && #[trigger] call_ensures(
                    WidgetPod::<Vec<String>, Flex<Vec<String>, C>>::event,
                    (
                        pod,
                        &scrolled_spec(*event, old(self).child.scroll_offset),
                        inner_ctx,
                        inner_data,
                        env,
                    ),
                    action,
                ),
    {
        self.child.event(event, ctx, data, env)
    }

    /// Where there was no data before, or the data is not as long as it was,
    /// the list is built anew from the data and asks for invalidation.
    /// Otherwise the widgets stay, the builder is not called, and nothing is
    /// asked for.
    fn update(
        &mut self,
        ctx: &mut UpdateCtx,
        old_data: Option<&Vec<String>>,
        data: &Vec<String>,
        env: &Env,
    )
        ensures
            final(self).builder == old(self).builder,
            old_data is Some && old_data->0@.len() == data@.len() ==> {
                &&& *final(ctx) == *old(ctx)
                &&& final(self).column() == old(self).column()
                &&& final(self).child.scroll_offset == old(self).child.scroll_offset
            },
            !(old_data is Some && old_data->0@.len() == data@.len()) ==> {
                &&& final(ctx).needs_inval
                &&& final(self).built_from(data@)
            },
    {
        match old_data {
            Some(previous) => {
                if !previous.same(data) {
                    self.rebuild(data);
                    ctx.invalidate();
                } else {
                    self.child.update(ctx, old_data, data, env);
                }
            },
            None => {
                self.rebuild(data);
                ctx.invalidate();
            },
        }
    }
}

} // verus!
