//! A viewport that shows part of a child larger than itself.

use crate::context::{BaseState, Env, EventCtx, UpdateCtx};
use crate::data::Data;
use crate::event::{Action, Event, MouseEvent};
use crate::geometry::{BoxConstraints, Point, Rect, Size, UNBOUNDED};
use crate::paint::{DrawCommand, DrawCommandView, PaintCtx};
use crate::widget::pod::WidgetPod;
use crate::widget::Widget;
use vstd::prelude::*;

verus! {

/// The directions in which a viewport lets its child grow beyond it.
#[derive(Clone, Copy, Debug, PartialEq, Eq, Structural)]
pub enum ScrollDirection {
    Horizontal,
    Vertical,
    All,
}

impl ScrollDirection {
    /// The largest size that a child may take inside a viewport that is
    /// itself confined to `bc`: unbounded along every direction of scrolling.
    pub open spec fn max_size_spec(self, bc: BoxConstraints) -> Size {
        match self {
            ScrollDirection::Horizontal => Size { width: UNBOUNDED, height: bc.max.height },
            ScrollDirection::Vertical => Size { width: bc.max.width, height: UNBOUNDED },
            ScrollDirection::All => Size { width: UNBOUNDED, height: UNBOUNDED },
        }
    }

    /// The largest size that a child may take inside a viewport confined to `bc`.
    pub fn max_size(self, bc: &BoxConstraints) -> (r: Size)
        ensures
            r == self.max_size_spec(*bc),
    {
        match self {
            ScrollDirection::Horizontal => Size::new(UNBOUNDED, bc.max().height),
            ScrollDirection::Vertical => Size::new(bc.max().width, UNBOUNDED),
            ScrollDirection::All => Size::new(UNBOUNDED, UNBOUNDED),
        }
    }
}

/// How far a child of length `child` can be scrolled in a viewport of length
/// `view`: by what it is longer, and not at all if it is not.
pub open spec fn scroll_limit(child: u32, view: u32) -> int {
    if child > view {
        child - view
    } else {
        0
    }
}

/// The offset nearest to `wanted` that keeps the viewport on the child.
pub open spec fn scroll_clamp_spec(wanted: int, child: u32, view: u32) -> i64 {
    if wanted < 0 {
        0i64
    } else if wanted > scroll_limit(child, view) {
        scroll_limit(child, view) as i64
    } else {
        wanted as i64
    }
}

/// The offset nearest to `offset + delta` that keeps the viewport on the child.
pub fn scroll_clamp(offset: i64, delta: i64, child: u32, view: u32) -> (r: i64)
    ensures
        r == scroll_clamp_spec(offset + delta, child, view),
        0 <= r <= scroll_limit(child, view),
{
    let wanted: i128 = offset as i128 + delta as i128;
    let limit: i64 = if child > view {
        (child - view) as i64
    } else {
        0
    };
    if wanted < 0 {
        0
    } else if wanted > limit as i128 {
        limit
    } else {
        wanted as i64
    }
}

/// The event as the child of a viewport scrolled by `offset` sees it:
/// pointer positions are moved by the offset, anything else is as it was.
pub open spec fn scrolled_spec(event: Event, offset: Point) -> Event {
    match event {
        Event::MouseDown(m) => Event::MouseDown(MouseEvent { pos: m.pos.plus_spec(offset) }),
        Event::MouseUp(m) => Event::MouseUp(MouseEvent { pos: m.pos.plus_spec(offset) }),
        Event::MouseMoved(m) => Event::MouseMoved(MouseEvent { pos: m.pos.plus_spec(offset) }),
        _ => event,
    }
}

/// A viewport onto one child.
pub struct Scroll<T: Data, W: Widget<T>> {
    pub child: WidgetPod<T, W>,
    /// The size that the child took at the last layout pass.
    pub child_size: Size,
    /// The point of the child that shows in the viewport's top left corner.
    pub scroll_offset: Point,
    pub direction: ScrollDirection,
}

impl<T: Data, W: Widget<T>> Scroll<T, W> {
    /// The child's invariant holds.
    pub open spec fn wf(&self) -> bool {
        self.child.inv()
    }

    /// What moving the viewport by `delta` makes of the offset, the viewport
    /// being of the given size.
    pub open spec fn scrolled_spec(&self, delta: Point, size: Size) -> Point {
        Point {
            x: scroll_clamp_spec(self.scroll_offset.x + delta.x, self.child_size.width, size.width),
            y: scroll_clamp_spec(
                self.scroll_offset.y + delta.y,
                self.child_size.height,
                size.height,
            ),
        }
    }

    /// A viewport onto `child` that scrolls in every direction.
    pub fn new(child: W) -> (r: Self)
        requires
            child.inv(),
        ensures
            r.wf(),
            r.child.inner == child,
            r.child.state == BaseState::initial(),
            r.child_size == (Size { width: 0, height: 0 }),
            r.scroll_offset == (Point { x: 0, y: 0 }),
            r.direction == ScrollDirection::All,
    {
        Scroll {
            child: WidgetPod::new(child),
            child_size: Size::zero(),
            scroll_offset: Point::origin(),
            direction: ScrollDirection::All,
        }
    }

    /// The same viewport, scrolling up and down only.
    pub fn vertical(self) -> (r: Self)
        ensures
            r.direction == ScrollDirection::Vertical,
            r.child == self.child,
            r.child_size == self.child_size,
            r.scroll_offset == self.scroll_offset,
    {
        let mut this = self;
        this.direction = ScrollDirection::Vertical;
        this
    }

    /// The same viewport, scrolling left and right only.
    pub fn horizontal(self) -> (r: Self)
        ensures
            r.direction == ScrollDirection::Horizontal,
            r.child == self.child,
            r.child_size == self.child_size,
            r.scroll_offset == self.scroll_offset,
    {
        let mut this = self;
        this.direction = ScrollDirection::Horizontal;
        this
    }

    /// Moves the viewport by `delta`, as far as the child reaches, the
    /// viewport being of the given size. Returns whether the offset changed.
    pub fn scroll(&mut self, delta: Point, size: Size) -> (changed: bool)
        ensures
            final(self).scroll_offset == old(self).scrolled_spec(delta, size),
            changed == (final(self).scroll_offset != old(self).scroll_offset),
            final(self).child == old(self).child,
            final(self).child_size == old(self).child_size,
            final(self).direction == old(self).direction,
    {
        let offset = Point::new(
            scroll_clamp(self.scroll_offset.x, delta.x, self.child_size.width, size.width),
            scroll_clamp(self.scroll_offset.y, delta.y, self.child_size.height, size.height),
        );
        if offset.x != self.scroll_offset.x || offset.y != self.scroll_offset.y {
            self.scroll_offset = offset;
            true
        } else {
            false
        }
    }
}

impl<T: Data, W: Widget<T>> Widget<T> for Scroll<T, W> {
    open spec fn inv(&self) -> bool {
        self.wf()
    }

    /// Paints the child clipped to the viewport, in a frame moved back by
    /// the scroll offset: between the three commands that open the frame and
    /// the one that closes it stands what the child's own `paint` records.
    fn paint(&mut self, paint_ctx: &mut PaintCtx, base_state: &BaseState, data: &T, env: &Env)
        ensures
            final(self).child.state == old(self).child.state,
            final(self).child_size == old(self).child_size,
            final(self).scroll_offset == old(self).scroll_offset,
            final(self).direction == old(self).direction,
            (old(paint_ctx)@ + seq![
                DrawCommandView::Save,
                DrawCommandView::Clip {
                    rect: Rect { origin: Point { x: 0, y: 0 }, size: base_state.layout_rect.size },
                    radius: 0,
                },
                DrawCommandView::Translate {
                    by: (Point { x: 0, y: 0 }).minus_spec(old(self).scroll_offset),
                },
            ]).is_prefix_of(final(paint_ctx)@),
            final(paint_ctx)@.len() >= old(paint_ctx)@.len() + 4,
            final(paint_ctx)@.last() == DrawCommandView::Restore,
            exists|widget: &mut W, inner_ctx: &mut PaintCtx|
                *widget == old(self).child.inner && *final(widget) == final(self).child.inner
                    && (*inner_ctx)@ == old(paint_ctx)@ + seq![
                    DrawCommandView::Save,
                    DrawCommandView::Clip {
                        rect: Rect {
                            origin: Point { x: 0, y: 0 },
                            size: base_state.layout_rect.size,
                        },
                        radius: 0,
                    },
                    DrawCommandView::Translate {
                        by: (Point { x: 0, y: 0 }).minus_spec(old(self).scroll_offset),
                    },
                ] && final(paint_ctx)@ == (*final(inner_ctx))@.push(DrawCommandView::Restore)
                    && #[trigger] call_ensures(
                    <W as Widget<T>>::paint,
                    (widget, inner_ctx, &old(self).child.state, data, env),
                    (),
                ),
    {
        let ghost before = paint_ctx@;
        let viewport = Rect::from_origin_size(Point::origin(), base_state.size());
        paint_ctx.push(DrawCommand::Save);
        paint_ctx.push(DrawCommand::Clip { rect: viewport, radius: 0 });
        paint_ctx.push(DrawCommand::Translate { by: Point::origin().minus(self.scroll_offset) });
        let ghost opened = paint_ctx@;
        assert(opened =~= before + seq![
            DrawCommandView::Save,
            DrawCommandView::Clip { rect: viewport, radius: 0 },
            DrawCommandView::Translate {
                by: (Point { x: 0, y: 0 }).minus_spec(self.scroll_offset),
            },
        ]);
        assert(before.is_prefix_of(opened));
        self.child.paint(paint_ctx, data, env);
        paint_ctx.push(DrawCommand::Restore);
    }

    /// Lets the child take any size along the directions of scrolling, puts
    /// it at the origin and takes the child's size, clipped to `bc`. The
    /// child's size is what the child's own `layout` returns for the
    /// constraint from nothing to that largest size. The
    /// offset is brought back onto the child where the child shrank.
    fn layout(&mut self, bc: &BoxConstraints, data: &T, env: &Env) -> (size: Size)
        ensures
            final(self).direction == old(self).direction,
            final(self).child_size.fits_in(old(self).direction.max_size_spec(*bc)),
            final(self).child.state == (BaseState {
                layout_rect: Rect { origin: Point { x: 0, y: 0 }, size: final(self).child_size },
                ..old(self).child.state
            }),
            size == bc.constrain_spec(final(self).child_size),
            exists|widget: &mut W|
                *widget == old(self).child.inner && *final(widget) == final(self).child.inner
                    && #[trigger] call_ensures(
                    <W as Widget<T>>::layout,
                    (
                        widget,
                        &(BoxConstraints {
                            min: Size { width: 0, height: 0 },
                            max: old(self).direction.max_size_spec(*bc),
                        }),
                        data,
                        env,
                    ),
                    final(self).child_size,
                ),
            final(self).scroll_offset == (Point {
                x: scroll_clamp_spec(
                    old(self).scroll_offset.x as int,
                    final(self).child_size.width,
                    size.width,
                ),
                y: scroll_clamp_spec(
                    old(self).scroll_offset.y as int,
                    final(self).child_size.height,
                    size.height,
                ),
            }),
    {
        let child_bc = BoxConstraints::new(Size::zero(), self.direction.max_size(bc));
        let child_size = self.child.layout(&child_bc, data, env);
        self.child_size = child_size;
        self.child.set_layout_rect(Rect::from_origin_size(Point::origin(), child_size));
        let size = bc.constrain(child_size);
        let _ = self.scroll(Point::origin(), size);
        size
    }

    /// Hands the event to the child, pointer positions moved by the scroll
    /// offset into the child's frame: what comes of it is what the child's
    /// pod makes of the moved event. The viewport itself stays as it is.
    fn event(&mut self, event: &Event, ctx: &mut EventCtx, data: &mut T, env: &Env) -> (action:
        Option<Action>)
        ensures
            final(self).child_size == old(self).child_size,
            final(self).scroll_offset == old(self).scroll_offset,
            final(self).direction == old(self).direction,
            final(self).child.dispatched(
                &old(self).child,
                scrolled_spec(*event, old(self).scroll_offset),
                *old(ctx),
                *final(ctx),
                *old(data),
                *final(data),
                action,
            ),
            exists|pod: &mut WidgetPod<T, W>, inner_ctx: &mut EventCtx, inner_data: &mut T|
                *pod == old(self).child && *final(pod) == final(self).child && *inner_ctx
                    == *old(ctx) && *final(inner_ctx) == *final(ctx) && *inner_data == *old(data)
                    && *final(inner_data) == *final(data) && #[trigger] call_ensures(
                    WidgetPod::<T, W>::event,
                    (
                        pod,
                        &scrolled_spec(*event, old(self).scroll_offset),
                        inner_ctx,
                        inner_data,
                        env,
                    ),
                    action,
                ),
    {
        match event {
            Event::MouseDown(m) => {
                let child_event = Event::MouseDown(m.scrolled_by(self.scroll_offset));
                self.child.event(&child_event, ctx, data, env)
            },
            Event::MouseUp(m) => {
                let child_event = Event::MouseUp(m.scrolled_by(self.scroll_offset));
                self.child.event(&child_event, ctx, data, env)
            },
            Event::MouseMoved(m) => {
                let child_event = Event::MouseMoved(m.scrolled_by(self.scroll_offset));
                self.child.event(&child_event, ctx, data, env)
            },
            _ => self.child.event(event, ctx, data, env),
        }
    }

    /// Tells the child that the data changed, unless it is the same as
    /// before: what comes of it is what the child's own `update` makes of
    /// the two values. The viewport itself stays as it is.
    fn update(&mut self, ctx: &mut UpdateCtx, old_data: Option<&T>, data: &T, env: &Env)
        ensures
            final(self).child_size == old(self).child_size,
            final(self).scroll_offset == old(self).scroll_offset,
            final(self).direction == old(self).direction,
            final(self).child.state == old(self).child.state,
            T::obeys_same_spec() && old_data is Some && old_data->0.same_spec(data) ==> final(self).child.inner == old(self).child.inner,
            (final(self).child.inner == old(self).child.inner && *final(ctx) == *old(ctx)) || (
            exists|widget: &mut W, inner_ctx: &mut UpdateCtx|
                *widget == old(self).child.inner && *final(widget) == final(self).child.inner
                    && *inner_ctx == *old(ctx) && *final(inner_ctx) == *final(ctx)
                    && #[trigger] call_ensures(
                    <W as Widget<T>>::update,
                    (widget, inner_ctx, old_data, data, env),
                    (),
                )),
            !(old_data is Some && old_data->0.same_spec(data)) ==> (exists|
                widget: &mut W,
                inner_ctx: &mut UpdateCtx,
            |
                *widget == old(self).child.inner && *final(widget) == final(self).child.inner
                    && *inner_ctx == *old(ctx) && *final(inner_ctx) == *final(ctx)
                    && #[trigger] call_ensures(
                    <W as Widget<T>>::update,
                    (widget, inner_ctx, old_data, data, env),
                    (),
                )),
    {
        self.child.update(ctx, old_data, data, env);
    }
}

} // verus!
