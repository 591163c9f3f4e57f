use druid::geometry::UNBOUNDED;
use druid::widget::scroll::{scroll_clamp, Scroll, ScrollDirection};
use druid::{
    Action, BaseState, BoxConstraints, DrawCommand, Env, Event, EventCtx, MouseEvent, PaintCtx,
    Point, Rect, Size, UpdateCtx, Widget,
};

/// A widget of a size of its own that writes down what it is offered.
struct Sheet {
    size: Size,
    offered: Option<BoxConstraints>,
    seen: Vec<Event>,
    updates: u32,
}

impl Sheet {
    fn new(width: u32, height: u32) -> Sheet {
        Sheet { size: Size::new(width, height), offered: None, seen: Vec::new(), updates: 0 }
    }
}

impl Widget<u32> for Sheet {
    fn inv(&self) -> bool {
        true
    }

    fn paint(&mut self, paint_ctx: &mut PaintCtx, _: &BaseState, _: &u32, _: &Env) {
        paint_ctx.push(DrawCommand::Save);
    }

    fn layout(&mut self, bc: &BoxConstraints, _: &u32, _: &Env) -> Size {
        self.offered = Some(*bc);
        bc.constrain(self.size)
    }

    fn event(&mut self, event: &Event, _: &mut EventCtx, _: &mut u32, _: &Env) -> Option<Action> {
        self.seen.push(event.clone());
        None
    }

    fn update(&mut self, _: &mut UpdateCtx, _: Option<&u32>, _: &u32, _: &Env) {
        self.updates += 1;
    }
}

fn rect(x: i64, y: i64, width: u32, height: u32) -> Rect {
    Rect::from_origin_size(Point::new(x, y), Size::new(width, height))
}

#[test]
fn scroll_clamp_keeps_the_viewport_on_the_child() {
    assert_eq!(scroll_clamp(0, 30, 100, 50), 30);
    assert_eq!(scroll_clamp(30, 30, 100, 50), 50);
    assert_eq!(scroll_clamp(30, -40, 100, 50), 0);
    assert_eq!(scroll_clamp(0, 0, 100, 50), 0);
    assert_eq!(scroll_clamp(50, 0, 100, 50), 50);
}

#[test]
fn scroll_clamp_does_not_move_a_child_that_fits() {
    assert_eq!(scroll_clamp(0, 10, 50, 50), 0);
    assert_eq!(scroll_clamp(0, 10, 40, 50), 0);
    assert_eq!(scroll_clamp(20, 0, 40, 50), 0);
}

#[test]
fn scroll_clamp_at_the_ends_of_the_range() {
    assert_eq!(scroll_clamp(i64::MAX, i64::MAX, u32::MAX, 0), u32::MAX as i64);
    assert_eq!(scroll_clamp(i64::MIN, i64::MIN, u32::MAX, 0), 0);
}

#[test]
fn directions_unbound_the_child() {
    let bc = BoxConstraints::new(Size::new(1, 2), Size::new(30, 40));
    assert_eq!(ScrollDirection::Vertical.max_size(&bc), Size::new(30, UNBOUNDED));
    assert_eq!(ScrollDirection::Horizontal.max_size(&bc), Size::new(UNBOUNDED, 40));
    assert_eq!(ScrollDirection::All.max_size(&bc), Size::new(UNBOUNDED, UNBOUNDED));
}

#[test]
fn new_viewport_scrolls_every_way() {
    let s: Scroll<u32, Sheet> = Scroll::new(Sheet::new(1, 1));
    assert_eq!(s.direction, ScrollDirection::All);
    assert_eq!(s.scroll_offset, Point::origin());
    assert_eq!(s.child_size, Size::zero());
    assert_eq!(s.vertical().direction, ScrollDirection::Vertical);
    let s: Scroll<u32, Sheet> = Scroll::new(Sheet::new(1, 1));
    assert_eq!(s.horizontal().direction, ScrollDirection::Horizontal);
}

#[test]
fn viewport_lets_the_child_grow_along_the_scroll_direction() {
    let mut s: Scroll<u32, Sheet> = Scroll::new(Sheet::new(300, 400)).vertical();
    let bc = BoxConstraints::new(Size::new(10, 10), Size::new(100, 50));
    let size = s.layout(&bc, &0, &Env::new());
    assert_eq!(
        s.child.inner.offered,
        Some(BoxConstraints::new(Size::zero(), Size::new(100, UNBOUNDED)))
    );
    assert_eq!(s.child_size, Size::new(100, 400));
    assert_eq!(s.child.get_layout_rect(), rect(0, 0, 100, 400));
    assert_eq!(size, Size::new(100, 50));
}

#[test]
fn viewport_is_no_larger_than_a_small_child() {
    let mut s: Scroll<u32, Sheet> = Scroll::new(Sheet::new(30, 20));
    let bc = BoxConstraints::new(Size::zero(), Size::new(100, 50));
    assert_eq!(s.layout(&bc, &0, &Env::new()), Size::new(30, 20));
    let tight = BoxConstraints::tight(Size::new(100, 50));
    assert_eq!(s.layout(&tight, &0, &Env::new()), Size::new(100, 50));
    assert_eq!(s.child_size, Size::new(30, 20));
}

#[test]
fn scrolling_stops_at_the_ends_of_the_child() {
    let mut s: Scroll<u32, Sheet> = Scroll::new(Sheet::new(300, 400));
    let bc = BoxConstraints::new(Size::zero(), Size::new(100, 50));
    let size = s.layout(&bc, &0, &Env::new());
    assert!(s.scroll(Point::new(20, 30), size));
    assert_eq!(s.scroll_offset, Point::new(20, 30));
    assert!(s.scroll(Point::new(1000, 1000), size));
    assert_eq!(s.scroll_offset, Point::new(200, 350));
    assert!(!s.scroll(Point::new(5, 5), size));
    assert_eq!(s.scroll_offset, Point::new(200, 350));
    assert!(s.scroll(Point::new(-1000, -10), size));
    assert_eq!(s.scroll_offset, Point::new(0, 340));
    assert!(!s.scroll(Point::origin(), size));
}

#[test]
fn layout_brings_the_offset_back_onto_a_shrunken_child() {
    let mut s: Scroll<u32, Sheet> = Scroll::new(Sheet::new(300, 400));
    let bc = BoxConstraints::new(Size::zero(), Size::new(100, 50));
    let size = s.layout(&bc, &0, &Env::new());
    let _ = s.scroll(Point::new(200, 350), size);
    s.child.inner.size = Size::new(150, 60);
    let _ = s.layout(&bc, &0, &Env::new());
    assert_eq!(s.scroll_offset, Point::new(50, 10));
}

#[test]
fn viewport_moves_pointer_positions_by_the_offset() {
    let mut s: Scroll<u32, Sheet> = Scroll::new(Sheet::new(300, 400));
    let bc = BoxConstraints::new(Size::zero(), Size::new(100, 50));
    let size = s.layout(&bc, &0, &Env::new());
    let _ = s.scroll(Point::new(20, 30), size);
    let mut data = 0u32;
    let mut ctx = EventCtx::new(BaseState::new(), false, false);
    let _ = s.event(
        &Event::MouseDown(MouseEvent::new(Point::new(5, 6))),
        &mut ctx,
        &mut data,
        &Env::new(),
    );
    assert_eq!(s.child.inner.seen, vec![Event::MouseDown(MouseEvent::new(Point::new(25, 36)))]);
    assert_eq!(s.scroll_offset, Point::new(20, 30));
}

#[test]
fn viewport_paints_the_child_clipped_and_moved_back() {
    let mut s: Scroll<u32, Sheet> = Scroll::new(Sheet::new(300, 400));
    let bc = BoxConstraints::new(Size::zero(), Size::new(100, 50));
    let size = s.layout(&bc, &0, &Env::new());
    let _ = s.scroll(Point::new(20, 30), size);
    let mut state = BaseState::new();
    state.layout_rect = rect(7, 7, 100, 50);
    let mut ctx = PaintCtx::new();
    s.paint(&mut ctx, &state, &0, &Env::new());
    assert_eq!(
        ctx.into_commands(),
        vec![
            DrawCommand::Save,
            DrawCommand::Clip { rect: rect(0, 0, 100, 50), radius: 0 },
            DrawCommand::Translate { by: Point::new(-20, -30) },
            DrawCommand::Save,
            DrawCommand::Restore,
        ]
    );
}

#[test]
fn viewport_update_reaches_the_child_only_on_change() {
    let mut s: Scroll<u32, Sheet> = Scroll::new(Sheet::new(300, 400));
    let mut ctx = UpdateCtx::new();
    s.update(&mut ctx, Some(&1), &1, &Env::new());
    assert_eq!(s.child.inner.updates, 0);
    s.update(&mut ctx, Some(&1), &2, &Env::new());
    assert_eq!(s.child.inner.updates, 1);
    assert!(!ctx.needs_inval);
}
