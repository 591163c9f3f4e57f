use druid::paint::PaintCtx;
use druid::{
    Action, BaseState, Color, DrawCommand, EventCtx, KeyCode, KeyEvent, MouseEvent, Point, Rect,
    Size, UpdateCtx,
};

#[test]
fn merged_actions_keep_the_first() {
    let a = || Some(Action::from_str("a"));
    let b = || Some(Action::from_str("b"));
    assert_eq!(Action::merge(a(), b()), a());
    assert_eq!(Action::merge(None, b()), b());
    assert_eq!(Action::merge(a(), None), a());
    assert_eq!(Action::merge(None, None), None);
    assert_eq!(Action::from_str("pressed").as_str(), "pressed");
}

#[test]
fn mouse_events_change_frames() {
    let m = MouseEvent::new(Point::new(10, 20));
    assert_eq!(m.relative_to(Point::new(3, 30)).pos, Point::new(7, -10));
    assert_eq!(m.scrolled_by(Point::new(3, 30)).pos, Point::new(13, 50));
    assert_eq!(m.relative_to(Point::new(i64::MIN, 0)).pos, Point::new(i64::MAX, 20));
}

#[test]
fn key_events_carry_their_text() {
    let k = KeyEvent::new(KeyCode::Character, Some(String::from("x")));
    assert_eq!(k.key_code, KeyCode::Character);
    assert_eq!(k.text(), Some("x"));
    assert_eq!(KeyEvent::new(KeyCode::Tab, None).text(), None);
}

#[test]
fn event_context_setters() {
    let mut state = BaseState::new();
    state.layout_rect = Rect::from_origin_size(Point::new(1, 2), Size::new(3, 4));
    state.is_hot = true;
    let mut ctx = EventCtx::new(state, true, false);
    assert!(ctx.is_hot() && !ctx.is_active() && !ctx.is_focused() && !ctx.is_handled());
    assert!(ctx.had_active && !ctx.is_root);
    ctx.set_active(true);
    assert!(ctx.is_active());
    ctx.set_focus(true);
    assert!(ctx.is_focused());
    ctx.invalidate();
    assert!(ctx.base_state.needs_inval);
    ctx.set_handled();
    assert!(ctx.is_handled());
    ctx.set_active(false);
    ctx.set_focus(false);
    assert!(!ctx.is_active() && !ctx.is_focused());
    // Nothing else moved.
    assert_eq!(ctx.base_state.layout_rect, state.layout_rect);
    assert!(ctx.is_hot() && ctx.base_state.needs_inval && ctx.is_handled());
}

#[test]
fn update_context_remembers_invalidation() {
    let mut ctx = UpdateCtx::new();
    assert!(!ctx.needs_inval);
    ctx.invalidate();
    assert!(ctx.needs_inval);
    ctx.invalidate();
    assert!(ctx.needs_inval);
}

#[test]
fn paint_context_records_in_order() {
    let mut ctx = PaintCtx::new();
    ctx.push(DrawCommand::Save);
    ctx.push(DrawCommand::Translate { by: Point::new(1, 2) });
    ctx.push(DrawCommand::Restore);
    assert_eq!(
        ctx.into_commands(),
        vec![
            DrawCommand::Save,
            DrawCommand::Translate { by: Point::new(1, 2) },
            DrawCommand::Restore
        ]
    );
    assert_eq!(PaintCtx::new().into_commands(), Vec::new());
    assert_eq!(Color::rgba32(0x11223344).rgba, 0x11223344);
}
