use druid::widget::pod::{hot_after, routes, WidgetPod};
use druid::{
    Action, BaseState, BoxConstraints, Env, Event, EventCtx, KeyCode, KeyEvent, MouseEvent,
    PaintCtx, Point, Rect, Size, UpdateCtx, Widget,
};

/// A widget that writes down what it is handed. It claims the pointer on a
/// button press while hot and lets it go when the button comes up.
struct Recorder {
    seen: Vec<Event>,
    updates: u32,
    consume: bool,
}

impl Recorder {
    fn new() -> Recorder {
        Recorder { seen: Vec::new(), updates: 0, consume: false }
    }
}

impl Widget<u32> for Recorder {
    fn inv(&self) -> bool {
        true
    }

    fn paint(&mut self, _: &mut PaintCtx, _: &BaseState, _: &u32, _: &Env) {}

    fn layout(&mut self, bc: &BoxConstraints, _: &u32, _: &Env) -> Size {
        bc.constrain(Size::new(30, 30))
    }

    fn event(&mut self, event: &Event, ctx: &mut EventCtx, data: &mut u32, _: &Env) -> Option<Action> {
        self.seen.push(event.clone());
        match event {
            Event::MouseDown(_) => {
                if ctx.is_hot() {
                    ctx.set_active(true);
                    *data += 1;
                    if self.consume {
                        ctx.set_handled();
                    }
                    return Some(Action::from_str("pressed"));
                }
            }
            Event::MouseUp(_) => {
                ctx.set_active(false);
            }
            _ => {}
        }
        None
    }

    fn update(&mut self, ctx: &mut UpdateCtx, _: Option<&u32>, _: &u32, _: &Env) {
        self.updates += 1;
        ctx.invalidate();
    }
}

fn rect(x: i64, y: i64, width: u32, height: u32) -> Rect {
    Rect::from_origin_size(Point::new(x, y), Size::new(width, height))
}

fn pod_at(x: i64, y: i64, width: u32, height: u32) -> WidgetPod<u32, Recorder> {
    let mut pod = WidgetPod::new(Recorder::new());
    pod.set_layout_rect(rect(x, y, width, height));
    pod
}

fn down(x: i64, y: i64) -> Event {
    Event::MouseDown(MouseEvent::new(Point::new(x, y)))
}

fn up(x: i64, y: i64) -> Event {
    Event::MouseUp(MouseEvent::new(Point::new(x, y)))
}

fn moved(x: i64, y: i64) -> Event {
    Event::MouseMoved(MouseEvent::new(Point::new(x, y)))
}

fn key() -> Event {
    Event::KeyDown(KeyEvent::new(KeyCode::Character, Some(String::from("k"))))
}

fn state_at(r: Rect) -> BaseState {
    let mut s = BaseState::new();
    s.layout_rect = r;
    s
}

#[test]
fn new_pod_is_untouched() {
    let pod = WidgetPod::new(Recorder::new());
    assert_eq!(pod.state, BaseState::new());
    assert_eq!(pod.get_layout_rect(), rect(0, 0, 0, 0));
    assert!(!pod.state.is_hot() && !pod.state.is_active() && !pod.state.has_focus());
    assert_eq!(pod.state.size(), Size::zero());
}

#[test]
fn button_events_route_by_hit_test() {
    let s = state_at(rect(10, 10, 100, 50));
    assert!(routes(&s, &down(10, 10), false, false));
    assert!(routes(&s, &up(109, 59), false, false));
    assert!(!routes(&s, &down(110, 10), false, false));
    assert!(!routes(&s, &up(9, 10), false, false));
}

#[test]
fn button_events_go_to_the_active_widget_wherever_the_pointer_is() {
    let mut s = state_at(rect(10, 10, 100, 50));
    s.has_active = true;
    assert!(routes(&s, &down(500, 500), true, false));
    assert!(routes(&s, &up(-5, -5), true, false));
    assert!(routes(&s, &moved(500, 500), true, false));
}

#[test]
fn button_events_skip_widgets_beside_the_active_one() {
    let s = state_at(rect(10, 10, 100, 50));
    assert!(!routes(&s, &down(20, 20), true, false));
    assert!(!routes(&s, &up(20, 20), true, false));
    // Pointer moves still go by hit test.
    assert!(routes(&s, &moved(20, 20), true, false));
}

#[test]
fn pointer_moves_reach_hot_widgets_once_more_when_the_pointer_leaves() {
    let mut s = state_at(rect(10, 10, 100, 50));
    assert!(!routes(&s, &moved(500, 500), false, false));
    s.is_hot = true;
    assert!(routes(&s, &moved(500, 500), false, false));
}

#[test]
fn key_events_route_by_focus() {
    let mut s = state_at(rect(10, 10, 100, 50));
    assert!(!routes(&s, &key(), false, false));
    s.has_active = true;
    s.is_hot = true;
    assert!(!routes(&s, &key(), false, false));
    s.has_focus = true;
    assert!(routes(&s, &key(), false, false));
}

#[test]
fn resize_goes_to_the_root_only() {
    let s = state_at(rect(10, 10, 100, 50));
    let e = Event::Size(Size::new(1, 1));
    assert!(routes(&s, &e, false, true));
    assert!(!routes(&s, &e, false, false));
}

#[test]
fn hot_changes_are_never_passed_on() {
    let mut s = state_at(rect(10, 10, 100, 50));
    s.has_active = true;
    s.has_focus = true;
    s.is_hot = true;
    assert!(!routes(&s, &Event::HotChanged(true), false, true));
}

#[test]
fn only_pointer_moves_decide_hotness() {
    let mut s = state_at(rect(10, 10, 100, 50));
    assert!(hot_after(&s, &moved(20, 20)));
    assert!(!hot_after(&s, &moved(200, 20)));
    assert!(!hot_after(&s, &down(20, 20)));
    s.is_hot = true;
    assert!(hot_after(&s, &down(200, 200)));
    assert!(hot_after(&s, &key()));
    assert!(!hot_after(&s, &moved(200, 200)));
}

#[test]
fn pod_moves_pointer_positions_into_the_widget_frame() {
    let mut pod = pod_at(10, 20, 100, 50);
    let mut data = 0u32;
    let mut ctx = EventCtx::new(BaseState::new(), false, true);
    let _ = pod.event(&down(15, 27), &mut ctx, &mut data, &Env::new());
    assert_eq!(pod.inner.seen, vec![down(5, 7)]);
}

#[test]
fn pod_tells_the_widget_when_hotness_changes() {
    let mut pod = pod_at(10, 20, 100, 50);
    let mut data = 0u32;
    let mut ctx = EventCtx::new(BaseState::new(), false, true);
    let _ = pod.event(&moved(15, 27), &mut ctx, &mut data, &Env::new());
    assert!(pod.state.is_hot);
    assert_eq!(pod.inner.seen, vec![Event::HotChanged(true), moved(5, 7)]);
    let mut ctx = EventCtx::new(BaseState::new(), false, true);
    let _ = pod.event(&moved(16, 27), &mut ctx, &mut data, &Env::new());
    assert_eq!(pod.inner.seen.len(), 3);
    let mut ctx = EventCtx::new(BaseState::new(), false, true);
    let _ = pod.event(&moved(0, 0), &mut ctx, &mut data, &Env::new());
    assert!(!pod.state.is_hot);
    assert_eq!(pod.inner.seen[3..], [Event::HotChanged(false), moved(-10, -20)]);
    // Far away now: nothing more arrives.
    let mut ctx = EventCtx::new(BaseState::new(), false, true);
    let _ = pod.event(&moved(1, 1), &mut ctx, &mut data, &Env::new());
    assert_eq!(pod.inner.seen.len(), 5);
}

#[test]
fn active_widget_captures_the_pointer_until_the_button_comes_up() {
    let mut pod = pod_at(10, 20, 100, 50);
    let mut data = 0u32;
    let env = Env::new();
    let mut ctx = EventCtx::new(BaseState::new(), false, true);
    let _ = pod.event(&moved(15, 27), &mut ctx, &mut data, &env);
    // Button down while hot: the widget becomes active.
    let mut ctx = EventCtx::new(BaseState::new(), pod.state.has_active, true);
    let action = pod.event(&down(15, 27), &mut ctx, &mut data, &env);
    assert_eq!(action, Some(Action::from_str("pressed")));
    assert!(pod.state.is_active);
    assert!(pod.state.has_active);
    assert!(ctx.base_state.has_active);
    assert_eq!(data, 1);
    // Pointer moves outside its bounds still reach it.
    let before = pod.inner.seen.len();
    let mut ctx = EventCtx::new(BaseState::new(), pod.state.has_active, true);
    let _ = pod.event(&moved(500, 500), &mut ctx, &mut data, &env);
    let mut ctx = EventCtx::new(BaseState::new(), pod.state.has_active, true);
    let _ = pod.event(&moved(600, 600), &mut ctx, &mut data, &env);
    assert_eq!(
        pod.inner.seen[before..],
        [Event::HotChanged(false), moved(490, 480), moved(590, 580)]
    );
    assert!(pod.state.is_active);
    assert!(!pod.state.is_hot);
    // So does the button coming up, which ends the capture.
    let mut ctx = EventCtx::new(BaseState::new(), pod.state.has_active, true);
    let _ = pod.event(&up(600, 600), &mut ctx, &mut data, &env);
    assert_eq!(pod.inner.seen.last(), Some(&up(590, 580)));
    assert!(!pod.state.is_active);
    assert!(!pod.state.has_active);
    // From here on the widget is left alone again.
    let before = pod.inner.seen.len();
    let mut ctx = EventCtx::new(BaseState::new(), pod.state.has_active, true);
    let _ = pod.event(&moved(600, 600), &mut ctx, &mut data, &env);
    let mut ctx = EventCtx::new(BaseState::new(), pod.state.has_active, true);
    let _ = pod.event(&down(600, 600), &mut ctx, &mut data, &env);
    assert_eq!(pod.inner.seen.len(), before);
}

#[test]
fn consumed_event_is_not_dispatched() {
    let mut pod = pod_at(0, 0, 100, 50);
    let mut data = 0u32;
    let mut ctx = EventCtx::new(BaseState::new(), false, true);
    ctx.set_handled();
    let before = ctx;
    let action = pod.event(&moved(5, 5), &mut ctx, &mut data, &Env::new());
    assert!(action.is_none());
    assert!(pod.inner.seen.is_empty());
    assert!(!pod.state.is_hot);
    assert_eq!(ctx, before);
}

#[test]
fn pod_hands_up_what_the_widget_asked_for() {
    let mut pod = pod_at(0, 0, 100, 50);
    pod.inner.consume = true;
    let mut data = 0u32;
    let env = Env::new();
    let mut ctx = EventCtx::new(BaseState::new(), false, true);
    let _ = pod.event(&moved(5, 5), &mut ctx, &mut data, &env);
    assert!(!ctx.is_handled());
    assert!(!ctx.base_state.has_active);
    let mut ctx = EventCtx::new(BaseState::new(), false, true);
    let _ = pod.event(&down(5, 5), &mut ctx, &mut data, &env);
    assert!(ctx.is_handled());
    assert!(ctx.base_state.has_active);
    assert!(!ctx.base_state.is_active);
    assert_eq!(pod.get_layout_rect(), rect(0, 0, 100, 50));
}

#[test]
fn pod_update_skips_the_widget_when_the_data_is_the_same() {
    let mut pod = pod_at(0, 0, 100, 50);
    let mut ctx = UpdateCtx::new();
    pod.update(&mut ctx, Some(&5), &5, &Env::new());
    assert_eq!(pod.inner.updates, 0);
    assert!(!ctx.needs_inval);
    pod.update(&mut ctx, Some(&5), &6, &Env::new());
    assert_eq!(pod.inner.updates, 1);
    assert!(ctx.needs_inval);
}

#[test]
fn pod_update_reaches_the_widget_the_first_time() {
    let mut pod = pod_at(0, 0, 100, 50);
    let mut ctx = UpdateCtx::new();
    pod.update(&mut ctx, None, &5, &Env::new());
    assert_eq!(pod.inner.updates, 1);
    assert!(ctx.needs_inval);
}

#[test]
fn pod_layout_leaves_the_placing_to_the_caller() {
    let mut pod = pod_at(3, 4, 100, 50);
    let bc = BoxConstraints::new(Size::zero(), Size::new(20, 40));
    assert_eq!(pod.layout(&bc, &0, &Env::new()), Size::new(20, 30));
    assert_eq!(pod.get_layout_rect(), rect(3, 4, 100, 50));
}
