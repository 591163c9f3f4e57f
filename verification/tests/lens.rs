use druid::lens::{First, Second, Then};
use druid::widget::textbox::TextBox;
use druid::{
    BaseState, BoxConstraints, Data, Env, Event, EventCtx, KeyCode, KeyEvent, Lens, LensWrap,
    MouseEvent, PaintCtx, Point, Size, UpdateCtx, Widget,
};

#[derive(Clone, Debug, PartialEq)]
struct AppState {
    pressed: Option<u32>,
    text: String,
}

impl Data for AppState {
    fn obeys_same_spec() -> bool {
        true
    }

    fn same_spec(&self, other: &Self) -> bool {
        self.pressed == other.pressed && self.text == other.text
    }

    fn lemma_same_reflexive(&self) {}

    fn same(&self, other: &Self) -> bool {
        self.pressed == other.pressed && self.text == other.text
    }
}

/// The lens onto the text of the application state.
struct Text;

impl Lens<AppState, String> for Text {
    fn get_spec(&self, data: AppState) -> String {
        data.text
    }

    fn put_spec(&self, data: AppState, part: String) -> AppState {
        AppState { pressed: data.pressed, text: part }
    }

    fn lemma_get_put(&self, _: AppState, _: String) {}

    fn lemma_put_get(&self, _: AppState) {}

    fn lemma_put_put(&self, _: AppState, _: String, _: String) {}

    fn get<'a>(&self, data: &'a AppState) -> &'a String {
        &data.text
    }

    fn get_mut<'a>(&self, data: &'a mut AppState) -> &'a mut String {
        &mut data.text
    }
}

type Reader = fn(&String) -> String;
type Writer = fn(String, &mut String);
type Hint = fn() -> String;
type Box1 = TextBox<Reader, Writer, Hint, String>;

fn read(data: &String) -> String {
    data.clone()
}

fn write(text: String, data: &mut String) {
    *data = text;
}

fn text_box() -> Box1 {
    let b: Box1 = TextBox::new(200);
    b.value(read as Reader).on_change(write as Writer)
}

fn app(text: &str) -> AppState {
    AppState { pressed: Some(3), text: String::from(text) }
}

#[test]
fn field_lens_round_trip() {
    let mut data = app("old");
    Text.with_mut(&mut data, |u: &mut String| *u = String::from("new"));
    assert_eq!(Text.get(&data), &String::from("new"));
    assert_eq!(data.pressed, Some(3));
}

#[test]
fn with_mut_hands_back_what_the_function_returns() {
    let mut data = app("abc");
    let length = Text.with_mut(&mut data, |u: &mut String| {
        u.push('d');
        u.len()
    });
    assert_eq!(length, 4);
    assert_eq!(data, app("abcd"));
}

#[test]
fn pair_lenses_touch_one_field_each() {
    let mut pair = (1u32, String::from("x"));
    First.with_mut(&mut pair, |u: &mut u32| *u = 9);
    assert_eq!(pair, (9, String::from("x")));
    Second.with_mut(&mut pair, |u: &mut String| u.push('y'));
    assert_eq!(pair, (9, String::from("xy")));
    let first: &u32 = First.get(&pair);
    let second: &String = Second.get(&pair);
    assert_eq!((*first, second.as_str()), (9, "xy"));
    *First.get_mut(&mut pair) = 2;
    assert_eq!(pair, (2, String::from("xy")));
}

#[test]
fn lenses_compose() {
    let lens: Then<AppState, Second, Text> = Then::new(Second, Text);
    let mut data = (7u32, app("in"));
    assert_eq!(lens.get(&data), &String::from("in"));
    lens.with_mut(&mut data, |u: &mut String| u.push_str("side"));
    assert_eq!(data, (7, app("inside")));
    *lens.get_mut(&mut data) = String::new();
    assert_eq!(data, (7, app("")));
}

#[test]
fn lens_wrap_scopes_events_to_the_part() {
    let mut wrapped = LensWrap::new(text_box(), Text);
    let mut data = app("typ");
    let mut state = BaseState::new();
    state.is_hot = true;
    let mut ctx = EventCtx::new(state, false, false);
    let key = Event::KeyDown(KeyEvent::new(KeyCode::Character, Some(String::from("e"))));
    assert!(wrapped.event(&key, &mut ctx, &mut data, &Env::new()).is_none());
    assert_eq!(data, app("type"));
    assert!(ctx.base_state.needs_inval);
    let down = Event::MouseDown(MouseEvent::new(Point::origin()));
    let _ = wrapped.event(&down, &mut ctx, &mut data, &Env::new());
    assert!(ctx.is_active());
    assert_eq!(data, app("type"));
}

#[test]
fn lens_wrap_lays_out_and_paints_the_part() {
    let mut wrapped = LensWrap::new(text_box(), Text);
    let data = app("shown");
    let bc = BoxConstraints::new(Size::zero(), Size::new(500, 500));
    assert_eq!(wrapped.layout(&bc, &data, &Env::new()), Size::new(200, 24));
    let mut plain = text_box();
    let mut expected = PaintCtx::new();
    plain.paint(&mut expected, &BaseState::new(), &String::from("shown"), &Env::new());
    let mut ctx = PaintCtx::new();
    wrapped.paint(&mut ctx, &BaseState::new(), &data, &Env::new());
    assert_eq!(ctx.into_commands(), expected.into_commands());
}

#[test]
fn lens_wrap_update_follows_the_part() {
    let mut wrapped = LensWrap::new(text_box(), Text);
    let env = Env::new();
    let mut ctx = UpdateCtx::new();
    wrapped.update(&mut ctx, Some(&app("a")), &app("a"), &env);
    assert!(!ctx.needs_inval);
    // Another field changed: the box is told, sees its part unchanged, and
    // asks for nothing.
    let mut other = app("a");
    other.pressed = None;
    wrapped.update(&mut ctx, Some(&app("a")), &other, &env);
    assert!(!ctx.needs_inval);
    wrapped.update(&mut ctx, Some(&app("a")), &app("b"), &env);
    assert!(ctx.needs_inval);
    let mut ctx = UpdateCtx::new();
    wrapped.update(&mut ctx, None, &app("a"), &env);
    assert!(ctx.needs_inval);
}
