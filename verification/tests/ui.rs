use druid::ui::UiState;
use druid::widget::flex::{Column, Flex};
use druid::widget::textbox::{TextBox, PRIMARY_LIGHT, TEXT_COLOR};
use druid::{
    Action, Color, DrawCommand, Event, KeyCode, KeyEvent, MouseEvent, Point, Rect, Size,
};

type Reader = fn(&String) -> String;
type Writer = fn(String, &mut String);
type Hint = fn() -> String;
type Box1 = TextBox<Reader, Writer, Hint, String>;

fn read(data: &String) -> String {
    data.clone()
}

fn write(text: String, data: &mut String) {
    *data = text;
}

fn text_box(width: u32) -> Box1 {
    let b: Box1 = TextBox::new(width);
    b.value(read as Reader).on_change(write as Writer)
}

fn ui() -> UiState<String, Flex<String, Box1>> {
    let column: Flex<String, Box1> = Column::new().child(text_box(200), 0).child(text_box(100), 1);
    UiState::new(column, String::from("typing is fu"))
}

fn rect(x: i64, y: i64, width: u32, height: u32) -> Rect {
    Rect::from_origin_size(Point::new(x, y), Size::new(width, height))
}

#[test]
fn new_ui_owns_the_data() {
    let ui = ui();
    assert_eq!(ui.data(), &String::from("typing is fu"));
    assert!(ui.snapshot.is_none());
    assert_eq!(ui.size, Size::zero());
}

#[test]
fn resize_sets_the_window_size() {
    let mut ui = ui();
    let outcome = ui.size_changed(Size::new(300, 100));
    assert_eq!(ui.size, Size::new(300, 100));
    assert!(outcome.action.is_none());
    assert!(!outcome.is_handled);
    // The first pass tells the tree of the data, and the boxes ask to be painted.
    assert!(outcome.dirty);
    assert_eq!(ui.snapshot, Some(String::from("typing is fu")));
}

#[test]
fn layout_gives_the_root_the_window() {
    let mut ui = ui();
    let _ = ui.size_changed(Size::new(300, 100));
    assert_eq!(ui.layout(), Size::new(300, 100));
    assert_eq!(ui.root.get_layout_rect(), rect(0, 0, 300, 100));
    let column = &ui.root.inner;
    // The window's width is exact, so every child is exactly as wide.
    assert_eq!(column.children[0].pod.get_layout_rect(), rect(0, 0, 300, 24));
    assert_eq!(column.children[1].pod.get_layout_rect(), rect(0, 24, 300, 76));
}

#[test]
fn events_without_effect_leave_the_ui_clean() {
    let mut ui = ui();
    let _ = ui.size_changed(Size::new(300, 100));
    let _ = ui.paint();
    let outcome = ui.event(&Event::MouseUp(MouseEvent::new(Point::new(250, 90))));
    assert!(!outcome.dirty);
    assert!(!outcome.is_handled);
    assert_eq!(outcome.action, None::<Action>);
    assert_eq!(ui.data(), &String::from("typing is fu"));
}

#[test]
fn one_pass_for_each_event() {
    let mut ui = ui();
    let _ = ui.size_changed(Size::new(300, 100));
    let _ = ui.paint();
    // Move onto the first box, press, and type.
    let (outcome, _) = ui.cycle(&Event::MouseMoved(MouseEvent::new(Point::new(5, 5))));
    assert!(!outcome.dirty);
    let (outcome, commands) = ui.cycle(&Event::MouseDown(MouseEvent::new(Point::new(5, 5))));
    assert!(outcome.dirty);
    assert!(ui.root.state.has_active);
    assert!(ui.root.inner.children[0].pod.state.is_active);
    assert!(!ui.root.inner.children[1].pod.state.is_active);
    // The active box is painted with the bright border.
    assert_eq!(
        commands[3],
        DrawCommand::Stroke {
            rect: rect(0, 0, 299, 24),
            radius: 2,
            color: Color::rgba32(PRIMARY_LIGHT),
            width: 1
        }
    );
    let key = Event::KeyDown(KeyEvent::new(KeyCode::Character, Some(String::from("n"))));
    let (outcome, commands) = ui.cycle(&key);
    assert!(outcome.dirty);
    assert_eq!(ui.data(), &String::from("typing is fun"));
    assert_eq!(ui.snapshot, Some(String::from("typing is fun")));
    // The mutation is visible to the paint pass of the same cycle.
    assert_eq!(
        commands[6],
        DrawCommand::Text {
            text: String::from("typing is fun"),
            font_size: 14,
            pos: Point::new(4, 16),
            color: Color::rgba32(TEXT_COLOR)
        }
    );
    assert_eq!(commands[0], DrawCommand::Save);
    assert_eq!(commands[1], DrawCommand::Translate { by: Point::origin() });
    assert_eq!(commands.last(), Some(&DrawCommand::Restore));
}

#[test]
fn painting_does_not_touch_the_data() {
    let mut ui = ui();
    let _ = ui.size_changed(Size::new(300, 100));
    let first = ui.paint();
    let second = ui.paint();
    assert_eq!(first, second);
    assert_eq!(ui.data(), &String::from("typing is fu"));
    assert_eq!(ui.size, Size::new(300, 100));
}
