use druid::widget::flex::{flex_share, flex_space, Column, Flex, Row};
use druid::widget::textbox::{TextBox, BOX_HEIGHT};
use druid::{Axis, BoxConstraints, Env, Point, Rect, Size, Widget};

type Reader = fn(&String) -> String;
type Writer = fn(String, &mut String);
type Hint = fn() -> String;
type Box1 = TextBox<Reader, Writer, Hint, String>;

fn text_box(width: u32) -> Box1 {
    TextBox::new(width)
}

fn rect(x: i64, y: i64, width: u32, height: u32) -> Rect {
    Rect::from_origin_size(Point::new(x, y), Size::new(width, height))
}

#[test]
fn flex_space_is_what_fixed_children_leave() {
    assert_eq!(flex_space(100, 20), 80);
    assert_eq!(flex_space(100, 0), 100);
    assert_eq!(flex_space(100, 100), 0);
    assert_eq!(flex_space(u32::MAX, 1), u32::MAX - 1);
}

#[test]
fn flex_space_is_never_negative() {
    assert_eq!(flex_space(100, 101), 0);
    assert_eq!(flex_space(0, u128::MAX), 0);
}

#[test]
fn flex_share_is_proportional() {
    assert_eq!(flex_share(80, 1, 4), 20);
    assert_eq!(flex_share(80, 3, 4), 60);
    assert_eq!(flex_share(100, 1, 1), 100);
    assert_eq!(flex_share(u32::MAX, u32::MAX, u32::MAX as u128), u32::MAX);
}

#[test]
fn flex_share_rounds_down() {
    assert_eq!(flex_share(100, 1, 3), 33);
    assert_eq!(flex_share(100, 2, 3), 66);
    assert_eq!(flex_share(1, 1, 2), 0);
}

#[test]
fn flex_share_of_nothing_is_nothing() {
    assert_eq!(flex_share(0, 3, 4), 0);
    assert_eq!(flex_share(80, 0, 4), 0);
    assert_eq!(flex_share(80, 1, 0), 0);
}

#[test]
fn flex_share_clips_where_the_weight_exceeds_the_sum() {
    assert_eq!(flex_share(u32::MAX, 2, 1), u32::MAX);
    assert_eq!(flex_share(10, 6, 3), 20);
}

#[test]
fn row_shares_leftover_width_by_weight() {
    let mut row: Flex<String, Box1> = Row::new();
    row.add_child(text_box(20), 0);
    row.add_child(text_box(500), 1);
    row.add_child(text_box(1), 3);
    assert_eq!(row.len(), 3);
    let bc = BoxConstraints::new(Size::new(0, 0), Size::new(100, 50));
    let size = row.layout(&bc, &String::new(), &Env::new());
    assert_eq!(size, Size::new(100, BOX_HEIGHT));
    assert_eq!(row.children[0].pod.get_layout_rect(), rect(0, 0, 20, BOX_HEIGHT));
    assert_eq!(row.children[1].pod.get_layout_rect(), rect(20, 0, 20, BOX_HEIGHT));
    assert_eq!(row.children[2].pod.get_layout_rect(), rect(40, 0, 60, BOX_HEIGHT));
}

#[test]
fn column_lays_out_from_top_to_bottom() {
    let column: Flex<String, Box1> =
        Column::new().child(text_box(30), 0).child(text_box(70), 0).child(text_box(50), 1);
    let mut column = column;
    assert_eq!(column.direction, Axis::Vertical);
    let bc = BoxConstraints::new(Size::new(0, 0), Size::new(60, 100));
    let size = column.layout(&bc, &String::new(), &Env::new());
    // Two fixed children take 24 each; the weighted one gets the other 52.
    assert_eq!(column.children[0].pod.get_layout_rect(), rect(0, 0, 30, 24));
    assert_eq!(column.children[1].pod.get_layout_rect(), rect(0, 24, 60, 24));
    assert_eq!(column.children[2].pod.get_layout_rect(), rect(0, 48, 50, 52));
    assert_eq!(size, Size::new(60, 100));
}

#[test]
fn weighted_children_get_nothing_when_fixed_children_take_all() {
    let mut row: Flex<String, Box1> = Row::new();
    row.add_child(text_box(80), 0);
    row.add_child(text_box(80), 0);
    row.add_child(text_box(10), 1);
    let bc = BoxConstraints::new(Size::new(0, 0), Size::new(100, 50));
    let size = row.layout(&bc, &String::new(), &Env::new());
    assert_eq!(row.children[0].pod.get_layout_rect(), rect(0, 0, 80, 24));
    assert_eq!(row.children[1].pod.get_layout_rect(), rect(80, 0, 80, 24));
    assert_eq!(row.children[2].pod.get_layout_rect(), rect(160, 0, 0, 24));
    // The row itself is clipped to what it was offered.
    assert_eq!(size, Size::new(100, 24));
}

#[test]
fn empty_row_takes_the_least_it_may() {
    let mut row: Flex<String, Box1> = Row::new();
    let bc = BoxConstraints::new(Size::new(5, 7), Size::new(100, 50));
    assert_eq!(row.layout(&bc, &String::new(), &Env::new()), Size::new(5, 7));
    assert_eq!(row.len(), 0);
}

#[test]
fn row_is_at_least_as_high_as_it_must_be() {
    let mut row: Flex<String, Box1> = Row::new();
    row.add_child(text_box(20), 0);
    let bc = BoxConstraints::new(Size::new(0, 40), Size::new(100, 50));
    let size = row.layout(&bc, &String::new(), &Env::new());
    // The child is offered heights from 40 to 50 and takes the nearest to 24.
    assert_eq!(row.children[0].pod.get_layout_rect(), rect(0, 0, 20, 40));
    assert_eq!(size, Size::new(20, 40));
}
