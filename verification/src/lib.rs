//! A retained-mode user interface core.
//!
//! Application state is a value that the application owns. A tree of widgets
//! looks at that value, lays itself out, paints, and reacts to input events
//! by changing the value in place. This crate is the part of such a
//! framework that decides: change detection ([`Data`]), scoping a widget to
//! a part of the state ([`Lens`], [`LensWrap`]), the widget life cycle
//! ([`Widget`], [`WidgetPod`]), rows and columns that share out space by
//! weight, scroll viewports, list views and a text box, and the root that
//! drives one pass for each event ([`UiState`]).
//!
//! Geometry is in whole device units. Painting records a list of drawing
//! commands instead of drawing.

pub mod context;
pub mod data;
pub mod event;
pub mod geometry;
pub mod lens;
pub mod paint;
pub mod ui;
pub mod widget;

pub use context::{BaseState, Env, EventCtx, UpdateCtx};
pub use data::Data;
pub use event::{Action, Event, KeyCode, KeyEvent, MouseEvent};
pub use geometry::{Axis, BoxConstraints, Point, Rect, Size};
pub use lens::{Lens, LensWrap};
pub use paint::{Color, DrawCommand, PaintCtx};
pub use ui::UiState;
pub use widget::pod::WidgetPod;
pub use widget::Widget;
