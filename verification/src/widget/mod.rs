//! The widget contract and the widgets that the core provides.

pub mod flex;
pub mod list_view;
pub mod pod;
pub mod scroll;
pub mod textbox;

use crate::context::{BaseState, Env, EventCtx, UpdateCtx};
use crate::data::Data;
use crate::event::{Action, Event};
use crate::geometry::{BoxConstraints, Size};
use crate::paint::PaintCtx;
use vstd::prelude::*;

verus! {

/// A node of the widget tree, working on data of type `T`.
///
/// `inv` is whatever the widget needs to hold between calls; every operation
/// expects it and keeps it.
pub trait Widget<T: Data> {
    /// The widget's own invariant.
    spec fn inv(&self) -> bool;

    /// Records the drawing commands for this subtree. `base_state` holds the
    /// size that layout decided and the interaction flags. What was recorded
    /// before stays as it is; the data cannot be changed from here.
    fn paint(&mut self, paint_ctx: &mut PaintCtx, base_state: &BaseState, data: &T, env: &Env)
        requires
            old(self).inv(),
        ensures
            final(self).inv(),
            old(paint_ctx)@.is_prefix_of(final(paint_ctx)@),
    ;

    /// Chooses a size within `bc`.
    fn layout(&mut self, bc: &BoxConstraints, data: &T, env: &Env) -> (size: Size)
        requires
            old(self).inv(),
            bc.wf(),
        ensures
            final(self).inv(),
            bc.contains_spec(size),
    ;

    /// Handles one event. The handler may change the data and may talk to
    /// the framework through `ctx`, within what [`EventCtx::follows`] allows.
    fn event(&mut self, event: &Event, ctx: &mut EventCtx, data: &mut T, env: &Env) -> (action:
        Option<Action>)
        requires
            old(self).inv(),
        ensures
            final(self).inv(),
            final(ctx).follows(*old(ctx)),
    ;

    /// Tells the widget that the data went from `old_data` to `data`; there
    /// is no `old_data` the first time. An invalidation that was asked for
    /// before stays. Where the two values are the same, the call asks for
    /// nothing.
    fn update(&mut self, ctx: &mut UpdateCtx, old_data: Option<&T>, data: &T, env: &Env)
        requires
            old(self).inv(),
        ensures
            final(self).inv(),
            old(ctx).needs_inval ==> final(ctx).needs_inval,
            T::obeys_same_spec() && old_data is Some && old_data->0.same_spec(data) ==> *final(ctx)
                == *old(ctx),
    ;
}

} // verus!
