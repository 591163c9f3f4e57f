//! Lenses: a way to treat a part of a value as a value of its own, and the
//! wrapper that scopes a widget to such a part.

use crate::context::{BaseState, Env, EventCtx, UpdateCtx};
use crate::data::Data;
use crate::event::{Action, Event};
use crate::geometry::{BoxConstraints, Size};
use crate::paint::PaintCtx;
use crate::widget::Widget;
use std::marker::PhantomData;
use vstd::prelude::*;

verus! {

/// A part `U` of a whole `T`.
///
/// `get_spec` reads the part and `put_spec` replaces it. The three laws say
/// that the two speak of one and the same part and of nothing else.
pub trait Lens<T, U> {
    /// The part of `data` that the lens looks at.
    spec fn get_spec(&self, data: T) -> U;

    /// `data` with that part replaced by `part`.
    spec fn put_spec(&self, data: T, part: U) -> T;

    /// What was put is what is got.
    proof fn lemma_get_put(&self, data: T, part: U)
        ensures
            self.get_spec(self.put_spec(data, part)) == part,
    ;

    /// Putting back what was got changes nothing.
    proof fn lemma_put_get(&self, data: T)
        ensures
            self.put_spec(data, self.get_spec(data)) == data,
    ;

    /// Of two puts the second wins.
    proof fn lemma_put_put(&self, data: T, first: U, second: U)
        ensures
            self.put_spec(self.put_spec(data, first), second) == self.put_spec(data, second),
    ;

    /// The part, for reading.
    fn get<'a>(&self, data: &'a T) -> (part: &'a U)
        ensures
            *part == self.get_spec(*data),
    ;

    /// The part, for writing: whatever the caller leaves in the part is
    /// put into the whole, and the rest of the whole stays as it is.
    fn get_mut<'a>(&self, data: &'a mut T) -> (part: &'a mut U)
        ensures
            *part == self.get_spec(*old(data)),
            *final(data) == self.put_spec(*old(data), *final(part)),
    ;

    /// Runs `f` on the part and puts what `f` leaves of it into the whole.
    fn with_mut<V, F: FnOnce(&mut U) -> V>(&self, data: &mut T, f: F) -> (r: V)
        requires
            forall|part: &mut U| *part == self.get_spec(*old(data)) ==> call_requires(f, (part,)),
        ensures
            exists|part: &mut U|
                *part == self.get_spec(*old(data)) && #[trigger] call_ensures(f, (part,), r)
                    && *final(data) == self.put_spec(*old(data), *final(part)),
    {
        f(self.get_mut(data))
    }
}

/// Replacing a part and reading it back gives what was put, and putting the
/// old part back gives the old whole: the replacement touched nothing else.
pub proof fn lemma_lens_round_trip<T, U, L: Lens<T, U>>(lens: L, data: T, part: U)
    ensures
        lens.get_spec(lens.put_spec(data, part)) == part,
        lens.put_spec(lens.put_spec(data, part), lens.get_spec(data)) == data,
{
    lens.lemma_get_put(data, part);
    lens.lemma_put_put(data, part, lens.get_spec(data));
    lens.lemma_put_get(data);
}

/// The lens onto the first field of a pair.
pub struct First;

/// The lens onto the second field of a pair.
pub struct Second;

impl<A, B> Lens<(A, B), A> for First {
    open spec fn get_spec(&self, data: (A, B)) -> A {
        data.0
    }

    open spec fn put_spec(&self, data: (A, B), part: A) -> (A, B) {
        (part, data.1)
    }

    proof fn lemma_get_put(&self, data: (A, B), part: A) {
    }

    proof fn lemma_put_get(&self, data: (A, B)) {
    }

    proof fn lemma_put_put(&self, data: (A, B), first: A, second: A) {
    }

    fn get<'a>(&self, data: &'a (A, B)) -> (part: &'a A) {
        &data.0
    }

    fn get_mut<'a>(&self, data: &'a mut (A, B)) -> (part: &'a mut A)
        ensures
            final(data).1 == old(data).1,
    {
        &mut data.0
    }
}

impl<A, B> Lens<(A, B), B> for Second {
    open spec fn get_spec(&self, data: (A, B)) -> B {
        data.1
    }

    open spec fn put_spec(&self, data: (A, B), part: B) -> (A, B) {
        (data.0, part)
    }

    proof fn lemma_get_put(&self, data: (A, B), part: B) {
    }

    proof fn lemma_put_get(&self, data: (A, B)) {
    }

    proof fn lemma_put_put(&self, data: (A, B), first: B, second: B) {
    }

    fn get<'a>(&self, data: &'a (A, B)) -> (part: &'a B) {
        &data.1
    }

    fn get_mut<'a>(&self, data: &'a mut (A, B)) -> (part: &'a mut B)
        ensures
            final(data).0 == old(data).0,
    {
        &mut data.1
    }
}

/// A lens into a lens: the part of a part.
pub struct Then<U, L1, L2> {
    pub outer: L1,
    pub inner: L2,
    pub phantom: PhantomData<U>,
}

impl<U, L1, L2> Then<U, L1, L2> {
    /// The lens that looks through `outer` and then through `inner`.
    pub fn new(outer: L1, inner: L2) -> (r: Self)
        ensures
            r.outer == outer,
            r.inner == inner,
    {
        Then { outer, inner, phantom: PhantomData }
    }
}

impl<T, U: 'static, V, L1: Lens<T, U>, L2: Lens<U, V>> Lens<T, V> for Then<U, L1, L2> {
    open spec fn get_spec(&self, data: T) -> V {
        self.inner.get_spec(self.outer.get_spec(data))
    }

    open spec fn put_spec(&self, data: T, part: V) -> T {
        self.outer.put_spec(data, self.inner.put_spec(self.outer.get_spec(data), part))
    }

    proof fn lemma_get_put(&self, data: T, part: V) {
        let middle = self.outer.get_spec(data);
        self.outer.lemma_get_put(data, self.inner.put_spec(middle, part));
        self.inner.lemma_get_put(middle, part);
    }

    proof fn lemma_put_get(&self, data: T) {
        let middle = self.outer.get_spec(data);
        self.inner.lemma_put_get(middle);
        self.outer.lemma_put_get(data);
    }

    proof fn lemma_put_put(&self, data: T, first: V, second: V) {
        let middle = self.outer.get_spec(data);
        let once = self.inner.put_spec(middle, first);
        self.outer.lemma_get_put(data, once);
        self.inner.lemma_put_put(middle, first, second);
        self.outer.lemma_put_put(data, once, self.inner.put_spec(middle, second));
    }

    fn get<'a>(&self, data: &'a T) -> (part: &'a V) {
        self.inner.get(self.outer.get(data))
    }

    fn get_mut<'a>(&self, data: &'a mut T) -> (part: &'a mut V) {
        self.inner.get_mut(self.outer.get_mut(data))
    }
}

/// A widget for a part, made into a widget for the whole.
///
/// The wrapped widget sees the part that the lens looks at and nothing
/// else; what it does to the part is put into the whole.
pub struct LensWrap<U, L, W> {
    pub inner: W,
    pub lens: L,
    pub phantom: PhantomData<U>,
}

impl<U: Data, L, W: Widget<U>> LensWrap<U, L, W> {
    /// Scopes `inner` to the part that `lens` looks at.
    pub fn new(inner: W, lens: L) -> (r: Self)
        requires
            inner.inv(),
        ensures
            r.inner == inner,
            r.lens == lens,
            r.inner.inv(),
    {
        LensWrap { inner, lens, phantom: PhantomData }
    }
}

impl<U: Data, L, W: Widget<U>> LensWrap<U, L, W> {
    /// The part of the data before, where there was data before.
    pub open spec fn part_of<T>(&self, old_data: Option<&T>) -> Option<&U> where L: Lens<T, U> {
        match old_data {
            Some(previous) => Some(&self.lens.get_spec(*previous)),
            None => None,
        }
    }
}

impl<T: Data, U: Data, L: Lens<T, U>, W: Widget<U>> Widget<T> for LensWrap<U, L, W> {
    open spec fn inv(&self) -> bool {
        self.inner.inv()
    }

    /// Paints the wrapped widget with the part: what comes of it is what
    /// the widget's own `paint` makes of the part.
    fn paint(&mut self, paint_ctx: &mut PaintCtx, base_state: &BaseState, data: &T, env: &Env)
        ensures
            final(self).lens == old(self).lens,
            exists|widget: &mut W, inner_ctx: &mut PaintCtx|
                *widget == old(self).inner && *final(widget) == final(self).inner && *inner_ctx
                    == *old(paint_ctx) && *final(inner_ctx) == *final(paint_ctx)
                    && #[trigger] call_ensures(
                    <W as Widget<U>>::paint,
                    (widget, inner_ctx, base_state, &old(self).lens.get_spec(*data), env),
                    (),
                ),
    {
        self.inner.paint(paint_ctx, base_state, self.lens.get(data), env);
    }

    /// Lets the wrapped widget choose its size: the size is what the
    /// widget's own `layout` returns for `bc` and the part.
    fn layout(&mut self, bc: &BoxConstraints, data: &T, env: &Env) -> (size: Size)
        ensures
            final(self).lens == old(self).lens,
            exists|widget: &mut W|
                *widget == old(self).inner && *final(widget) == final(self).inner
                    && #[trigger] call_ensures(
                    <W as Widget<U>>::layout,
                    (widget, bc, &old(self).lens.get_spec(*data), env),
                    size,
                ),
    {
        self.inner.layout(bc, self.lens.get(data), env)
    }

    /// Hands the event to the wrapped widget together with the part: what
    /// comes of it is what the widget's own `event` makes of the part. The
    /// whole comes out as it went in, but for the part.
    fn event(&mut self, event: &Event, ctx: &mut EventCtx, data: &mut T, env: &Env) -> (action:
        Option<Action>)
        ensures
            final(self).lens == old(self).lens,
            *final(data) == old(self).lens.put_spec(
                *old(data),
                old(self).lens.get_spec(*final(data)),
            ),
            exists|widget: &mut W, inner_ctx: &mut EventCtx, part: &mut U|
                *widget == old(self).inner && *final(widget) == final(self).inner && *inner_ctx
                    == *old(ctx) && *final(inner_ctx) == *final(ctx) && *part
                    == old(self).lens.get_spec(*old(data)) && *final(data)
                    == old(self).lens.put_spec(*old(data), *final(part))
                    && #[trigger] call_ensures(
                    <W as Widget<U>>::event,
                    (widget, event, inner_ctx, part, env),
                    action,
                ),
    {
        let ghost before = *data;
        let part = self.lens.get_mut(data);
        let action = self.inner.event(event, ctx, part, env);
        proof {
            self.lens.lemma_get_put(before, *part);
        }
        action
    }

    /// Tells the wrapped widget that the part changed, unless the whole is
    /// the same as before: what comes of it is what the widget's own
    /// `update` makes of the part before and the part now.
    fn update(&mut self, ctx: &mut UpdateCtx, old_data: Option<&T>, data: &T, env: &Env)
        ensures
            final(self).lens == old(self).lens,
            T::obeys_same_spec() && old_data is Some && old_data->0.same_spec(data) ==> final(self).inner == old(self).inner,
            (final(self).inner == old(self).inner && *final(ctx) == *old(ctx)) || (exists|
                widget: &mut W,
                inner_ctx: &mut UpdateCtx,
            |
                *widget == old(self).inner && *final(widget) == final(self).inner && *inner_ctx
                    == *old(ctx) && *final(inner_ctx) == *final(ctx) && #[trigger] call_ensures(
                    <W as Widget<U>>::update,
                    (
                        widget,
                        inner_ctx,
                        old(self).part_of(old_data),
                        &old(self).lens.get_spec(*data),
                        env,
                    ),
                    (),
                )),
            !(old_data is Some && old_data->0.same_spec(data)) ==> (exists|
                widget: &mut W,
                inner_ctx: &mut UpdateCtx,
            |
                *widget == old(self).inner && *final(widget) == final(self).inner && *inner_ctx
                    == *old(ctx) && *final(inner_ctx) == *final(ctx) && #[trigger] call_ensures(
                    <W as Widget<U>>::update,
                    (
                        widget,
                        inner_ctx,
                        old(self).part_of(old_data),
                        &old(self).lens.get_spec(*data),
                        env,
                    ),
                    (),
                )),
    {
        match old_data {
            Some(previous) => {
                if previous.same(data) {
                    return ;
                }
                self.inner.update(ctx, Some(self.lens.get(previous)), self.lens.get(data), env);
            },
            None => {
                self.inner.update(ctx, None, self.lens.get(data), env);
            },
        }
    }
}

} // verus!
