//! Rows and columns: linear containers that share out space by weight.
//!
//! A child of weight zero is as long, along the container's axis, as it asks
//! to be. What the children of weight zero leave of the container's length is
//! shared out among the others in proportion to their weights.

use crate::context::{BaseState, Env, EventCtx, UpdateCtx};
use crate::data::Data;
use crate::event::{Action, Event};
use crate::geometry::{clip_len, Axis, BoxConstraints, Point, Rect, Size, UNBOUNDED};
use crate::paint::{DrawCommandView, PaintCtx};
use crate::widget::pod::WidgetPod;
use crate::widget::Widget;
use vstd::prelude::*;

verus! {

/// The sum of the first `n` terms.
pub open spec fn prefix_sum(terms: Seq<int>, n: int) -> int
    decreases n,
{
    if n <= 0 {
        0
    } else {
        prefix_sum(terms, n - 1) + terms[n - 1]
    }
}

/// The largest of `floor` and the first `n` terms.
pub open spec fn prefix_max(terms: Seq<int>, n: int, floor: int) -> int
    decreases n,
{
    if n <= 0 {
        floor
    } else {
        let below = prefix_max(terms, n - 1, floor);
        if terms[n - 1] > below {
            terms[n - 1]
        } else {
            below
        }
    }
}

/// Sequences that agree on their first `n` terms have the same sum of them.
pub proof fn lemma_prefix_sum_agrees(a: Seq<int>, b: Seq<int>, n: int)
    requires
        forall|j: int| 0 <= j < n ==> a[j] == b[j],
    ensures
        prefix_sum(a, n) == prefix_sum(b, n),
    decreases n,
{
    if n > 0 {
        lemma_prefix_sum_agrees(a, b, n - 1);
    }
}

/// In a sum of terms that are not negative, no term exceeds the sum.
pub proof fn lemma_term_within_sum(terms: Seq<int>, n: int, i: int)
    requires
        0 <= i < n,
        forall|j: int| 0 <= j < n ==> 0 <= #[trigger] terms[j],
    ensures
        0 <= terms[i] <= prefix_sum(terms, n),
        0 <= prefix_sum(terms, i) <= prefix_sum(terms, n),
    decreases n,
{
    if i < n - 1 {
        lemma_term_within_sum(terms, n - 1, i);
    } else {
        lemma_sum_not_negative(terms, n - 1);
    }
}

/// A sum of terms that are not negative is not negative.
pub proof fn lemma_sum_not_negative(terms: Seq<int>, n: int)
    requires
        forall|j: int| 0 <= j < n ==> 0 <= #[trigger] terms[j],
    ensures
        0 <= prefix_sum(terms, n),
    decreases n,
{
    if n > 0 {
        lemma_sum_not_negative(terms, n - 1);
    }
}

/// What is left of a container's length once the children of weight zero
/// have taken `fixed` of it: never less than nothing.
pub open spec fn flex_space_spec(total: u32, fixed: int) -> u32 {
    if fixed >= total {
        0u32
    } else {
        clip_len(total - fixed)
    }
}

/// The part of `space` that goes to a child of the given weight, all weights
/// adding up to `weight_sum`: the proportional part, rounded down.
pub open spec fn flex_share_spec(space: u32, weight: u32, weight_sum: int) -> u32 {
    if weight_sum > 0 {
        clip_len(space * weight / weight_sum)
    } else {
        0u32
    }
}

/// What is left of a container's length once the children of weight zero
/// have taken `fixed` of it.
pub fn flex_space(total: u32, fixed: u128) -> (r: u32)
    ensures
        r == flex_space_spec(total, fixed as int),
{
    if fixed >= total as u128 {
        0
    } else {
        total - fixed as u32
    }
}

/// The part of `space` that goes to a child of the given weight.
pub fn flex_share(space: u32, weight: u32, weight_sum: u128) -> (r: u32)
    ensures
        r == flex_share_spec(space, weight, weight_sum as int),
        weight <= weight_sum ==> r <= space,
{
    if weight_sum == 0 {
        0
    } else {
        assert(space * weight <= 0xffff_ffff * 0xffff_ffff) by (nonlinear_arith)
            requires
                space <= 0xffff_ffff,
                weight <= 0xffff_ffff,
        ;
        let product: u64 = space as u64 * weight as u64;
        let share: u128 = product as u128 / weight_sum;
        proof {
            if weight <= weight_sum {
                lemma_share_fits(space as int, weight as int, weight_sum as int);
            }
        }
        if share > u32::MAX as u128 {
            u32::MAX
        } else {
            share as u32
        }
    }
}

/// A proportional part is no more than the whole.
pub proof fn lemma_share_fits(space: int, weight: int, weight_sum: int)
    requires
        0 <= space,
        0 <= weight <= weight_sum,
        0 < weight_sum,
    ensures
        0 <= space * weight / weight_sum <= space,
{
    assert(0 <= space * weight <= space * weight_sum) by (nonlinear_arith)
        requires
            0 <= space,
            0 <= weight <= weight_sum,
    ;
    assert(space * weight_sum == weight_sum * space) by (nonlinear_arith);
    vstd::arithmetic::div_mod::lemma_div_is_ordered(space * weight, weight_sum * space, weight_sum);
    vstd::arithmetic::div_mod::lemma_div_multiples_vanish(space, weight_sum);
    vstd::arithmetic::div_mod::lemma_div_pos_is_pos(space * weight, weight_sum);
}

/// Where the space divides evenly by the sum of the weights, the parts of two
/// children are to each other exactly as their weights.
pub proof fn lemma_shares_proportional(space: u32, w1: u32, w2: u32, weight_sum: int)
    requires
        0 < w1 <= weight_sum,
        0 < w2 <= weight_sum,
        (space as int) % weight_sum == 0,
    ensures
        flex_share_spec(space, w1, weight_sum) * w2 == flex_share_spec(space, w2, weight_sum) * w1,
{
    let unit = (space as int) / weight_sum;
    vstd::arithmetic::div_mod::lemma_fundamental_div_mod(space as int, weight_sum);
    assert(space == weight_sum * unit);
    lemma_share_of_multiple(unit, w1 as int, weight_sum);
    lemma_share_of_multiple(unit, w2 as int, weight_sum);
    lemma_share_fits(space as int, w1 as int, weight_sum);
    lemma_share_fits(space as int, w2 as int, weight_sum);
    assert((unit * w1) * w2 == (unit * w2) * w1) by (nonlinear_arith);
}

proof fn lemma_share_of_multiple(unit: int, weight: int, weight_sum: int)
    requires
        0 < weight_sum,
    ensures
        (weight_sum * unit) * weight / weight_sum == unit * weight,
{
    assert((weight_sum * unit) * weight == (unit * weight) * weight_sum) by (nonlinear_arith);
    vstd::arithmetic::div_mod::lemma_div_multiples_vanish(unit * weight, weight_sum);
}

/// The parts that the children get of `space`, one for each weight: the
/// proportional part for a weight above zero, nothing for a weight of zero.
pub open spec fn flex_shares(space: u32, weights: Seq<int>) -> Seq<int> {
    Seq::new(
        weights.len(),
        |i: int|
            if weights[i] > 0 {
                flex_share_spec(space, weights[i] as u32, prefix_sum(weights, weights.len() as int))
                    as int
            } else {
                0
            },
    )
}

/// Sharing out never hands out more than there is: all parts together fit
/// in the space.
pub proof fn lemma_shares_fit(space: u32, weights: Seq<int>)
    requires
        forall|i: int| 0 <= i < weights.len() ==> 0 <= #[trigger] weights[i] <= u32::MAX,
    ensures
        0 <= prefix_sum(flex_shares(space, weights), weights.len() as int) <= space,
{
    let n = weights.len() as int;
    let total = prefix_sum(weights, n);
    lemma_sum_not_negative(weights, n);
    lemma_shares_scaled(space, weights, n);
    lemma_sum_not_negative(flex_shares(space, weights), n);
    if total > 0 {
        let parts = prefix_sum(flex_shares(space, weights), n);
        assert(parts <= space) by (nonlinear_arith)
            requires
                parts * total <= space * total,
                total > 0,
        ;
    } else {
        lemma_shares_of_nothing(space, weights, n);
    }
}

proof fn lemma_shares_of_nothing(space: u32, weights: Seq<int>, k: int)
    requires
        0 <= k <= weights.len(),
        prefix_sum(weights, weights.len() as int) <= 0,
    ensures
        prefix_sum(flex_shares(space, weights), k) == 0,
    decreases k,
{
    if k > 0 {
        lemma_shares_of_nothing(space, weights, k - 1);
    }
}

proof fn lemma_shares_scaled(space: u32, weights: Seq<int>, k: int)
    requires
        0 <= k <= weights.len(),
        forall|i: int| 0 <= i < weights.len() ==> 0 <= #[trigger] weights[i] <= u32::MAX,
    ensures
        prefix_sum(flex_shares(space, weights), k) * prefix_sum(weights, weights.len() as int)
            <= space * prefix_sum(weights, k),
        forall|i: int| 0 <= i < k ==> 0 <= #[trigger] flex_shares(space, weights)[i],
    decreases k,
{
    let n = weights.len() as int;
    let total = prefix_sum(weights, n);
    let shares = flex_shares(space, weights);
    if k > 0 {
        lemma_shares_scaled(space, weights, k - 1);
        let weight = weights[k - 1];
        let share = shares[k - 1];
        lemma_term_within_sum(weights, n, k - 1);
        if weight > 0 {
            lemma_share_fits(space as int, weight, total);
            vstd::arithmetic::div_mod::lemma_fundamental_div_mod(space * weight, total);
            vstd::arithmetic::div_mod::lemma_mod_bound(space * weight, total);
            assert(share == space * weight / total);
            assert(share * total <= space * weight) by (nonlinear_arith)
                requires
                    space * weight == total * share + (space * weight) % total,
                    0 <= (space * weight) % total,
            ;
        } else {
            assert(share * total == 0) by (nonlinear_arith)
                requires
                    share == 0,
            ;
            assert(space * weight == 0) by (nonlinear_arith)
                requires
                    weight == 0,
            ;
        }
        let before = prefix_sum(shares, k - 1);
        let weights_before = prefix_sum(weights, k - 1);
        assert((before + share) * total <= space * (weights_before + weight)) by (nonlinear_arith)
            requires
                before * total <= space * weights_before,
                share * total <= space * weight,
        ;
    } else {
        assert(0 * total <= space * 0) by (nonlinear_arith);
    }
}

/// Where the children of weight zero take all there is, or more, the others
/// get nothing.
pub proof fn lemma_nothing_left_nothing_shared(total: u32, fixed: int, weight: u32, weight_sum: int)
    requires
        fixed >= total,
    ensures
        flex_space_spec(total, fixed) == 0,
        flex_share_spec(flex_space_spec(total, fixed), weight, weight_sum) == 0,
{
    if weight_sum > 0 {
        assert(0 * weight / weight_sum == 0) by (nonlinear_arith)
            requires
                weight_sum > 0,
        ;
    }
}

/// One child of a row or column, with its weight.
pub struct FlexChild<T: Data, W: Widget<T>> {
    pub pod: WidgetPod<T, W>,
    pub weight: u32,
}

/// A row or a column.
pub struct Flex<T: Data, W: Widget<T>> {
    pub direction: Axis,
    pub children: Vec<FlexChild<T, W>>,
}

/// A container that lays out its children from left to right.
pub struct Row;

/// A container that lays out its children from top to bottom.
pub struct Column;

impl Row {
    /// An empty row.
    pub fn new<T: Data, W: Widget<T>>() -> (r: Flex<T, W>)
        ensures
            r.wf(),
            r.direction == Axis::Horizontal,
            r.children@.len() == 0,
    {
        Flex { direction: Axis::Horizontal, children: Vec::new() }
    }
}

impl Column {
    /// An empty column.
    pub fn new<T: Data, W: Widget<T>>() -> (r: Flex<T, W>)
        ensures
            r.wf(),
            r.direction == Axis::Vertical,
            r.children@.len() == 0,
    {
        Flex { direction: Axis::Vertical, children: Vec::new() }
    }
}

impl<T: Data, W: Widget<T>> Flex<T, W> {
    /// Every child's invariant holds.
    pub open spec fn wf(&self) -> bool {
        forall|i: int| 0 <= i < self.children@.len() ==> (#[trigger] self.children@[i]).pod.inv()
    }

    /// The children's weights, in order.
    pub open spec fn weights(&self) -> Seq<int> {
        Seq::new(self.children@.len(), |i: int| self.children@[i].weight as int)
    }

    /// The children's sizes, in order.
    pub open spec fn sizes(&self) -> Seq<Size> {
        Seq::new(self.children@.len(), |i: int| self.children@[i].pod.state.layout_rect.size)
    }

    /// The children's extents along the axis, in order.
    pub open spec fn majors(&self) -> Seq<int> {
        Seq::new(
            self.children@.len(),
            |i: int| self.direction.major_spec(self.children@[i].pod.state.layout_rect.size) as int,
        )
    }

    /// The children's extents across the axis, in order.
    pub open spec fn minors(&self) -> Seq<int> {
        Seq::new(
            self.children@.len(),
            |i: int| self.direction.minor_spec(self.children@[i].pod.state.layout_rect.size) as int,
        )
    }

    /// For each child its extent along the axis if its weight is zero, and
    /// zero otherwise.
    pub open spec fn fixed_majors(&self) -> Seq<int> {
        Seq::new(
            self.children@.len(),
            |i: int|
                if self.children@[i].weight == 0 {
                    self.direction.major_spec(self.children@[i].pod.state.layout_rect.size) as int
                } else {
                    0
                },
        )
    }

    /// What the children of weight zero take along the axis, all together.
    pub open spec fn fixed_demand(&self) -> int {
        prefix_sum(self.fixed_majors(), self.children@.len() as int)
    }

    /// The sum of all weights.
    pub open spec fn weight_sum(&self) -> int {
        prefix_sum(self.weights(), self.children@.len() as int)
    }

    /// Whether this container came out of `before` by laying out again: the
    /// same children in the same order with the same weights and flags, only
    /// their layout rectangles, and whatever the widgets keep inside, may differ.
    pub open spec fn relaid_from(&self, before: &Self) -> bool {
        &&& self.direction == before.direction
        &&& self.children@.len() == before.children@.len()
        &&& forall|i: int|
            #![trigger self.children@[i]]
            0 <= i < self.children@.len() ==> {
                &&& self.children@[i].weight == before.children@[i].weight
                &&& self.children@[i].pod.state == (BaseState {
                    layout_rect: self.children@[i].pod.state.layout_rect,
                    ..before.children@[i].pod.state
                })
            }
    }

    /// Appends a child with a weight. The child starts in a pod of its own,
    /// at the origin and with no size.
    pub fn add_child(&mut self, child: W, weight: u32)
        requires
            old(self).wf(),
            child.inv(),
        ensures
            final(self).wf(),
            final(self).direction == old(self).direction,
            final(self).children@.len() == old(self).children@.len() + 1,
            final(self).children@.drop_last() == old(self).children@,
            final(self).children@.last().weight == weight,
            final(self).children@.last().pod.inner == child,
            final(self).children@.last().pod.state == BaseState::initial(),
    {
        let pod = WidgetPod::new(child);
        self.children.push(FlexChild { pod, weight });
        assert(self.children@.drop_last() =~= old(self).children@);
    }

    /// The container with one more child; see [`Flex::add_child`].
    pub fn child(self, child: W, weight: u32) -> (r: Self)
        requires
            self.wf(),
            child.inv(),
        ensures
            r.wf(),
            r.direction == self.direction,
            r.children@.len() == self.children@.len() + 1,
            r.children@.drop_last() == self.children@,
            r.children@.last().weight == weight,
            r.children@.last().pod.inner == child,
            r.children@.last().pod.state == BaseState::initial(),
    {
        let mut this = self;
        this.add_child(child, weight);
        this
    }

    /// The number of children.
    pub fn len(&self) -> (r: usize)
        ensures
            r == self.children@.len(),
    {
        self.children.len()
    }
}

impl<T: Data, W: Widget<T>> Flex<T, W> {
    /// Whether every child's extent across the axis lies within the range
    /// that `bc` leaves across the axis.
    pub open spec fn minors_within(&self, bc: BoxConstraints) -> bool {
        forall|i: int|
            #![trigger self.children@[i]]
            0 <= i < self.children@.len() ==> self.direction.minor_spec(bc.min)
                <= self.direction.minor_spec(self.children@[i].pod.state.layout_rect.size)
                <= self.direction.minor_spec(bc.max)
    }

    /// Whether each child of a nonzero weight is exactly as long as its part
    /// of `space`.
    pub open spec fn shares_given(&self, space: u32) -> bool {
        forall|i: int|
            #![trigger self.children@[i]]
            0 <= i < self.children@.len() && self.children@[i].weight > 0
                ==> self.direction.major_spec(self.children@[i].pod.state.layout_rect.size)
                == flex_share_spec(space, self.children@[i].weight, self.weight_sum())
    }

    /// Whether the children stand one behind the other along the axis, the
    /// first at the origin, all at zero across the axis.
    pub open spec fn packed(&self) -> bool {
        forall|i: int|
            #![trigger self.children@[i]]
            0 <= i < self.children@.len() ==> self.children@[i].pod.state.layout_rect.origin
                == self.direction.place_spec(clip_len(prefix_sum(self.majors(), i)), 0)
    }

    /// What child `i` is offered when the container is laid out within `bc`,
    /// the children having the sizes that they have now.
    pub open spec fn offered(&self, bc: BoxConstraints, i: int) -> BoxConstraints {
        if self.children@[i].weight == 0 {
            fixed_constraints(self.direction, bc)
        } else {
            share_constraints(
                self.direction,
                bc,
                flex_share_spec(
                    flex_space_spec(self.direction.major_spec(bc.max), self.fixed_demand()),
                    self.children@[i].weight,
                    self.weight_sum(),
                ),
            )
        }
    }

    /// Lays out one child within `child_bc` and puts it at the origin with
    /// the size that its own `layout` returns.
    fn layout_child(&mut self, i: usize, child_bc: &BoxConstraints, data: &T, env: &Env) -> (size:
        Size)
        requires
            old(self).wf(),
            i < old(self).children@.len(),
            child_bc.wf(),
        ensures
            final(self).wf(),
            final(self).direction == old(self).direction,
            final(self).children@.len() == old(self).children@.len(),
            forall|j: int|
                #![trigger final(self).children@[j]]
                0 <= j < final(self).children@.len() && j != i ==> final(self).children@[j]
                    == old(self).children@[j],
            final(self).children@[i as int].weight == old(self).children@[i as int].weight,
            final(self).children@[i as int].pod.state == (BaseState {
                layout_rect: Rect { origin: Point { x: 0, y: 0 }, size },
                ..old(self).children@[i as int].pod.state
            }),
            child_bc.contains_spec(size),
            exists|widget: &mut W|
                *widget == old(self).children@[i as int].pod.inner && *final(widget) == final(self).children@[i as int].pod.inner && #[trigger] call_ensures(
                    <W as Widget<T>>::layout,
                    (widget, child_bc, data, env),
                    size,
                ),
    {
        let size = self.children[i].pod.layout(child_bc, data, env);
        self.children[i].pod.set_layout_rect(Rect::from_origin_size(Point::origin(), size));
        size
    }

    /// Lays out the children of weight zero, each as long as it asks to be,
    /// and adds up what they take and what all the weights come to.
    fn layout_fixed(&mut self, bc: &BoxConstraints, data: &T, env: &Env) -> (r: (u128, u128))
        requires
            old(self).wf(),
            bc.wf(),
        ensures
            final(self).wf(),
            final(self).relaid_from(old(self)),
            r.0 == final(self).fixed_demand(),
            r.1 == final(self).weight_sum(),
            forall|i: int|
                #![trigger final(self).children@[i]]
                0 <= i < final(self).children@.len() && final(self).children@[i].weight != 0
                    ==> final(self).children@[i] == old(self).children@[i],
            forall|i: int|
                #![trigger step_of(i, old(self).children@.len() as int)]
                step_of(i, old(self).children@.len() as int) && old(self).children@[i].weight == 0
                    ==> exists|widget: &mut W|
                        *widget == old(self).children@[i].pod.inner && *final(widget)
                            == final(self).children@[i].pod.inner && #[trigger] call_ensures(
                            <W as Widget<T>>::layout,
                            (widget, &fixed_constraints(old(self).direction, *bc), data, env),
                            final(self).children@[i].pod.state.layout_rect.size,
                        ),
            forall|i: int|
                #![trigger final(self).children@[i]]
                0 <= i < final(self).children@.len() && final(self).children@[i].weight == 0
                    ==> final(self).direction.minor_spec(bc.min) <= final(self).direction.minor_spec(final(self).children@[i].pod.state.layout_rect.size)
                    <= final(self).direction.minor_spec(bc.max),
    {
        let axis = self.direction;
        let child_bc = BoxConstraints::new(
            axis.pack(0, axis.minor(bc.min())),
            axis.pack(UNBOUNDED, axis.minor(bc.max())),
        );
        let mut fixed: u128 = 0;
        let mut weight_sum: u128 = 0;
        let mut i: usize = 0;
        while i < self.children.len()
            invariant
                i <= self.children@.len(),
                self.wf(),
                self.relaid_from(old(self)),
                axis == self.direction,
                child_bc.wf(),
                child_bc.min == axis.pack_spec(0, axis.minor_spec(bc.min)),
                child_bc.max == axis.pack_spec(UNBOUNDED, axis.minor_spec(bc.max)),
                fixed == prefix_sum(self.fixed_majors(), i as int),
                weight_sum == prefix_sum(self.weights(), i as int),
                fixed <= i * 0xffff_ffff,
                weight_sum <= i * 0xffff_ffff,
                forall|j: int|
                    #![trigger self.children@[j]]
                    0 <= j < i && self.children@[j].weight == 0 ==> axis.minor_spec(bc.min)
                        <= axis.minor_spec(self.children@[j].pod.state.layout_rect.size)
                        <= axis.minor_spec(bc.max),
                child_bc == fixed_constraints(old(self).direction, *bc),
                forall|j: int|
                    #![trigger self.children@[j]]
                    0 <= j < self.children@.len() && (j >= i || self.children@[j].weight != 0)
                        ==> self.children@[j] == old(self).children@[j],
                forall|j: int|
                    #![trigger step_of(j, i as int)]
                    step_of(j, i as int) && old(self).children@[j].weight == 0 ==> exists|widget: &mut W|
                        *widget == old(self).children@[j].pod.inner && *final(widget)
                            == self.children@[j].pod.inner && #[trigger] call_ensures(
                            <W as Widget<T>>::layout,
                            (widget, &fixed_constraints(old(self).direction, *bc), data, env),
                            self.children@[j].pod.state.layout_rect.size,
                        ),
            decreases self.children@.len() - i,
        {
            let ghost before = *self;
            let weight = self.children[i].weight;
            if weight == 0 {
                let size = self.layout_child(i, &child_bc, data, env);
                proof {
                    lemma_prefix_sum_agrees(before.fixed_majors(), self.fixed_majors(), i as int);
                    lemma_prefix_sum_agrees(before.weights(), self.weights(), i as int);
                    // The child's layout as `layout_child` states it, rewritten
                    // step by step into the terms of the invariant.
                    assert(before.children@[i as int] == old(self).children@[i as int]);
                    assert(exists|widget: &mut W|
                        *widget == before.children@[i as int].pod.inner && *final(widget)
                            == self.children@[i as int].pod.inner && #[trigger] call_ensures(
                            <W as Widget<T>>::layout,
                            (widget, &child_bc, data, env),
                            size,
                        ));
                    assert(self.children@[i as int].pod.state.layout_rect.size == size);
                    assert(child_bc == fixed_constraints(old(self).direction, *bc));
                    assert(exists|widget: &mut W|
                        *widget == old(self).children@[i as int].pod.inner && *final(widget)
                            == self.children@[i as int].pod.inner && #[trigger] call_ensures(
                            <W as Widget<T>>::layout,
                            (widget, &child_bc, data, env),
                            self.children@[i as int].pod.state.layout_rect.size,
                        ));
                    assert(exists|widget: &mut W|
                        *widget == old(self).children@[(i as int)].pod.inner && *final(widget)
                            == self.children@[(i as int)].pod.inner && #[trigger] call_ensures(
                            <W as Widget<T>>::layout,
                            (widget, &fixed_constraints(old(self).direction, *bc), data, env),
                            self.children@[(i as int)].pod.state.layout_rect.size,
                        ));
                }
                fixed = fixed + axis.major(size) as u128;
            }
            weight_sum = weight_sum + weight as u128;
            proof {
                assert forall|j: int|
                    #![trigger step_of(j, i + 1)]
                    step_of(j, i + 1) && old(self).children@[j].weight == 0 implies exists|widget: &mut W|
                        *widget == old(self).children@[j].pod.inner && *final(widget)
                            == self.children@[j].pod.inner && #[trigger] call_ensures(
                            <W as Widget<T>>::layout,
                            (widget, &fixed_constraints(old(self).direction, *bc), data, env),
                            self.children@[j].pod.state.layout_rect.size,
                        ) by {
                    if j < i {
                        assert(step_of(j, i as int));
                        assert(self.children@[j] == before.children@[j]);
                    } else {
                        assert(j == i as int);
                        assert(before.children@[i as int] == old(self).children@[i as int]);
                        assert(self.children@[j] == self.children@[i as int]);
                    }
                }
            }
            i += 1;
        }
        (fixed, weight_sum)
    }

    /// Lays out the children of a nonzero weight, each exactly as long as
    /// its part of `space`.
    fn layout_weighted(
        &mut self,
        bc: &BoxConstraints,
        space: u32,
        weight_sum: u128,
        data: &T,
        env: &Env,
    )
        requires
            old(self).wf(),
            bc.wf(),
            weight_sum == old(self).weight_sum(),
        ensures
            final(self).wf(),
            final(self).relaid_from(old(self)),
            final(self).fixed_demand() == old(self).fixed_demand(),
            final(self).weight_sum() == old(self).weight_sum(),
            final(self).shares_given(space),
            forall|i: int|
                #![trigger final(self).children@[i]]
                0 <= i < final(self).children@.len() && final(self).children@[i].weight == 0
                    ==> final(self).children@[i] == old(self).children@[i],
            forall|i: int|
                #![trigger step_of(i, old(self).children@.len() as int)]
                step_of(i, old(self).children@.len() as int) && old(self).children@[i].weight != 0
                    ==> exists|widget: &mut W|
                        *widget == old(self).children@[i].pod.inner && *final(widget)
                            == final(self).children@[i].pod.inner && #[trigger] call_ensures(
                            <W as Widget<T>>::layout,
                            (widget, &share_constraints(
                            old(self).direction,
                            *bc,
                            flex_share_spec(space, old(self).children@[i].weight, weight_sum as int),
                        ), data, env),
                            final(self).children@[i].pod.state.layout_rect.size,
                        ),
            forall|i: int|
                #![trigger final(self).children@[i]]
                0 <= i < final(self).children@.len() ==> if final(self).children@[i].weight == 0 {
                    final(self).children@[i].pod.state == old(self).children@[i].pod.state
                } else {
                    final(self).direction.minor_spec(bc.min) <= final(self).direction.minor_spec(
                        final(self).children@[i].pod.state.layout_rect.size,
                    ) <= final(self).direction.minor_spec(bc.max)
                },
    {
        let axis = self.direction;
        let ghost n = self.children@.len() as int;
        let mut i: usize = 0;
        while i < self.children.len()
            invariant
                i <= self.children@.len(),
                n == self.children@.len(),
                self.wf(),
                self.relaid_from(old(self)),
                axis == self.direction,
                bc.wf(),
                weight_sum == old(self).weight_sum(),
                prefix_sum(self.fixed_majors(), n) == prefix_sum(old(self).fixed_majors(), n),
                prefix_sum(self.weights(), n) == prefix_sum(old(self).weights(), n),
                forall|j: int|
                    #![trigger self.children@[j]]
                    0 <= j < n && self.children@[j].weight == 0 ==> self.children@[j].pod.state
                        == old(self).children@[j].pod.state,
                forall|j: int|
                    #![trigger self.children@[j]]
                    0 <= j < i && self.children@[j].weight > 0 ==> {
                        &&& axis.major_spec(self.children@[j].pod.state.layout_rect.size)
                            == flex_share_spec(space, self.children@[j].weight, weight_sum as int)
                        &&& axis.minor_spec(bc.min) <= axis.minor_spec(
                            self.children@[j].pod.state.layout_rect.size,
                        ) <= axis.minor_spec(bc.max)
                    },
                forall|j: int|
                    #![trigger self.children@[j]]
                    0 <= j < self.children@.len() && (j >= i || self.children@[j].weight == 0)
                        ==> self.children@[j] == old(self).children@[j],
                forall|j: int|
                    #![trigger step_of(j, i as int)]
                    step_of(j, i as int) && old(self).children@[j].weight != 0 ==> exists|widget: &mut W|
                        *widget == old(self).children@[j].pod.inner && *final(widget)
                            == self.children@[j].pod.inner && #[trigger] call_ensures(
                            <W as Widget<T>>::layout,
                            (widget, &share_constraints(
                            old(self).direction,
                            *bc,
                            flex_share_spec(space, old(self).children@[j].weight, weight_sum as int),
                        ), data, env),
                            self.children@[j].pod.state.layout_rect.size,
                        ),
            decreases self.children@.len() - i,
        {
            let ghost before = *self;
            let weight = self.children[i].weight;
            if weight != 0 {
                let share = flex_share(space, weight, weight_sum);
                let child_bc = BoxConstraints::new(
                    axis.pack(share, axis.minor(bc.min())),
                    axis.pack(share, axis.minor(bc.max())),
                );
                let size = self.layout_child(i, &child_bc, data, env);
                proof {
                    lemma_prefix_sum_agrees(before.fixed_majors(), self.fixed_majors(), n);
                    lemma_prefix_sum_agrees(before.weights(), self.weights(), n);
                    // The child's layout as `layout_child` states it, rewritten
                    // step by step into the terms of the invariant.
                    assert(before.children@[i as int] == old(self).children@[i as int]);
                    assert(exists|widget: &mut W|
                        *widget == before.children@[i as int].pod.inner && *final(widget)
                            == self.children@[i as int].pod.inner && #[trigger] call_ensures(
                            <W as Widget<T>>::layout,
                            (widget, &child_bc, data, env),
                            size,
                        ));
                    assert(self.children@[i as int].pod.state.layout_rect.size == size);
                    assert(child_bc == share_constraints(
                            old(self).direction,
                            *bc,
                            flex_share_spec(space, old(self).children@[i as int].weight, weight_sum as int),
                        ));
                    assert(exists|widget: &mut W|
                        *widget == old(self).children@[i as int].pod.inner && *final(widget)
                            == self.children@[i as int].pod.inner && #[trigger] call_ensures(
                            <W as Widget<T>>::layout,
                            (widget, &child_bc, data, env),
                            self.children@[i as int].pod.state.layout_rect.size,
                        ));
                    assert(exists|widget: &mut W|
                        *widget == old(self).children@[i as int].pod.inner && *final(widget)
                            == self.children@[i as int].pod.inner && #[trigger] call_ensures(
                            <W as Widget<T>>::layout,
                            (widget, &share_constraints(
                            old(self).direction,
                            *bc,
                            flex_share_spec(space, old(self).children@[i as int].weight, weight_sum as int),
                        ), data, env),
                            self.children@[i as int].pod.state.layout_rect.size,
                        ));
                }
            }
            proof {
                assert forall|j: int|
                    #![trigger step_of(j, i + 1)]
                    step_of(j, i + 1) && old(self).children@[j].weight != 0 implies exists|widget: &mut W|
                        *widget == old(self).children@[j].pod.inner && *final(widget)
                            == self.children@[j].pod.inner && #[trigger] call_ensures(
                            <W as Widget<T>>::layout,
                            (widget, &share_constraints(
                            old(self).direction,
                            *bc,
                            flex_share_spec(space, old(self).children@[j].weight, weight_sum as int),
                        ), data, env),
                            self.children@[j].pod.state.layout_rect.size,
                        ) by {
                    if j < i {
                        assert(step_of(j, i as int));
                        assert(self.children@[j] == before.children@[j]);
                    } else {
                        assert(j == i as int);
                        assert(before.children@[i as int] == old(self).children@[i as int]);
                        assert(self.children@[j] == self.children@[i as int]);
                    }
                }
            }
            i += 1;
        }
    }

    /// Puts the children one behind the other along the axis and measures
    /// the whole: its length, and its extent across the axis, which is at
    /// least `floor`.
    fn place_children(&mut self, floor: u32) -> (r: (u128, u32))
        requires
            old(self).wf(),
        ensures
            final(self).wf(),
            final(self).relaid_from(old(self)),
            final(self).sizes() == old(self).sizes(),
            forall|i: int|
                #![trigger final(self).children@[i]]
                0 <= i < final(self).children@.len() ==> final(self).children@[i].pod.inner == old(self).children@[i].pod.inner,
            final(self).packed(),
            r.0 == prefix_sum(final(self).majors(), final(self).children@.len() as int),
            r.1 == prefix_max(final(self).minors(), final(self).children@.len() as int, floor as int),
    {
        let axis = self.direction;
        let ghost n = self.children@.len() as int;
        let ghost majors = self.majors();
        let ghost minors = self.minors();
        let mut major: u128 = 0;
        let mut minor: u32 = floor;
        let mut i: usize = 0;
        while i < self.children.len()
            invariant
                i <= self.children@.len(),
                n == self.children@.len(),
                self.wf(),
                self.relaid_from(old(self)),
                axis == self.direction,
                majors == old(self).majors(),
                minors == old(self).minors(),
                forall|j: int|
                    #![trigger self.children@[j]]
                    0 <= j < n ==> {
                        &&& self.children@[j].pod.inner == old(self).children@[j].pod.inner
                        &&& self.children@[j].pod.state.layout_rect.size == old(self).children@[j].pod.state.layout_rect.size
                    },
                forall|j: int|
                    #![trigger self.children@[j]]
                    0 <= j < i ==> self.children@[j].pod.state.layout_rect.origin
                        == axis.place_spec(clip_len(prefix_sum(majors, j)), 0),
                major == prefix_sum(majors, i as int),
                major <= i * 0xffff_ffff,
                minor == prefix_max(minors, i as int, floor as int),
            decreases self.children@.len() - i,
        {
            let rect = self.children[i].pod.get_layout_rect();
            let along = if major > u32::MAX as u128 {
                u32::MAX
            } else {
                major as u32
            };
            self.children[i].pod.set_layout_rect(rect.with_origin(axis.place(along, 0)));
            major = major + axis.major(rect.size()) as u128;
            let across = axis.minor(rect.size());
            if across > minor {
                minor = across;
            }
            i += 1;
        }
        proof {
            assert(self.majors() =~= majors);
            assert(self.minors() =~= minors);
            assert(self.sizes() =~= old(self).sizes());
        }
        (major, minor)
    }
}

/// What a child of weight zero is offered inside a container that is
/// itself confined to `bc`: any length along the axis, and the container's
/// own range across it.
pub open spec fn fixed_constraints(axis: Axis, bc: BoxConstraints) -> BoxConstraints {
    BoxConstraints {
        min: axis.pack_spec(0, axis.minor_spec(bc.min)),
        max: axis.pack_spec(UNBOUNDED, axis.minor_spec(bc.max)),
    }
}

/// What a child of a weight above zero is offered: exactly its share along
/// the axis, and the container's own range across it.
pub open spec fn share_constraints(axis: Axis, bc: BoxConstraints, share: u32) -> BoxConstraints {
    BoxConstraints {
        min: axis.pack_spec(share, axis.minor_spec(bc.min)),
        max: axis.pack_spec(share, axis.minor_spec(bc.max)),
    }
}

/// Whether `ctxs` is how a context went through `n` steps, from `first`
/// to `last`.
pub open spec fn chain_of(ctxs: Seq<UpdateCtx>, first: UpdateCtx, last: UpdateCtx, n: int) -> bool {
    &&& ctxs.len() == n + 1
    &&& ctxs[0] == first
    &&& ctxs[n] == last
}

/// Whether `i` is one of `n` steps.
pub open spec fn step_of(i: int, n: int) -> bool {
    0 <= i < n
}

/// The context before and after step `i` of a chain.
pub open spec fn link(ctxs: Seq<UpdateCtx>, i: int) -> (UpdateCtx, UpdateCtx) {
    (ctxs[i], ctxs[i + 1])
}

/// The first action among the first `n`, if there is one.
pub open spec fn merged_action(actions: Seq<Option<Action>>, n: int) -> Option<Action>
    decreases n,
{
    if n <= 0 {
        None
    } else {
        let before = merged_action(actions, n - 1);
        if before is Some {
            before
        } else {
            actions[n - 1]
        }
    }
}

/// Sequences that agree on their first `n` actions have the same first action.
pub proof fn lemma_merged_action_agrees(
    a: Seq<Option<Action>>,
    b: Seq<Option<Action>>,
    n: int,
)
    requires
        forall|j: int| 0 <= j < n ==> a[j] == b[j],
    ensures
        merged_action(a, n) == merged_action(b, n),
    decreases n,
{
    if n > 0 {
        lemma_merged_action_agrees(a, b, n - 1);
    }
}

impl<T: Data, W: Widget<T>> Flex<T, W> {
    /// Whether this container is what dispatching `event` to every child of
    /// `before`, in order, may make of it: child `i` finds the parent's
    /// context as `ctxs[i]` and the data as `datas[i]`, leaves them as
    /// `ctxs[i + 1]` and `datas[i + 1]`, and hands back `actions[i]`.
    pub open spec fn dispatched_to_all(
        &self,
        before: &Self,
        event: Event,
        ctxs: Seq<EventCtx>,
        datas: Seq<T>,
        actions: Seq<Option<Action>>,
    ) -> bool {
        &&& self.children@.len() == before.children@.len()
        &&& ctxs.len() == before.children@.len() + 1
        &&& datas.len() == before.children@.len() + 1
        &&& actions.len() == before.children@.len()
        &&& forall|i: int|
            #![trigger actions[i]]
            0 <= i < before.children@.len() ==> self.children@[i].pod.dispatched(
                &before.children@[i].pod,
                event,
                ctxs[i],
                ctxs[i + 1],
                datas[i],
                datas[i + 1],
                actions[i],
            )
    }
}

impl<T: Data, W: Widget<T>> Widget<T> for Flex<T, W> {
    open spec fn inv(&self) -> bool {
        self.wf()
    }

    /// Paints the children in order, each in a frame moved to its place:
    /// what each child adds to the list is what its pod records, starting
    /// from what the child before it left.
    fn paint(&mut self, paint_ctx: &mut PaintCtx, base_state: &BaseState, data: &T, env: &Env)
        ensures
            final(self).relaid_from(old(self)),
            final(self).sizes() == old(self).sizes(),
            old(self).children@.len() == 0 ==> final(paint_ctx)@ == old(paint_ctx)@,
            final(paint_ctx)@.len() >= old(paint_ctx)@.len() + 3 * old(self).children@.len(),
            old(self).children@.len() > 0 ==> {
                &&& (old(paint_ctx)@ + seq![
                    DrawCommandView::Save,
                    DrawCommandView::Translate {
                        by: old(self).children@[0].pod.state.layout_rect.origin,
                    },
                ]).is_prefix_of(final(paint_ctx)@)
                &&& final(paint_ctx)@.last() == DrawCommandView::Restore
            },
            exists|views: Seq<Seq<DrawCommandView>>|
                {
                    &&& #[trigger] views.len() == old(self).children@.len() + 1
                    &&& views[0] == old(paint_ctx)@
                    &&& views[old(self).children@.len() as int] == final(paint_ctx)@
                    &&& forall|i: int|
                        #![trigger step_of(i, old(self).children@.len() as int)]
                        step_of(i, old(self).children@.len() as int) ==> exists|pod: &mut WidgetPod<T, W>, inner_ctx: &mut PaintCtx|
                        *pod == old(self).children@[i].pod && *final(pod)
                            == final(self).children@[i].pod && (*inner_ctx)@ == views[i] && (
                        *final(inner_ctx))@ == views[i + 1] && #[trigger] call_ensures(
                            WidgetPod::<T, W>::paint_with_offset,
                            (pod, inner_ctx, data, env),
                            (),
                        )
                },
    {
        let ghost mut views: Seq<Seq<DrawCommandView>> = seq![paint_ctx@];
        let mut i: usize = 0;
        while i < self.children.len()
            invariant
                i <= self.children@.len(),
                self.wf(),
                self.direction == old(self).direction,
                self.children@.len() == old(self).children@.len(),
                forall|j: int|
                    #![trigger self.children@[j]]
                    0 <= j < self.children@.len() ==> {
                        &&& self.children@[j].weight == old(self).children@[j].weight
                        &&& self.children@[j].pod.state == old(self).children@[j].pod.state
                    },
                views.len() == i + 1,
                views[0] == old(paint_ctx)@,
                views[i as int] == paint_ctx@,
                forall|j: int|
                    #![trigger self.children@[j]]
                    i <= j < self.children@.len() ==> self.children@[j] == old(self).children@[j],
                forall|j: int|
                    #![trigger step_of(j, i as int)]
                    step_of(j, i as int) ==> exists|pod: &mut WidgetPod<T, W>, inner_ctx: &mut PaintCtx|
                        *pod == old(self).children@[j].pod && *final(pod)
                            == self.children@[j].pod && (*inner_ctx)@ == views[j] && (
                        *final(inner_ctx))@ == views[j + 1] && #[trigger] call_ensures(
                            WidgetPod::<T, W>::paint_with_offset,
                            (pod, inner_ctx, data, env),
                            (),
                        ),
                old(paint_ctx)@.is_prefix_of(paint_ctx@),
                old(self).children@.len() == 0 ==> paint_ctx@ == old(paint_ctx)@,
                paint_ctx@.len() >= old(paint_ctx)@.len() + 3 * i,
                i == 0 ==> paint_ctx@ == old(paint_ctx)@,
                i > 0 ==> {
                    &&& (old(paint_ctx)@ + seq![
                        DrawCommandView::Save,
                        DrawCommandView::Translate {
                            by: old(self).children@[0].pod.state.layout_rect.origin,
                        },
                    ]).is_prefix_of(paint_ctx@)
                    &&& paint_ctx@.last() == DrawCommandView::Restore
                },
            decreases self.children@.len() - i,
        {
            let ghost before = paint_ctx@;
            let ghost started = *self;
            let ghost views_before = views;
            self.children[i].pod.paint_with_offset(paint_ctx, data, env);
            proof {
                views = views.push(paint_ctx@);
                assert forall|j: int|
                    #![trigger step_of(j, i + 1)]
                    step_of(j, i + 1) implies exists|pod: &mut WidgetPod<T, W>, inner_ctx: &mut PaintCtx|
                        *pod == old(self).children@[j].pod && *final(pod)
                            == self.children@[j].pod && (*inner_ctx)@ == views[j] && (
                        *final(inner_ctx))@ == views[j + 1] && #[trigger] call_ensures(
                            WidgetPod::<T, W>::paint_with_offset,
                            (pod, inner_ctx, data, env),
                            (),
                        ) by {
                    if j < i {
                        assert(step_of(j, i as int));
                        assert(views[j] == views_before[j]);
                        assert(views[j + 1] == views_before[j + 1]);
                        assert(self.children@[j] == started.children@[j]);
                    } else {
                        assert(j == i as int);
                        assert(views[j] == before);
                        assert(views[j + 1] == paint_ctx@);
                        assert(started.children@[i as int] == old(self).children@[i as int]);
                        assert(self.children@[j] == self.children@[i as int]);
                    }
                }
                let opened = before + seq![
                    DrawCommandView::Save,
                    DrawCommandView::Translate {
                        by: old(self).children@[i as int].pod.state.layout_rect.origin,
                    },
                ];
                assert(before.is_prefix_of(opened));
                let first = old(paint_ctx)@ + seq![
                    DrawCommandView::Save,
                    DrawCommandView::Translate {
                        by: old(self).children@[0].pod.state.layout_rect.origin,
                    },
                ];
                if i > 0 {
                    assert(first.is_prefix_of(before));
                    assert(before.is_prefix_of(paint_ctx@));
                    assert(first.is_prefix_of(paint_ctx@));
                } else {
                    assert(first == opened);
                }
            }
            i += 1;
        }
        assert(self.sizes() =~= old(self).sizes());
        assert(views.len() == old(self).children@.len() + 1);
    }

    /// Lays out the children and sizes the container around them.
    ///
    /// Each child of weight zero is offered any length along the axis. What
    /// those children leave of the container's greatest length is shared out
    /// among the others, each of which is offered its part and nothing else.
    /// Across the axis every child is offered the container's own range. The
    /// children then stand one behind the other, and the container is as long
    /// as all of them and as wide as the widest, clipped to `bc`. Each
    /// child's size is what the child's own `layout` returns for what it is
    /// offered.
    #[verifier::rlimit(40)]
    fn layout(&mut self, bc: &BoxConstraints, data: &T, env: &Env) -> (size: Size)
        ensures
            final(self).relaid_from(old(self)),
            final(self).shares_given(
                flex_space_spec(
                    final(self).direction.major_spec(bc.max),
                    final(self).fixed_demand(),
                ),
            ),
            final(self).minors_within(*bc),
            final(self).packed(),
            forall|i: int|
                #![trigger step_of(i, old(self).children@.len() as int)]
                step_of(i, old(self).children@.len() as int) ==> exists|widget: &mut W|
                        *widget == old(self).children@[i].pod.inner && *final(widget)
                            == final(self).children@[i].pod.inner && #[trigger] call_ensures(
                            <W as Widget<T>>::layout,
                            (widget, &final(self).offered(*bc, i), data, env),
                            final(self).children@[i].pod.state.layout_rect.size,
                        ),
            size == bc.constrain_spec(
                final(self).direction.pack_spec(
                    clip_len(prefix_sum(final(self).majors(), final(self).children@.len() as int)),
                    clip_len(
                        prefix_max(
                            final(self).minors(),
                            final(self).children@.len() as int,
                            final(self).direction.minor_spec(bc.min) as int,
                        ),
                    ),
                ),
            ),
    {
        let axis = self.direction;
        let (fixed, weight_sum) = self.layout_fixed(bc, data, env);
        let space = flex_space(axis.major(bc.max()), fixed);
        let ghost fixed_done = *self;
        self.layout_weighted(bc, space, weight_sum, data, env);
        let ghost sized = *self;
        let (major, minor) = self.place_children(axis.minor(bc.min()));
        proof {
            let n = self.children@.len() as int;
            assert(self.sizes() == sized.sizes());
            assert forall|i: int| 0 <= i < n implies #[trigger] self.children@[i].pod.state.layout_rect.size
                == sized.children@[i].pod.state.layout_rect.size by {
                assert(self.sizes()[i] == sized.sizes()[i]);
            }
            assert(self.fixed_majors() =~= sized.fixed_majors());
            assert(self.weights() =~= sized.weights());
            assert(self.majors() =~= sized.majors());
            assert forall|i: int|
                #![trigger step_of(i, old(self).children@.len() as int)]
                step_of(i, old(self).children@.len() as int) implies exists|widget: &mut W|
                        *widget == old(self).children@[i].pod.inner && *final(widget)
                            == self.children@[i].pod.inner && #[trigger] call_ensures(
                            <W as Widget<T>>::layout,
                            (widget, &self.offered(*bc, i), data, env),
                            self.children@[i].pod.state.layout_rect.size,
                        ) by {
                assert(step_of(i, fixed_done.children@.len() as int));
                assert(self.children@[i].pod.inner == sized.children@[i].pod.inner);
                assert(self.children@[i].pod.state.layout_rect.size
                    == sized.children@[i].pod.state.layout_rect.size);
                assert(self.children@[i].weight == old(self).children@[i].weight);
                if old(self).children@[i].weight == 0 {
                    assert(exists|widget: &mut W|
                        *widget == old(self).children@[i].pod.inner && *final(widget)
                            == fixed_done.children@[i].pod.inner && #[trigger] call_ensures(
                            <W as Widget<T>>::layout,
                            (widget, &fixed_constraints(old(self).direction, *bc), data, env),
                            fixed_done.children@[i].pod.state.layout_rect.size,
                        ));
                    assert(sized.children@[i] == fixed_done.children@[i]);
                    assert(self.offered(*bc, i) == fixed_constraints(old(self).direction, *bc));
                    assert(exists|widget: &mut W|
                        *widget == old(self).children@[i].pod.inner && *final(widget)
                            == self.children@[i].pod.inner && #[trigger] call_ensures(
                            <W as Widget<T>>::layout,
                            (widget, &fixed_constraints(old(self).direction, *bc), data, env),
                            self.children@[i].pod.state.layout_rect.size,
                        ));
                } else {
                    assert(fixed_done.children@[i] == old(self).children@[i]);
                    assert(exists|widget: &mut W|
                        *widget == fixed_done.children@[i].pod.inner && *final(widget)
                            == sized.children@[i].pod.inner && #[trigger] call_ensures(
                            <W as Widget<T>>::layout,
                            (widget, &share_constraints(
                            fixed_done.direction,
                            *bc,
                            flex_share_spec(space, fixed_done.children@[i].weight, weight_sum as int),
                        ), data, env),
                            sized.children@[i].pod.state.layout_rect.size,
                        ));
                    assert(self.offered(*bc, i) == share_constraints(
                            fixed_done.direction,
                            *bc,
                            flex_share_spec(space, fixed_done.children@[i].weight, weight_sum as int),
                        ));
                    assert(exists|widget: &mut W|
                        *widget == old(self).children@[i].pod.inner && *final(widget)
                            == self.children@[i].pod.inner && #[trigger] call_ensures(
                            <W as Widget<T>>::layout,
                            (widget, &share_constraints(
                            fixed_done.direction,
                            *bc,
                            flex_share_spec(space, fixed_done.children@[i].weight, weight_sum as int),
                        ), data, env),
                            self.children@[i].pod.state.layout_rect.size,
                        ));
                }
            }
        }
        let along = if major > u32::MAX as u128 {
            u32::MAX
        } else {
            major as u32
        };
        bc.constrain(axis.pack(along, minor))
    }

    /// Hands the event to every child in order and joins their actions: the
    /// first child that gives one wins. Each child finds the context and the
    /// data as the child before it left them, and what comes of it for each
    /// child is what the child's pod makes of the event. No child is moved.
    fn event(&mut self, event: &Event, ctx: &mut EventCtx, data: &mut T, env: &Env) -> (action:
        Option<Action>)
        ensures
            final(self).direction == old(self).direction,
            final(self).weights() == old(self).weights(),
            final(self).children@.len() == old(self).children@.len(),
            forall|i: int|
                #![trigger final(self).children@[i]]
                0 <= i < final(self).children@.len()
                    ==> final(self).children@[i].pod.state.layout_rect == old(self).children@[i].pod.state.layout_rect,
            old(self).children@.len() == 0 ==> action is None && *final(ctx) == *old(ctx)
                && *final(data) == *old(data),
            old(ctx).is_handled ==> action is None && *final(ctx) == *old(ctx) && *final(data)
                == *old(data),
            exists|ctxs: Seq<EventCtx>, datas: Seq<T>, actions: Seq<Option<Action>>|
                #![trigger final(self).dispatched_to_all(old(self), *event, ctxs, datas, actions)]
                {
                    &&& final(self).dispatched_to_all(old(self), *event, ctxs, datas, actions)
                    &&& forall|i: int|
                        #![trigger step_of(i, old(self).children@.len() as int)]
                        step_of(i, old(self).children@.len() as int) ==> exists|pod: &mut WidgetPod<T, W>, inner_ctx: &mut EventCtx, inner_data: &mut T|
                            *pod == old(self).children@[i].pod && *final(pod)
                                == final(self).children@[i].pod && *inner_ctx == ctxs[i]
                                && *final(inner_ctx) == ctxs[i + 1] && *inner_data == datas[i]
                                && *final(inner_data) == datas[i + 1]
                                && #[trigger] call_ensures(
                                WidgetPod::<T, W>::event,
                                (pod, event, inner_ctx, inner_data, env),
                                actions[i],
                            )
                    &&& ctxs[0] == *old(ctx)
                    &&& ctxs.last() == *final(ctx)
                    &&& datas[0] == *old(data)
                    &&& datas.last() == *final(data)
                    &&& action == merged_action(actions, actions.len() as int)
                },
    {
        let mut action: Option<Action> = None;
        let ghost mut ctxs: Seq<EventCtx> = seq![*ctx];
        let ghost mut datas: Seq<T> = seq![*data];
        let ghost mut actions: Seq<Option<Action>> = Seq::empty();
        let mut i: usize = 0;
        while i < self.children.len()
            invariant
                i <= self.children@.len(),
                self.wf(),
                self.direction == old(self).direction,
                self.children@.len() == old(self).children@.len(),
                forall|j: int|
                    #![trigger self.children@[j]]
                    0 <= j < self.children@.len() ==> {
                        &&& self.children@[j].weight == old(self).children@[j].weight
                        &&& self.children@[j].pod.state.layout_rect == old(self).children@[j].pod.state.layout_rect
                    },
                ctx.follows(*old(ctx)),
                old(self).children@.len() == 0 ==> action is None && *ctx == *old(ctx) && *data
                    == *old(data),
                old(ctx).is_handled ==> action is None && *ctx == *old(ctx) && *data == *old(data),
                ctxs.len() == i + 1,
                datas.len() == i + 1,
                actions.len() == i,
                ctxs[0] == *old(ctx),
                ctxs[i as int] == *ctx,
                datas[0] == *old(data),
                datas[i as int] == *data,
                action == merged_action(actions, i as int),
                forall|j: int|
                    #![trigger actions[j]]
                    0 <= j < i ==> self.children@[j].pod.dispatched(
                        &old(self).children@[j].pod,
                        *event,
                        ctxs[j],
                        ctxs[j + 1],
                        datas[j],
                        datas[j + 1],
                        actions[j],
                    ),
                forall|j: int|
                    #![trigger self.children@[j]]
                    i <= j < self.children@.len() ==> self.children@[j] == old(self).children@[j],
                forall|j: int|
                    #![trigger step_of(j, i as int)]
                    step_of(j, i as int) ==> exists|pod: &mut WidgetPod<T, W>, inner_ctx: &mut EventCtx, inner_data: &mut T|
                            *pod == old(self).children@[j].pod && *final(pod)
                                == self.children@[j].pod && *inner_ctx == ctxs[j]
                                && *final(inner_ctx) == ctxs[j + 1] && *inner_data == datas[j]
                                && *final(inner_data) == datas[j + 1]
                                && #[trigger] call_ensures(
                                WidgetPod::<T, W>::event,
                                (pod, event, inner_ctx, inner_data, env),
                                actions[j],
                            ),
            decreases self.children@.len() - i,
        {
            let ghost started = *self;
            let ghost ctxs_before = ctxs;
            let ghost datas_before = datas;
            let ghost actions_before = actions;
            let from_child = self.children[i].pod.event(event, ctx, data, env);
            proof {
                ctxs = ctxs.push(*ctx);
                datas = datas.push(*data);
                actions = actions.push(from_child);
                lemma_merged_action_agrees(actions_before, actions, i as int);
                assert forall|j: int|
                    #![trigger step_of(j, i + 1)]
                    step_of(j, i + 1) implies exists|pod: &mut WidgetPod<T, W>, inner_ctx: &mut EventCtx, inner_data: &mut T|
                            *pod == old(self).children@[j].pod && *final(pod)
                                == self.children@[j].pod && *inner_ctx == ctxs[j]
                                && *final(inner_ctx) == ctxs[j + 1] && *inner_data == datas[j]
                                && *final(inner_data) == datas[j + 1]
                                && #[trigger] call_ensures(
                                WidgetPod::<T, W>::event,
                                (pod, event, inner_ctx, inner_data, env),
                                actions[j],
                            ) by {
                    if j < i {
                        assert(step_of(j, i as int));
                        assert(ctxs[j] == ctxs_before[j]);
                        assert(ctxs[j + 1] == ctxs_before[j + 1]);
                        assert(datas[j] == datas_before[j]);
                        assert(datas[j + 1] == datas_before[j + 1]);
                        assert(actions[j] == actions_before[j]);
                        assert(self.children@[j] == started.children@[j]);
                    } else {
                        assert(ctxs[j] == ctxs_before[i as int]);
                        assert(ctxs[j + 1] == *ctx);
                        assert(datas[j] == datas_before[i as int]);
                        assert(datas[j + 1] == *data);
                        assert(actions[j] == from_child);
                        assert(started.children@[j] == old(self).children@[j]);
                    }
                }
            }
            action = Action::merge(action, from_child);
            i += 1;
        }
        assert(self.weights() =~= old(self).weights());
        assert(final(self).dispatched_to_all(old(self), *event, ctxs, datas, actions));
        action
    }

    /// Tells every child, in order, that the data changed: what comes of it
    /// for each child is what the child's own `update` makes of the two
    /// values, each child finding the context as the child before it left
    /// it. A child is passed over only where the data is the same as before.
    /// No child is moved.
    fn update(&mut self, ctx: &mut UpdateCtx, old_data: Option<&T>, data: &T, env: &Env)
        ensures
            final(self).relaid_from(old(self)),
            final(self).sizes() == old(self).sizes(),
            T::obeys_same_spec() && old_data is Some && old_data->0.same_spec(data)
                ==> final(self).children@ == old(self).children@,
            exists|ctxs: Seq<UpdateCtx>|
                {
                    &&& #[trigger] chain_of(
                        ctxs,
                        *old(ctx),
                        *final(ctx),
                        old(self).children@.len() as int,
                    )
                    &&& forall|i: int|
                        #![trigger step_of(i, old(self).children@.len() as int)]
                        step_of(i, old(self).children@.len() as int) ==> {
                            ||| {
                                &&& old_data is Some && old_data->0.same_spec(data)
                                &&& final(self).children@[i].pod.inner == old(self).children@[i].pod.inner
                                &&& link(ctxs, i).1 == link(ctxs, i).0
                            }
                            ||| exists|widget: &mut W, inner_ctx: &mut UpdateCtx|
                                *widget == old(self).children@[i].pod.inner && *final(widget)
                                    == final(self).children@[i].pod.inner && *inner_ctx == link(ctxs, i).0
                                    && *final(inner_ctx) == link(ctxs, i).1
                                    && #[trigger] call_ensures(
                                    <W as Widget<T>>::update,
                                    (widget, inner_ctx, old_data, data, env),
                                    (),
                                )
                        }
                },
    {
        let ghost mut ctxs: Seq<UpdateCtx> = seq![*ctx];
        let mut i: usize = 0;
        while i < self.children.len()
            invariant
                i <= self.children@.len(),
                self.wf(),
                self.direction == old(self).direction,
                self.children@.len() == old(self).children@.len(),
                forall|j: int|
                    #![trigger self.children@[j]]
                    0 <= j < self.children@.len() ==> {
                        &&& self.children@[j].weight == old(self).children@[j].weight
                        &&& self.children@[j].pod.state == old(self).children@[j].pod.state
                    },
                old(ctx).needs_inval ==> ctx.needs_inval,
                T::obeys_same_spec() && old_data is Some && old_data->0.same_spec(data) ==> {
                    &&& *ctx == *old(ctx)
                    &&& self.children@ =~= old(self).children@
                },
                chain_of(ctxs, *old(ctx), *ctx, i as int),
                forall|j: int|
                    #![trigger self.children@[j]]
                    i <= j < self.children@.len() ==> self.children@[j] == old(self).children@[j],
                forall|j: int|
                    #![trigger step_of(j, i as int)]
                    step_of(j, i as int) ==> {
                            ||| {
                                &&& old_data is Some && old_data->0.same_spec(data)
                                &&& self.children@[j].pod.inner == old(self).children@[j].pod.inner
                                &&& link(ctxs, j).1 == link(ctxs, j).0
                            }
                            ||| exists|widget: &mut W, inner_ctx: &mut UpdateCtx|
                                *widget == old(self).children@[j].pod.inner && *final(widget)
                                    == self.children@[j].pod.inner && *inner_ctx == link(ctxs, j).0
                                    && *final(inner_ctx) == link(ctxs, j).1
                                    && #[trigger] call_ensures(
                                    <W as Widget<T>>::update,
                                    (widget, inner_ctx, old_data, data, env),
                                    (),
                                )
                        },
            decreases self.children@.len() - i,
        {
            let ghost started = *self;
            let ghost ctxs_before = ctxs;
            self.children[i].pod.update(ctx, old_data, data, env);
            proof {
                ctxs = ctxs.push(*ctx);
                assert forall|j: int|
                    #![trigger step_of(j, i + 1)]
                    step_of(j, i + 1) implies {
                            ||| {
                                &&& old_data is Some && old_data->0.same_spec(data)
                                &&& self.children@[j].pod.inner == old(self).children@[j].pod.inner
                                &&& link(ctxs, j).1 == link(ctxs, j).0
                            }
                            ||| exists|widget: &mut W, inner_ctx: &mut UpdateCtx|
                                *widget == old(self).children@[j].pod.inner && *final(widget)
                                    == self.children@[j].pod.inner && *inner_ctx == link(ctxs, j).0
                                    && *final(inner_ctx) == link(ctxs, j).1
                                    && #[trigger] call_ensures(
                                    <W as Widget<T>>::update,
                                    (widget, inner_ctx, old_data, data, env),
                                    (),
                                )
                        } by {
                    if j < i {
                        assert(step_of(j, i as int));
                        assert(link(ctxs, j) == link(ctxs_before, j));
                        assert(self.children@[j] == started.children@[j]);
                    } else {
                        assert(link(ctxs, j) == (ctxs_before[i as int], *ctx));
                        assert(started.children@[j] == old(self).children@[j]);
                    }
                }
            }
            i += 1;
        }
        assert(self.sizes() =~= old(self).sizes());
        assert(chain_of(ctxs, *old(ctx), *ctx, old(self).children@.len() as int));
    }
}

} // verus!
