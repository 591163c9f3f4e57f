//! Value types and change detection.
//!
//! Every piece of application state handed to the widget tree is a value type:
//! cheap to clone and cheap to compare. The comparison, [`Data::same`], is what
//! the rest of the crate uses to decide whether a subtree has to be refreshed.

use std::sync::Arc;
use vstd::prelude::*;

verus! {

/// A value type with a cheap sameness test.
///
/// `same_spec` is the mathematical relation behind [`Data::same`]. It must be
/// reflexive. It may be coarser than equality (a collection may compare by
/// length alone), and the executable test may be finer than the relation where
/// it looks at something the value does not show (the identity of a shared
/// allocation): a type says which through `obeys_same_spec`.
pub trait Data: Clone {
    /// Whether `same` computes exactly `same_spec`. Where it does not, `same`
    /// may still answer `false` on two values that `same_spec` relates.
    spec fn obeys_same_spec() -> bool;

    /// The relation that `same` decides.
    spec fn same_spec(&self, other: &Self) -> bool;

    /// Every value is the same as itself.
    proof fn lemma_same_reflexive(&self)
        ensures
            self.same_spec(self),
    ;

    /// Determine whether two values are the same.
    ///
    /// An answer of `true` always means that `same_spec` holds; for a type that
    /// obeys its specification the answer is `same_spec` itself.
    fn same(&self, other: &Self) -> (r: bool)
        ensures
            r ==> self.same_spec(other),
            Self::obeys_same_spec() ==> r == self.same_spec(other),
    ;
}

impl Data for i8 {
    open spec fn obeys_same_spec() -> bool {
        true
    }

    open spec fn same_spec(&self, other: &Self) -> bool {
        *self == *other
    }

    proof fn lemma_same_reflexive(&self) {
    }

    fn same(&self, other: &Self) -> (r: bool) {
        *self == *other
    }
}

impl Data for i16 {
    open spec fn obeys_same_spec() -> bool {
        true
    }

    open spec fn same_spec(&self, other: &Self) -> bool {
        *self == *other
    }

    proof fn lemma_same_reflexive(&self) {
    }

    fn same(&self, other: &Self) -> (r: bool) {
        *self == *other
    }
}

impl Data for i32 {
    open spec fn obeys_same_spec() -> bool {
        true
    }

    open spec fn same_spec(&self, other: &Self) -> bool {
        *self == *other
    }

    proof fn lemma_same_reflexive(&self) {
    }

    fn same(&self, other: &Self) -> (r: bool) {
        *self == *other
    }
}

impl Data for i64 {
    open spec fn obeys_same_spec() -> bool {
        true
    }

    open spec fn same_spec(&self, other: &Self) -> bool {
        *self == *other
    }

    proof fn lemma_same_reflexive(&self) {
    }

    fn same(&self, other: &Self) -> (r: bool) {
        *self == *other
    }
}

impl Data for isize {
    open spec fn obeys_same_spec() -> bool {
        true
    }

    open spec fn same_spec(&self, other: &Self) -> bool {
        *self == *other
    }

    proof fn lemma_same_reflexive(&self) {
    }

    fn same(&self, other: &Self) -> (r: bool) {
        *self == *other
    }
}

impl Data for u8 {
    open spec fn obeys_same_spec() -> bool {
        true
    }

    open spec fn same_spec(&self, other: &Self) -> bool {
        *self == *other
    }

    proof fn lemma_same_reflexive(&self) {
    }

    fn same(&self, other: &Self) -> (r: bool) {
        *self == *other
    }
}

impl Data for u16 {
    open spec fn obeys_same_spec() -> bool {
        true
    }

    open spec fn same_spec(&self, other: &Self) -> bool {
        *self == *other
    }

    proof fn lemma_same_reflexive(&self) {
    }

    fn same(&self, other: &Self) -> (r: bool) {
        *self == *other
    }
}

impl Data for u32 {
    open spec fn obeys_same_spec() -> bool {
        true
    }

    open spec fn same_spec(&self, other: &Self) -> bool {
        *self == *other
    }

    proof fn lemma_same_reflexive(&self) {
    }

    fn same(&self, other: &Self) -> (r: bool) {
        *self == *other
    }
}

impl Data for u64 {
    open spec fn obeys_same_spec() -> bool {
        true
    }

    open spec fn same_spec(&self, other: &Self) -> bool {
        *self == *other
    }

    proof fn lemma_same_reflexive(&self) {
    }

    fn same(&self, other: &Self) -> (r: bool) {
        *self == *other
    }
}

impl Data for usize {
    open spec fn obeys_same_spec() -> bool {
        true
    }

    open spec fn same_spec(&self, other: &Self) -> bool {
        *self == *other
    }

    proof fn lemma_same_reflexive(&self) {
    }

    fn same(&self, other: &Self) -> (r: bool) {
        *self == *other
    }
}

impl Data for char {
    open spec fn obeys_same_spec() -> bool {
        true
    }

    open spec fn same_spec(&self, other: &Self) -> bool {
        *self == *other
    }

    proof fn lemma_same_reflexive(&self) {
    }

    fn same(&self, other: &Self) -> (r: bool) {
        *self == *other
    }
}

impl Data for bool {
    open spec fn obeys_same_spec() -> bool {
        true
    }

    open spec fn same_spec(&self, other: &Self) -> bool {
        *self == *other
    }

    proof fn lemma_same_reflexive(&self) {
    }

    fn same(&self, other: &Self) -> (r: bool) {
        *self == *other
    }
}

impl Data for String {
    open spec fn obeys_same_spec() -> bool {
        true
    }

    open spec fn same_spec(&self, other: &Self) -> bool {
        self@ == other@
    }

    proof fn lemma_same_reflexive(&self) {
    }

    fn same(&self, other: &Self) -> (r: bool) {
        *self == *other
    }
}

/// `Arc::ptr_eq` of std: whether two handles point to one allocation. When it
/// answers `true` both handles show the same value; when it answers `false`
/// nothing is claimed, since two separate allocations may hold equal values.
#[verifier::external_body]
fn arc_ptr_eq<T>(a: &Arc<T>, b: &Arc<T>) -> (r: bool)
    ensures
        r ==> *a == *b,
{
    Arc::ptr_eq(a, b)
}

/// Shared values are compared by identity, never by content: two handles are
/// the same when they point to one allocation. The relation behind it is
/// equality of the shared values, which identity implies but does not decide.
impl<T> Data for Arc<T> {
    open spec fn obeys_same_spec() -> bool {
        false
    }

    open spec fn same_spec(&self, other: &Self) -> bool {
        *self == *other
    }

    proof fn lemma_same_reflexive(&self) {
    }

    fn same(&self, other: &Self) -> (r: bool) {
        arc_ptr_eq(self, other)
    }
}

/// Collections are compared by length alone.
///
/// This is a deliberately shallow policy: replacing an element without changing
/// the length is not detected, so `same_spec` relates every two vectors of equal
/// length whatever they hold.
impl<T: Data> Data for Vec<T> {
    open spec fn obeys_same_spec() -> bool {
        true
    }

    open spec fn same_spec(&self, other: &Self) -> bool {
        self@.len() == other@.len()
    }

    proof fn lemma_same_reflexive(&self) {
    }

    fn same(&self, other: &Self) -> (r: bool) {
        self.len() == other.len()
    }
}

} // verus!
