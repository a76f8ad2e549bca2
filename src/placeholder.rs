//! Placeholder values and the take-and-replace mutation protocol.

use vstd::prelude::*;

verus! {

/// A type with a cheap "empty" value that stands in a location while the
/// location's real value is moved out and rebuilt.
pub trait MapWithMut: Sized {
    /// Whether `v` is this type's placeholder.
    spec fn is_placeholder(v: Self) -> bool;

    /// Builds the placeholder value.
    fn dummy() -> (r: Self)
        ensures
            Self::is_placeholder(r),
    ;

    /// Moves the current value out and leaves the placeholder behind.
    fn take(&mut self) -> (r: Self)
        ensures
            r == *old(self),
            Self::is_placeholder(*final(self)),
    {
        let mut slot = Self::dummy();
        core::mem::swap(self, &mut slot);
        slot
    }

    /// Replaces the current value by `op` applied to it. While `op` runs the
    /// location holds the placeholder; `op` must accept the value it is given.
    fn map_with_mut<F>(&mut self, op: F)
        where
            F: FnOnce(Self) -> Self,
        requires
            op.requires((*old(self),)),
        ensures
            op.ensures((*old(self),), *final(self)),
    {
        let v = self.take();
        let v = op(v);
        let mut slot = v;
        core::mem::swap(self, &mut slot);
    }
}

/// A type whose placeholder is a single value: any two placeholders are
/// equal.
pub trait UniquePlaceholder: MapWithMut {
    /// Two placeholders of the type are the same value.
    proof fn lemma_placeholder_unique(a: Self, b: Self)
        requires
            Self::is_placeholder(a),
            Self::is_placeholder(b),
        ensures
            a == b,
    ;
}

impl<T> MapWithMut for Option<T> {
    /// The placeholder of an optional value is `None`.
    open spec fn is_placeholder(v: Self) -> bool {
        v is None
    }

    fn dummy() -> (r: Self) {
        None
    }
}

impl<T> UniquePlaceholder for Option<T> {
    proof fn lemma_placeholder_unique(a: Self, b: Self) {
    }
}

impl<T> MapWithMut for Vec<T> {
    /// The placeholder of a sequence is an empty one.
    open spec fn is_placeholder(v: Self) -> bool {
        v@.len() == 0
    }

    fn dummy() -> (r: Self) {
        Vec::new()
    }
}

impl<T: MapWithMut> MapWithMut for Box<T> {
    /// The placeholder of a box is a box around the inner placeholder.
    open spec fn is_placeholder(v: Self) -> bool {
        T::is_placeholder(*v)
    }

    fn dummy() -> (r: Self) {
        Box::new(T::dummy())
    }
}

impl<T: UniquePlaceholder> UniquePlaceholder for Box<T> {
    proof fn lemma_placeholder_unique(a: Self, b: Self) {
        T::lemma_placeholder_unique(*a, *b);
    }
}

/// Building the placeholder twice gives two equal values; so does taking
/// twice from one location, since each take leaves the placeholder behind.
/// `first` and `second` are two values that `dummy` returned or `take` left.
pub proof fn lemma_dummy_twice<T: UniquePlaceholder>(first: T, second: T)
    requires
        T::is_placeholder(first),
        T::is_placeholder(second),
    ensures
        first == second,
{
    T::lemma_placeholder_unique(first, second);
}

/// Two placeholders of a sequence type hold the same elements: none.
pub proof fn lemma_vec_placeholders_equal<T>(a: Vec<T>, b: Vec<T>)
    requires
        <Vec<T> as MapWithMut>::is_placeholder(a),
        <Vec<T> as MapWithMut>::is_placeholder(b),
    ensures
        a@ == b@,
{
    assert(a@ =~= b@);
}

/// Mapping a location with a transform that returns its argument leaves the
/// location's value as it was: `before` and `after` are the values around a
/// call of `map_with_mut` with `op`.
pub proof fn lemma_map_with_identity<T: MapWithMut, F: FnOnce(T) -> T>(before: T, after: T, op: F)
    requires
        forall|x: T, y: T| op.ensures((x,), y) ==> y == x,
        op.ensures((before,), after),
    ensures
        after == before,
{
}

} // verus!
