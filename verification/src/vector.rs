use core::ops::Add;
use vstd::prelude::*;
use vstd::std_specs::ops::AddSpec;

verus! {

/// A point or an offset in the plane, over any scalar type.
#[derive(Debug)]
pub struct Vector<T> {
    pub x: T,
    pub y: T,
}

impl<T: Copy> Vector<T> {
    /// The vector whose components are `x` and `y`.
    pub open spec fn of(x: T, y: T) -> Self {
        Vector { x, y }
    }

    /// A vector with the given components.
    pub fn new(x: T, y: T) -> (v: Self)
        ensures
            v == Self::of(x, y),
    {
        Vector { x, y }
    }

    /// What `set` makes of `self`: nothing of `self` is kept.
    pub open spec fn replaced(self, x: T, y: T) -> Self {
        Self::of(x, y)
    }

    /// Overwrites both components, whatever they were, and hands the vector
    /// back for a further call.
    pub fn set(&mut self, x: T, y: T) -> (r: &Self)
        ensures
            *final(self) == old(self).replaced(x, y),
            *r == *final(self),
    {
        self.x = x;
        self.y = y;
        self
    }
}

impl<T: Copy + Add<Output = T>> Vector<T> {
    /// Whether `T` admits both additions of `plus`.
    pub open spec fn can_add(self, other: Self) -> bool {
        self.x.add_req(other.x) && self.y.add_req(other.y)
    }

    /// The componentwise sum, `self` on the left.
    pub open spec fn plus(self, other: Self) -> Self {
        Vector { x: self.x.add_spec(other.x), y: self.y.add_spec(other.y) }
    }

    /// Moves `self` by `other` and hands the vector back for a further call.
    pub fn add(&mut self, other: &Vector<T>) -> (r: &Self)
        requires
            old(self).can_add(*other),
        ensures
            T::obeys_add_spec() ==> *final(self) == old(self).plus(*other),
            *r == *final(self),
    {
        self.x = self.x + other.x;
        self.y = self.y + other.y;
        self
    }
}

/// Setting a vector leaves no trace of what it held: two vectors set to the
/// same components are equal, whatever they were before.
pub proof fn lemma_set_forgets<T: Copy>(a: Vector<T>, b: Vector<T>, x: T, y: T)
    ensures
        a.replaced(x, y) == b.replaced(x, y),
        a.replaced(x, y).x == x,
        a.replaced(x, y).y == y,
{
}

/// Setting a vector twice to the same components is the same as setting it
/// once.
pub proof fn lemma_set_idempotent<T: Copy>(a: Vector<T>, x: T, y: T)
    ensures
        a.replaced(x, y).replaced(x, y) == a.replaced(x, y),
{
}

/// Moving a vector by `a` and then by `b` is moving it once by `a.plus(b)`,
/// wherever the scalar's addition is associative on the components involved.
/// It need not be: a rounding scalar can lose in two small steps what it keeps
/// in one large step.
pub proof fn lemma_add_twice<T: Copy + Add<Output = T>>(v: Vector<T>, a: Vector<T>, b: Vector<T>)
    requires
        v.x.add_spec(a.x).add_spec(b.x) == v.x.add_spec(a.x.add_spec(b.x)),
        v.y.add_spec(a.y).add_spec(b.y) == v.y.add_spec(a.y.add_spec(b.y)),
    ensures
        v.plus(a).plus(b) == v.plus(a.plus(b)),
{
}

} // verus!
