use vstd::prelude::*;
use crate::scalar::Scalar;

verus! {

/// Three numbers: a point, a direction or a linear colour.
#[derive(Clone, Copy, Debug)]
pub struct Vec3 {
    pub e0: Scalar,
    pub e1: Scalar,
    pub e2: Scalar,
}

impl Vec3 {
    /// The component at index `i`, for `i` below 3.
    pub open spec fn component(self, i: int) -> Scalar {
        if i == 0 {
            self.e0
        } else if i == 1 {
            self.e1
        } else {
            self.e2
        }
    }

    /// The opposite vector: each component with its sign flipped.
    pub open spec fn opposite(self) -> Vec3 {
        Vec3 { e0: self.e0.opposite(), e1: self.e1.opposite(), e2: self.e2.opposite() }
    }

    /// The vector whose components are all positive zero.
    pub fn zero() -> (v: Vec3)
        ensures
            v.e0 == Scalar::of(0),
            v.e1 == Scalar::of(0),
            v.e2 == Scalar::of(0),
    {
        Vec3 { e0: Scalar::zero(), e1: Scalar::zero(), e2: Scalar::zero() }
    }

    pub fn new(e0: Scalar, e1: Scalar, e2: Scalar) -> (v: Vec3)
        ensures
            v.e0 == e0,
            v.e1 == e1,
            v.e2 == e2,
    {
        Vec3 { e0, e1, e2 }
    }

    pub fn x(&self) -> (r: Scalar)
        ensures
            r == self.e0,
    {
        self.e0
    }

    pub fn y(&self) -> (r: Scalar)
        ensures
            r == self.e1,
    {
        self.e1
    }

    pub fn z(&self) -> (r: Scalar)
        ensures
            r == self.e2,
    {
        self.e2
    }

    pub fn r(&self) -> (r: Scalar)
        ensures
            r == self.e0,
    {
        self.e0
    }

    pub fn g(&self) -> (r: Scalar)
        ensures
            r == self.e1,
    {
        self.e1
    }

    pub fn b(&self) -> (r: Scalar)
        ensures
            r == self.e2,
    {
        self.e2
    }

    /// The component at index `i`.
    pub fn index(&self, i: usize) -> (r: Scalar)
        requires
            i < 3,
        ensures
            r == self.component(i as int),
    {
        if i == 0 {
            self.e0
        } else if i == 1 {
            self.e1
        } else {
            self.e2
        }
    }

    /// Replaces the component at index `i` and leaves the other two.
    pub fn set(&mut self, i: usize, value: Scalar)
        requires
            i < 3,
        ensures
            final(self).component(i as int) == value,
            forall|j: int| 0 <= j < 3 && j != i ==> final(self).component(j) == old(self).component(j),
    {
        if i == 0 {
            self.e0 = value;
        } else if i == 1 {
            self.e1 = value;
        } else {
            self.e2 = value;
        }
    }

    /// The opposite vector.
    pub fn neg(self) -> (v: Vec3)
        ensures
            v == self.opposite(),
    {
        Vec3 { e0: self.e0.neg(), e1: self.e1.neg(), e2: self.e2.neg() }
    }
}

/// Whether a candidate of rejection sampling is kept: its squared length is
/// less than one. A candidate on the unit sphere, or beyond it, is drawn again.
pub open spec fn inside_unit_ball(length_squared: Scalar) -> bool {
    length_squared.below(Scalar::of(0x3f80_0000))
}

/// Decides whether a candidate point with the given squared length is kept.
pub fn accepts_sample(length_squared: Scalar) -> (keep: bool)
    ensures
        keep == inside_unit_ball(length_squared),
{
    length_squared.lt(Scalar::one())
}

/// Whether a ray is refracted: the discriminant of Snell's law is positive.
/// Otherwise the reflection is total.
pub open spec fn has_refraction(discriminant: Scalar) -> bool {
    Scalar::of(0).below(discriminant)
}

/// Decides between refraction and total internal reflection.
pub fn refracts(discriminant: Scalar) -> (r: bool)
    ensures
        r == has_refraction(discriminant),
{
    discriminant.gt(Scalar::zero())
}

} // verus!
