use vstd::prelude::*;
use crate::vec3::Vec3;

verus! {

/// A half line: the points `a + t * b`.
#[derive(Clone, Copy, Debug)]
pub struct Ray {
    pub a: Vec3,
    pub b: Vec3,
}

impl Ray {
    pub fn new(ia: Vec3, ib: Vec3) -> (r: Ray)
        ensures
            r.a == ia,
            r.b == ib,
    {
        Ray { a: ia, b: ib }
    }

    pub fn origin(&self) -> (v: Vec3)
        ensures
            v == self.a,
    {
        self.a
    }

    /// The direction, which need not have unit length.
    pub fn direction(&self) -> (v: Vec3)
        ensures
            v == self.b,
    {
        self.b
    }
}

} // verus!
