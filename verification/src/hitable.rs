use vstd::prelude::*;
use crate::scalar::Scalar;
use crate::vec3::Vec3;
use crate::material::Material;

verus! {

/// The two solutions of the quadratic that a ray and a sphere form, with its
/// discriminant: `near` is the smaller root, `far` the larger.
#[derive(Clone, Copy, Debug)]
pub struct Roots {
    pub discriminant: Scalar,
    pub near: Scalar,
    pub far: Scalar,
}

/// `t` lies strictly between the two bounds.
pub open spec fn within(t: Scalar, t_min: Scalar, t_max: Scalar) -> bool {
    t_min.below(t) && t.below(t_max)
}

impl Roots {
    /// The parameter at which the ray is taken to strike: none unless the
    /// discriminant is positive; else the near root if it lies strictly
    /// between the bounds; else the far root if that one does.
    pub open spec fn accepted(self, t_min: Scalar, t_max: Scalar) -> Option<Scalar> {
        if !Scalar::of(0).below(self.discriminant) {
            None
        } else if within(self.near, t_min, t_max) {
            Some(self.near)
        } else if within(self.far, t_min, t_max) {
            Some(self.far)
        } else {
            None
        }
    }

    pub fn new(discriminant: Scalar, near: Scalar, far: Scalar) -> (r: Roots)
        ensures
            r.discriminant == discriminant,
            r.near == near,
            r.far == far,
    {
        Roots { discriminant, near, far }
    }

    /// Picks the root at which the ray strikes within `(t_min, t_max)`.
    pub fn hit(&self, t_min: Scalar, t_max: Scalar) -> (t: Option<Scalar>)
        ensures
            t == self.accepted(t_min, t_max),
    {
        if self.discriminant.gt(Scalar::zero()) {
            if self.near.lt(t_max) && self.near.gt(t_min) {
                return Some(self.near);
            }
            if self.far.lt(t_max) && self.far.gt(t_min) {
                return Some(self.far);
            }
        }
        None
    }
}

/// A ray aimed at a sphere from outside strikes it where it enters: the near
/// root is the one taken whenever it lies strictly between the bounds.
pub proof fn lemma_near_root_is_taken_first(r: Roots, t_min: Scalar, t_max: Scalar)
    requires
        Scalar::of(0).below(r.discriminant),
        within(r.near, t_min, t_max),
    ensures
        r.accepted(t_min, t_max) == Some(r.near),
{
}

/// A ray that starts inside a sphere strikes it where it leaves: the far
/// root is the one taken when the bounds leave the near root out and hold
/// the far one.
pub proof fn lemma_far_root_is_taken_from_inside(r: Roots, t_min: Scalar, t_max: Scalar)
    requires
        Scalar::of(0).below(r.discriminant),
        !within(r.near, t_min, t_max),
        within(r.far, t_min, t_max),
    ensures
        r.accepted(t_min, t_max) == Some(r.far),
{
}

/// No strike lies on or beyond a bound, and none is taken unless the ray
/// crosses the sphere in two points.
pub proof fn lemma_strike_is_a_root_within_the_bounds(r: Roots, t_min: Scalar, t_max: Scalar)
    ensures
        r.accepted(t_min, t_max) matches Some(t) ==> {
            &&& Scalar::of(0).below(r.discriminant)
            &&& (t == r.near || t == r.far)
            &&& within(t, t_min, t_max)
            &&& !t.nan()
        },
        r.accepted(t_min, t_max) is None <==> {
            ||| !Scalar::of(0).below(r.discriminant)
            ||| (!within(r.near, t_min, t_max) && !within(r.far, t_min, t_max))
        },
{
}

/// A sphere and what it is made of.
#[derive(Clone, Copy, Debug)]
pub struct Sphere {
    pub centre: Vec3,
    pub radius: Scalar,
    pub material: Material,
}

impl Sphere {
    pub fn new(c: Vec3, r: Scalar, m: Material) -> (s: Sphere)
        ensures
            s.centre == c,
            s.radius == r,
            s.material == m,
    {
        Sphere { centre: c, radius: r, material: m }
    }

    /// The sphere is a solid one: its radius is above zero and its material
    /// is physically meaningful.
    pub open spec fn valid(self) -> bool {
        Scalar::of(0).below(self.radius) && self.material.valid()
    }

    /// Whether the sphere is a solid one.
    pub fn is_valid(&self) -> (r: bool)
        ensures
            r == self.valid(),
    {
        self.radius.gt(Scalar::zero()) && self.material.is_valid()
    }
}

/// The nearest strike of a scene: which primitive, by its place in the scene,
/// and the ray's parameter there.
#[derive(Clone, Copy, Debug)]
pub struct Struck {
    pub index: usize,
    pub t: Scalar,
}

/// The upper bound that a scan has reached: the parameter of what it has
/// accepted so far, or the caller's bound while it has accepted nothing.
pub open spec fn closest_so_far(found: Option<(int, Scalar)>, t_max: Scalar) -> Scalar {
    match found {
        Some((_, t)) => t,
        None => t_max,
    }
}

/// The scan of a scene in order: each primitive is asked for a strike between
/// `t_min` and the closest so far, and one that answers becomes the closest.
pub open spec fn scan(candidates: Seq<Roots>, t_min: Scalar, t_max: Scalar) -> Option<(int, Scalar)>
    decreases candidates.len(),
{
    if candidates.len() == 0 {
        None
    } else {
        let before = scan(candidates.drop_last(), t_min, t_max);
        match candidates.last().accepted(t_min, closest_so_far(before, t_max)) {
            Some(t) => Some((candidates.len() - 1, t)),
            None => before,
        }
    }
}

/// Finds the nearest strike among the candidates, one per primitive and in
/// the order of the scene. There is none exactly when no primitive has a
/// strike of its own between the bounds. The strike found lies strictly
/// between the bounds, no primitive's own strike is nearer, and that of every
/// primitive before the one found is strictly farther: of equal strikes the
/// first wins.
pub fn nearest(candidates: &Vec<Roots>, t_min: Scalar, t_max: Scalar) -> (r: Option<Struck>)
    ensures
        match r {
            Some(s) => scan(candidates@, t_min, t_max) == Some((s.index as int, s.t)),
            None => scan(candidates@, t_min, t_max) is None,
        },
        r is None <==> forall|j: int|
            0 <= j < candidates@.len() ==> (#[trigger] candidates@[j]).accepted(t_min, t_max) is None,
        r matches Some(s) ==> {
            &&& s.index < candidates@.len()
            &&& within(s.t, t_min, t_max)
            &&& (s.t == candidates@[s.index as int].near || s.t == candidates@[s.index as int].far)
            &&& forall|j: int|
                0 <= j < candidates@.len() ==> ((#[trigger] candidates@[j]).accepted(t_min, t_max) matches Some(u)
                    ==> s.t.at_most(u) && (j < s.index ==> s.t.below(u)))
        },
{
    let mut found: Option<Struck> = None;
    let mut closest: Scalar = t_max;
    let mut i: usize = 0;
    while i < candidates.len()
        invariant
            i <= candidates.len(),
            match found {
                Some(s) => scan(candidates@.take(i as int), t_min, t_max) == Some((s.index as int, s.t)),
                None => scan(candidates@.take(i as int), t_min, t_max) is None,
            },
            closest == closest_so_far(scan(candidates@.take(i as int), t_min, t_max), t_max),
        decreases candidates.len() - i,
    {
        proof {
            assert(candidates@.take(i + 1).drop_last() =~= candidates@.take(i as int));
            assert(candidates@.take(i + 1).last() == candidates@[i as int]);
        }
        match candidates[i].hit(t_min, closest) {
            Some(t) => {
                closest = t;
                found = Some(Struck { index: i, t });
            },
            None => {},
        }
        i += 1;
    }
    proof {
        assert(candidates@.take(i as int) =~= candidates@);
        lemma_scan_is_nearest(candidates@, t_min, t_max);
    }
    found
}

/// What a root selection under a tighter upper bound says of the selection
/// under a looser one: what the tighter one accepts lies below its bound and
/// is at most what the looser one accepts, and where the tighter one accepts
/// nothing, the looser one accepts nothing below the tighter bound.
proof fn lemma_accepted_under_tighter_bound(r: Roots, t_min: Scalar, bound: Scalar, t_max: Scalar)
    requires
        bound == t_max || bound.below(t_max),
    ensures
        r.accepted(t_min, bound) matches Some(t) ==> {
            &&& within(t, t_min, bound)
            &&& within(t, t_min, t_max)
            &&& (t == r.near || t == r.far)
            &&& r.accepted(t_min, t_max) matches Some(u) && t.at_most(u)
            &&& r.near.at_most(r.far) ==> r.accepted(t_min, t_max) == Some(t)
        },
        r.accepted(t_min, bound) is None ==> (r.accepted(t_min, t_max) matches Some(u) ==> bound.at_most(u)),
{
}

/// The scene's strike is the nearest, and on equal distance the first.
///
/// Where the scan finds nothing, no primitive has a strike between the
/// bounds. Where it finds primitive `i` at `t`: `t` is a root of that
/// primitive and lies strictly between the bounds; no primitive's own strike
/// between the bounds is nearer than `t`; the own strike of every primitive
/// before `i` is strictly farther; and `t` is the own strike of primitive `i`
/// where its roots are in order, as the roots of a quadratic are.
pub proof fn lemma_scan_is_nearest(candidates: Seq<Roots>, t_min: Scalar, t_max: Scalar)
    ensures
        scan(candidates, t_min, t_max) is None <==> forall|j: int|
            0 <= j < candidates.len() ==> (#[trigger] candidates[j]).accepted(t_min, t_max) is None,
        scan(candidates, t_min, t_max) matches Some((i, t)) ==> {
            &&& 0 <= i < candidates.len()
            &&& within(t, t_min, t_max)
            &&& (t == candidates[i].near || t == candidates[i].far)
            &&& candidates[i].accepted(t_min, t_max) is Some
            &&& candidates[i].near.at_most(candidates[i].far) ==> candidates[i].accepted(t_min, t_max) == Some(t)
            &&& forall|j: int|
                0 <= j < candidates.len() ==> ((#[trigger] candidates[j]).accepted(t_min, t_max) matches Some(u)
                    ==> t.at_most(u) && (j < i ==> t.below(u)))
        },
    decreases candidates.len(),
{
    if candidates.len() > 0 {
        let front = candidates.drop_last();
        let last = candidates.last();
        let before = scan(front, t_min, t_max);
        let bound = closest_so_far(before, t_max);
        lemma_scan_is_nearest(front, t_min, t_max);
        lemma_accepted_under_tighter_bound(last, t_min, bound, t_max);
        assert forall|j: int| 0 <= j < front.len() implies front[j] == candidates[j] by {}
        match last.accepted(t_min, bound) {
            Some(t) => {
                assert forall|j: int| 0 <= j < candidates.len() implies ((#[trigger] candidates[j]).accepted(
                    t_min,
                    t_max,
                ) matches Some(u) ==> t.at_most(u) && (j < candidates.len() - 1 ==> t.below(u))) by {
                    if j < front.len() {
                        assert(front[j] == candidates[j]);
                    }
                }
            },
            None => {
                match before {
                    Some((i, t)) => {
                        assert forall|j: int| 0 <= j < candidates.len() implies ((#[trigger] candidates[j]).accepted(
                            t_min,
                            t_max,
                        ) matches Some(u) ==> t.at_most(u) && (j < i ==> t.below(u))) by {
                            if j < front.len() {
                                assert(front[j] == candidates[j]);
                            }
                        }
                        assert(candidates[i] == front[i]);
                    },
                    None => {
                        assert forall|j: int| 0 <= j < candidates.len() implies (#[trigger] candidates[j]).accepted(
                            t_min,
                            t_max,
                        ) is None by {
                            if j < front.len() {
                                assert(front[j] == candidates[j]);
                            }
                        }
                    },
                }
            },
        }
    }
}

/// A scene: its primitives in the order in which they were added.
pub struct HitableList {
    pub list: Vec<Sphere>,
}

impl HitableList {
    pub fn new(l: Vec<Sphere>) -> (h: HitableList)
        ensures
            h.list@ == l@,
    {
        HitableList { list: l }
    }

    /// Adds a primitive behind those that the scene holds.
    pub fn push(&mut self, h: Sphere)
        ensures
            final(self).list@ == old(self).list@.push(h),
    {
        self.list.push(h);
    }

    /// The number of primitives.
    pub fn len(&self) -> (n: usize)
        ensures
            n == self.list@.len(),
    {
        self.list.len()
    }

    /// The primitive at place `i`.
    pub fn get(&self, i: usize) -> (s: &Sphere)
        requires
            i < self.list@.len(),
        ensures
            *s == self.list@[i as int],
    {
        &self.list[i]
    }
}

} // verus!
