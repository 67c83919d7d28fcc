use vstd::prelude::*;
use crate::scalar::Scalar;
use crate::hitable::{nearest, scan, within, Roots, Struck};

verus! {

/// The depth beyond which a path is given up.
pub const MAX_DEPTH: i32 = 50;

/// The lower bound of every query, the number nearest to 0.001: a scattered
/// ray must not strike the surface that it has just left.
pub const NEAREST_BITS: u32 = 0x3a83_126f;

/// The upper bound of every query: positive infinity.
pub const FARTHEST_BITS: u32 = 0x7f80_0000;

/// What became of a ray that was sent into the scene.
#[derive(Clone, Copy, Debug, PartialEq, Eq, Structural)]
pub enum Event {
    /// The ray struck nothing.
    Miss,
    /// The ray struck a surface that absorbed it.
    Absorbed,
    /// The ray struck a surface that sent it on.
    Scattered,
}

/// What the integrator does next.
#[derive(Clone, Copy, Debug, PartialEq, Eq, Structural)]
pub enum Verdict {
    /// The path carries no light: its colour is black.
    Black,
    /// The path left the scene: its colour is that of the sky along the ray.
    Sky,
    /// The path goes on with the scattered ray, one level deeper.
    Continue,
}

/// What a path has come to: the verdict on it and the number of surfaces
/// that scattered it, each of which contributes its attenuation as a factor.
/// The verdict `Continue` says that the events ran out before the path ended.
#[derive(Clone, Copy, Debug, PartialEq, Eq, Structural)]
pub struct Outcome {
    pub verdict: Verdict,
    pub bounces: usize,
}

/// A path is given up, without asking the scene, once it is deeper than
/// `MAX_DEPTH`.
pub open spec fn spent(depth: int) -> bool {
    depth > MAX_DEPTH
}

/// The verdict on a ray at the given depth.
pub open spec fn verdict_at(depth: int, event: Event) -> Verdict {
    if spent(depth) {
        Verdict::Black
    } else {
        match event {
            Event::Miss => Verdict::Sky,
            Event::Absorbed => Verdict::Black,
            Event::Scattered => Verdict::Continue,
        }
    }
}

/// The verdict on a whole path that starts at the given depth and meets the
/// given events in turn, with the number of times it was scattered.
pub open spec fn run(depth: int, events: Seq<Event>) -> (Verdict, nat)
    decreases events.len(),
{
    if spent(depth) {
        (Verdict::Black, 0)
    } else if events.len() == 0 {
        (Verdict::Continue, 0)
    } else {
        match verdict_at(depth, events[0]) {
            Verdict::Continue => {
                let rest = run(depth + 1, events.skip(1));
                (rest.0, rest.1 + 1)
            },
            end => (end, 0),
        }
    }
}

/// Asks the scene for the nearest strike of a ray, between the guard against
/// striking the surface just left and infinity.
pub fn query(candidates: &Vec<Roots>) -> (r: Option<Struck>)
    ensures
        match r {
            Some(s) => scan(candidates@, Scalar::of(NEAREST_BITS), Scalar::of(FARTHEST_BITS)) == Some(
                (s.index as int, s.t),
            ),
            None => scan(candidates@, Scalar::of(NEAREST_BITS), Scalar::of(FARTHEST_BITS)) is None,
        },
        r matches Some(s) ==> s.index < candidates@.len() && within(
            s.t,
            Scalar::of(NEAREST_BITS),
            Scalar::of(FARTHEST_BITS),
        ),
{
    nearest(candidates, Scalar::from_bits(NEAREST_BITS), Scalar::from_bits(FARTHEST_BITS))
}

/// The place of a path in the recursion.
#[derive(Clone, Copy, Debug)]
pub struct Path {
    pub depth: i32,
}

impl Path {
    /// A path that starts at the given depth; a camera ray starts at 0.
    pub fn start(depth: i32) -> (p: Path)
        ensures
            p.depth == depth,
    {
        Path { depth }
    }

    pub fn depth(&self) -> (d: i32)
        ensures
            d == self.depth,
    {
        self.depth
    }

    /// Whether the path is given up: then its colour is black and the scene
    /// is not asked.
    pub fn is_spent(&self) -> (r: bool)
        ensures
            r == spent(self.depth as int),
    {
        self.depth > MAX_DEPTH
    }

    /// Takes what became of the ray and says what to do next. The path
    /// descends by one level exactly when the verdict is `Continue`.
    pub fn advance(&mut self, event: Event) -> (v: Verdict)
        ensures
            v == verdict_at(old(self).depth as int, event),
            v == Verdict::Continue ==> final(self).depth == old(self).depth + 1,
            v != Verdict::Continue ==> final(self).depth == old(self).depth,
            old(self).depth <= MAX_DEPTH + 1 ==> final(self).depth <= MAX_DEPTH + 1,
    {
        if self.depth > MAX_DEPTH {
            return Verdict::Black;
        }
        match event {
            Event::Miss => Verdict::Sky,
            Event::Absorbed => Verdict::Black,
            Event::Scattered => {
                self.depth = self.depth + 1;
                Verdict::Continue
            },
        }
    }
}

/// Follows a path from the given depth through the events that it meets, in
/// a loop that carries the depth and the number of attenuations. Whatever
/// the events, the path is not scattered more often than there are levels
/// left down to the first one beyond `MAX_DEPTH`.
pub fn trace(depth: i32, events: &Vec<Event>) -> (o: Outcome)
    ensures
        o.verdict == run(depth as int, events@).0,
        o.bounces == run(depth as int, events@).1,
        o.bounces <= events@.len(),
        depth <= MAX_DEPTH + 1 ==> depth + o.bounces <= MAX_DEPTH + 1,
        depth > MAX_DEPTH ==> o.verdict == Verdict::Black && o.bounces == 0,
{
    proof {
        lemma_depth_is_capped(depth as int, events@);
    }
    let mut path = Path::start(depth);
    let mut bounces: usize = 0;
    let mut i: usize = 0;
    proof {
        assert(events@.skip(0) =~= events@);
    }
    while i < events.len() && !path.is_spent()
        invariant
            i <= events.len(),
            bounces <= i,
            depth <= MAX_DEPTH + 1 ==> depth + run(depth as int, events@).1 <= MAX_DEPTH + 1,
            depth > MAX_DEPTH ==> run(depth as int, events@) == (Verdict::Black, 0nat),
            run(depth as int, events@).0 == run(path.depth as int, events@.skip(i as int)).0,
            run(depth as int, events@).1 == run(path.depth as int, events@.skip(i as int)).1 + bounces,
        decreases events.len() - i,
    {
        proof {
            assert(events@.skip(i as int).skip(1) =~= events@.skip(i + 1));
            assert(events@.skip(i as int)[0] == events@[i as int]);
        }
        match path.advance(events[i]) {
            Verdict::Continue => {
                bounces = bounces + 1;
            },
            end => {
                return Outcome { verdict: end, bounces };
            },
        }
        i += 1;
    }
    if path.is_spent() {
        Outcome { verdict: Verdict::Black, bounces }
    } else {
        Outcome { verdict: Verdict::Continue, bounces }
    }
}

/// The recursion is capped: a path is scattered at most as often as there
/// are levels from its start down to the first level beyond `MAX_DEPTH`,
/// whatever the scene does. A path that starts at depth 0 is scattered at
/// most 51 times and never goes deeper than 51.
pub proof fn lemma_depth_is_capped(depth: int, events: Seq<Event>)
    ensures
        depth <= MAX_DEPTH + 1 ==> depth + run(depth, events).1 <= MAX_DEPTH + 1,
        depth > MAX_DEPTH ==> run(depth, events) == (Verdict::Black, 0nat),
        run(depth, events).1 <= events.len(),
    decreases events.len(),
{
    if !spent(depth) && events.len() > 0 {
        lemma_depth_is_capped(depth + 1, events.skip(1));
    }
}

/// A scene that never absorbs and never lets go still ends every path: where
/// every event is a scattering and there are enough of them to reach the cap,
/// the verdict is black after exactly the levels that were left.
pub proof fn lemma_endless_scattering_ends_black(depth: int, events: Seq<Event>)
    requires
        depth <= MAX_DEPTH + 1,
        events.len() >= MAX_DEPTH + 1 - depth,
        forall|i: int| 0 <= i < events.len() ==> events[i] == Event::Scattered,
    ensures
        run(depth, events) == (Verdict::Black, (MAX_DEPTH + 1 - depth) as nat),
    decreases events.len(),
{
    if !spent(depth) {
        assert(events.len() > 0);
        assert(events[0] == Event::Scattered);
        assert forall|i: int| 0 <= i < events.skip(1).len() implies events.skip(1)[i] == Event::Scattered by {
            assert(events.skip(1)[i] == events[i + 1]);
        }
        lemma_endless_scattering_ends_black(depth + 1, events.skip(1));
    }
}

} // verus!
