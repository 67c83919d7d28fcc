use vstd::prelude::*;
use crate::scalar::Scalar;

verus! {

/// The kind of material that a generated sphere gets.
#[derive(Clone, Copy, Debug, PartialEq, Eq, Structural)]
pub enum Kind {
    Diffuse,
    Metallic,
    Glass,
}

/// The shares of the three kinds, as two thresholds on a sample drawn
/// uniformly from the numbers from zero up to one.
#[derive(Clone, Copy, Debug)]
pub struct Mix {
    pub diffuse_below: Scalar,
    pub metallic_below: Scalar,
}

impl Mix {
    /// The kind that a sample selects: diffuse below the first threshold,
    /// metallic below the second, glass otherwise.
    pub open spec fn kind(self, sample: Scalar) -> Kind {
        if sample.below(self.diffuse_below) {
            Kind::Diffuse
        } else if sample.below(self.metallic_below) {
            Kind::Metallic
        } else {
            Kind::Glass
        }
    }

    /// Four spheres in five diffuse, three in twenty metallic, the rest
    /// glass: the thresholds are the numbers nearest to 0.8 and 0.95.
    pub fn standard() -> (m: Mix)
        ensures
            m.diffuse_below == Scalar::of(0x3f4c_cccd),
            m.metallic_below == Scalar::of(0x3f73_3333),
    {
        Mix {
            diffuse_below: Scalar::from_bits(0x3f4c_cccd),
            metallic_below: Scalar::from_bits(0x3f73_3333),
        }
    }

    /// Selects the kind of material for a sample.
    pub fn select(&self, sample: Scalar) -> (k: Kind)
        ensures
            k == self.kind(sample),
    {
        if sample.lt(self.diffuse_below) {
            Kind::Diffuse
        } else if sample.lt(self.metallic_below) {
            Kind::Metallic
        } else {
            Kind::Glass
        }
    }

    /// What a cell of the grid gets: nothing where the sphere would stand
    /// within the clearance of the sphere to be kept free, that is unless
    /// its distance from that sphere's centre exceeds the clearance; else a
    /// sphere of the kind that the sample selects.
    pub open spec fn planned(self, sample: Scalar, distance: Scalar, clearance: Scalar) -> Option<Kind> {
        if clearance.below(distance) {
            Some(self.kind(sample))
        } else {
            None
        }
    }

    /// Decides what to place in a cell.
    pub fn plan(&self, sample: Scalar, distance: Scalar, clearance: Scalar) -> (k: Option<Kind>)
        ensures
            k == self.planned(sample, distance, clearance),
    {
        if distance.gt(clearance) {
            Some(self.select(sample))
        } else {
            None
        }
    }
}

/// The place, in a grid that is filled row by row and has `side` cells in a
/// row, of the cell in row `a` and column `b`, both counted from 0.
pub open spec fn place(side: int, a: int, b: int) -> int {
    a * side + b
}

/// The cells of the square grid that reaches `half` cells from the origin in
/// each direction, in the order in which they are filled: `(a, b)` for `a`
/// from `-half` up to `half`, and for each `a` the same range of `b`.
pub fn grid(half: u8) -> (cells: Vec<(i32, i32)>)
    ensures
        cells@.len() == (2 * half) * (2 * half),
        forall|a: int, b: int|
            0 <= a < 2 * half && 0 <= b < 2 * half ==> {
                &&& 0 <= #[trigger] place(2 * half, a, b) < cells@.len()
                &&& cells@[place(2 * half, a, b)].0 == a - half
                &&& cells@[place(2 * half, a, b)].1 == b - half
            },
{
    let n: i32 = 2 * (half as i32);
    let h: i32 = half as i32;
    let mut cells: Vec<(i32, i32)> = Vec::new();
    let mut a: i32 = 0;
    while a < n
        invariant
            n == 2 * half,
            h == half,
            0 <= a <= n,
            cells@.len() == place(n as int, a as int, 0),
            forall|a0: int, b0: int|
                0 <= a0 < a && 0 <= b0 < n ==> {
                    &&& 0 <= #[trigger] place(n as int, a0, b0) < cells@.len()
                    &&& cells@[place(n as int, a0, b0)].0 == a0 - half
                    &&& cells@[place(n as int, a0, b0)].1 == b0 - half
                },
        decreases n - a,
    {
        let mut b: i32 = 0;
        while b < n
            invariant
                n == 2 * half,
                h == half,
                0 <= a < n,
                0 <= b <= n,
                cells@.len() == place(n as int, a as int, b as int),
                forall|a0: int, b0: int|
                    0 <= a0 < a && 0 <= b0 < n ==> {
                        &&& 0 <= #[trigger] place(n as int, a0, b0) < cells@.len()
                        &&& cells@[place(n as int, a0, b0)].0 == a0 - half
                        &&& cells@[place(n as int, a0, b0)].1 == b0 - half
                    },
                forall|b0: int|
                    0 <= b0 < b ==> {
                        &&& 0 <= #[trigger] place(n as int, a as int, b0) < cells@.len()
                        &&& cells@[place(n as int, a as int, b0)].0 == a - half
                        &&& cells@[place(n as int, a as int, b0)].1 == b0 - half
                    },
            decreases n - b,
        {
            cells.push((a - h, b - h));
            proof {
                assert(0 <= a * n) by (nonlinear_arith)
                    requires
                        0 <= a,
                        0 <= n,
                ;
            }
            b += 1;
        }
        proof {
            assert(place(n as int, a as int, n as int) == place(n as int, a + 1, 0)) by (nonlinear_arith);
        }
        a += 1;
    }
    cells
}

} // verus!
