use vstd::prelude::*;
use crate::scalar::Scalar;
use crate::vec3::Vec3;
use crate::ray::Ray;

verus! {

/// Where a ray met a surface: the ray's parameter there, the point, the
/// surface normal (as the primitive orients it, not turned towards the ray)
/// and the material of what was struck.
#[derive(Clone, Copy)]
pub struct Hit<'a> {
    pub t: Scalar,
    pub p: Vec3,
    pub n: Vec3,
    pub m: &'a Material,
}

impl<'a> Hit<'a> {
    pub fn new(nt: Scalar, np: Vec3, nn: Vec3, mm: &'a Material) -> (h: Hit<'a>)
        ensures
            h.t == nt,
            h.p == np,
            h.n == nn,
            h.m == mm,
    {
        Hit { t: nt, p: np, n: nn, m: mm }
    }
}

/// A path that goes on: the next ray and the colour that multiplies whatever
/// light comes back along it.
#[derive(Clone, Copy, Debug)]
pub struct Scattered {
    pub scattered: Ray,
    pub attenuation: Vec3,
}

/// A diffuse surface.
#[derive(Clone, Copy, Debug)]
pub struct Lambertian {
    pub albedo: Vec3,
}

/// A mirror, the rougher the larger its fuzz.
#[derive(Clone, Copy, Debug)]
pub struct Metal {
    pub albedo: Vec3,
    pub fuzz: Scalar,
}

/// A clear medium such as glass, with its index of refraction.
#[derive(Clone, Copy, Debug)]
pub struct Dielectric {
    pub ior: Scalar,
}

/// What a primitive is made of.
#[derive(Clone, Copy, Debug)]
pub enum Material {
    Lambertian(Lambertian),
    Metal(Metal),
    Dielectric(Dielectric),
}

/// On which side of a surface a ray travels.
#[derive(Clone, Copy, Debug, PartialEq, Eq, Structural)]
pub enum Facing {
    /// The ray runs against the normal: it enters the medium.
    Entering,
    /// The ray runs along the normal: it leaves the medium.
    Exiting,
}

/// A refracted direction with what decides whether it is taken: the
/// reflectance of the surface at this angle and a sample drawn uniformly from
/// the numbers from zero up to one.
#[derive(Clone, Copy, Debug)]
pub struct Refracted {
    pub direction: Vec3,
    pub reflectance: Scalar,
    pub sample: Scalar,
}

/// A number from zero to one, both included.
pub open spec fn unit_range(s: Scalar) -> bool {
    Scalar::of(0).at_most(s) && s.at_most(Scalar::of(0x3f80_0000))
}

/// Whether a number lies between zero and one, both included.
pub fn in_unit_range(s: Scalar) -> (r: bool)
    ensures
        r == unit_range(s),
{
    s.ge(Scalar::zero()) && s.le(Scalar::one())
}

/// A colour each of whose channels reflects a share from nothing to all.
pub open spec fn albedo(v: Vec3) -> bool {
    unit_range(v.e0) && unit_range(v.e1) && unit_range(v.e2)
}

/// Whether each channel of a colour lies between zero and one.
pub fn is_albedo(v: Vec3) -> (r: bool)
    ensures
        r == albedo(v),
{
    in_unit_range(v.e0) && in_unit_range(v.e1) && in_unit_range(v.e2)
}

impl Material {
    /// The material is physically meaningful: an albedo in every channel, a
    /// fuzz from zero to one, an index of refraction above zero.
    pub open spec fn valid(self) -> bool {
        match self {
            Material::Lambertian(l) => albedo(l.albedo),
            Material::Metal(m) => albedo(m.albedo) && unit_range(m.fuzz),
            Material::Dielectric(d) => Scalar::of(0).below(d.ior),
        }
    }

    /// Whether the material is physically meaningful.
    pub fn is_valid(&self) -> (r: bool)
        ensures
            r == self.valid(),
    {
        match self {
            Material::Lambertian(l) => is_albedo(l.albedo),
            Material::Metal(m) => is_albedo(m.albedo) && in_unit_range(m.fuzz),
            Material::Dielectric(d) => d.ior.gt(Scalar::zero()),
        }
    }
}

/// The colour that takes nothing away: one in every channel.
pub open spec fn white() -> Vec3 {
    Vec3 { e0: Scalar::of(0x3f80_0000), e1: Scalar::of(0x3f80_0000), e2: Scalar::of(0x3f80_0000) }
}

/// The path that goes on from the point `p` along `direction`, tinted by
/// `attenuation`.
pub open spec fn sent_on(p: Vec3, direction: Vec3, attenuation: Vec3) -> Scattered {
    Scattered { scattered: Ray { a: p, b: direction }, attenuation }
}

impl Lambertian {
    pub fn new(a: Vec3) -> (l: Lambertian)
        ensures
            l.albedo == a,
    {
        Lambertian { albedo: a }
    }

    /// A diffuse surface scatters every ray: from the point struck, along the
    /// given direction, tinted by the albedo.
    pub fn scatter(&self, rec: &Hit, direction: Vec3) -> (s: Option<Scattered>)
        ensures
            s == Some(sent_on(rec.p, direction, self.albedo)),
    {
        Some(Scattered { scattered: Ray::new(rec.p, direction), attenuation: self.albedo })
    }
}

impl Metal {
    pub fn new(a: Vec3, f: Scalar) -> (m: Metal)
        ensures
            m.albedo == a,
            m.fuzz == f,
    {
        Metal { albedo: a, fuzz: f }
    }

    /// What a mirror does with a ray whose fuzzed reflection is `direction`,
    /// given `alignment`, the dot product of that direction and the normal.
    pub open spec fn scattered(self, p: Vec3, direction: Vec3, alignment: Scalar) -> Option<Scattered> {
        if Scalar::of(0).below(alignment) {
            Some(sent_on(p, direction, self.albedo))
        } else {
            None
        }
    }

    /// A mirror scatters a ray only when the fuzzed reflection points away from
    /// the surface, that is when `alignment` is positive; a ray sent below the
    /// surface is absorbed.
    pub fn scatter(&self, rec: &Hit, direction: Vec3, alignment: Scalar) -> (s: Option<Scattered>)
        ensures
            s == self.scattered(rec.p, direction, alignment),
            s is Some <==> Scalar::of(0).below(alignment),
    {
        if alignment.gt(Scalar::zero()) {
            Some(Scattered { scattered: Ray::new(rec.p, direction), attenuation: self.albedo })
        } else {
            None
        }
    }
}

impl Dielectric {
    pub fn new(i: Scalar) -> (d: Dielectric)
        ensures
            d.ior == i,
    {
        Dielectric { ior: i }
    }

    /// The side on which a ray travels, given `alignment`, the dot product of
    /// its direction and the normal: leaving when positive, entering otherwise.
    pub open spec fn side(alignment: Scalar) -> Facing {
        if Scalar::of(0).below(alignment) {
            Facing::Exiting
        } else {
            Facing::Entering
        }
    }

    /// Decides on which side of the surface the ray travels.
    pub fn facing(alignment: Scalar) -> (f: Facing)
        ensures
            f == Self::side(alignment),
    {
        if alignment.gt(Scalar::zero()) {
            Facing::Exiting
        } else {
            Facing::Entering
        }
    }

    /// The normal that points against the ray: the surface normal for a ray
    /// that enters, its opposite for one that leaves.
    pub fn outward_normal(normal: Vec3, facing: Facing) -> (n: Vec3)
        ensures
            facing == Facing::Entering ==> n == normal,
            facing == Facing::Exiting ==> n == normal.opposite(),
    {
        match facing {
            Facing::Entering => normal,
            Facing::Exiting => normal.neg(),
        }
    }

    /// The direction in which glass sends a ray on: the refracted one when
    /// there is one and the sample is not below the reflectance, the
    /// reflected one otherwise.
    pub open spec fn chosen(reflected: Vec3, refracted: Option<Refracted>) -> Vec3 {
        match refracted {
            Some(r) => if r.reflectance.at_most(r.sample) {
                r.direction
            } else {
                reflected
            },
            None => reflected,
        }
    }

    /// Glass absorbs nothing and scatters every ray. Where refraction has a
    /// solution, the ray is refracted when the sample is at least the
    /// reflectance and reflected otherwise; where it has none the reflection is
    /// total.
    pub fn scatter(&self, rec: &Hit, reflected: Vec3, refracted: Option<Refracted>) -> (s: Option<Scattered>)
        ensures
            s == Some(sent_on(rec.p, Self::chosen(reflected, refracted), white())),
    {
        let attn = Vec3::new(Scalar::one(), Scalar::one(), Scalar::one());
        match refracted {
            Some(r) => {
                if r.sample.ge(r.reflectance) {
                    Some(Scattered { scattered: Ray::new(rec.p, r.direction), attenuation: attn })
                } else {
                    Some(Scattered { scattered: Ray::new(rec.p, reflected), attenuation: attn })
                }
            },
            None => Some(Scattered { scattered: Ray::new(rec.p, reflected), attenuation: attn }),
        }
    }
}

} // verus!
