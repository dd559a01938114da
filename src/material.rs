use vstd::prelude::*;

verus! {

/// A diffuse surface: every hit scatters, tinted by `attenuation`.
pub struct Lambertian<C> {
    pub attenuation: C,
}

/// A reflective surface with colour `albedo` whose reflections are perturbed
/// by up to `fuzz`.
pub struct Metal<C, S> {
    pub albedo: C,
    pub fuzz: S,
}

/// A transparent surface with index of refraction `ir`, tinted gray by `darken`.
pub struct Dielectric<S> {
    pub ir: S,
    pub darken: S,
}

/// The closed set of materials, over a colour type `C` and a scalar type `S`.
pub enum MaterialObject<C, S> {
    Lambertian(Lambertian<C>),
    Metal(Metal<C, S>),
    Dielectric(Dielectric<S>),
}

/// How a material answers an incoming ray.
#[derive(PartialEq, Eq, Structural, Clone, Copy, Debug)]
pub enum Scatter {
    /// The ray is absorbed: no light continues.
    Absorbed,
    /// The ray leaves along the normal plus a random unit vector.
    Diffuse,
    /// The ray leaves mirrored about the normal.
    Reflect,
    /// The ray passes through the surface, bent by Snell's law.
    Refract,
}

/// The scatter rule of each material. `leaves_surface` tells whether a metal's
/// perturbed reflection points away from the surface; `must_reflect` tells
/// whether a dielectric reflects, because it cannot refract or because the
/// reflectance draw chose reflection.
pub open spec fn scatter_rule<C, S>(
    m: MaterialObject<C, S>,
    leaves_surface: bool,
    must_reflect: bool,
) -> Scatter {
    match m {
        MaterialObject::Lambertian(_) => Scatter::Diffuse,
        MaterialObject::Metal(_) => if leaves_surface {
            Scatter::Reflect
        } else {
            Scatter::Absorbed
        },
        MaterialObject::Dielectric(_) => if must_reflect {
            Scatter::Reflect
        } else {
            Scatter::Refract
        },
    }
}

impl<C, S> MaterialObject<C, S> {
    /// A diffuse material of colour `attenuation`.
    pub fn lambertian(attenuation: C) -> (m: Self)
        ensures
            m == MaterialObject::<C, S>::Lambertian(Lambertian { attenuation }),
    {
        MaterialObject::Lambertian(Lambertian { attenuation })
    }

    /// A metal of colour `albedo` and roughness `fuzz`.
    pub fn metal(albedo: C, fuzz: S) -> (m: Self)
        ensures
            m == MaterialObject::<C, S>::Metal(Metal { albedo, fuzz }),
    {
        MaterialObject::Metal(Metal { albedo, fuzz })
    }

    /// A dielectric of index of refraction `ir` and gray tint `darken`.
    pub fn dielectric(ir: S, darken: S) -> (m: Self)
        ensures
            m == MaterialObject::<C, S>::Dielectric(Dielectric { ir, darken }),
    {
        MaterialObject::Dielectric(Dielectric { ir, darken })
    }

    /// Decides how this material answers a hit.
    pub fn scatter_kind(&self, leaves_surface: bool, must_reflect: bool) -> (r: Scatter)
        ensures
            r == scatter_rule(*self, leaves_surface, must_reflect),
    {
        match self {
            MaterialObject::Lambertian(_) => Scatter::Diffuse,
            MaterialObject::Metal(_) => {
                if leaves_surface {
                    Scatter::Reflect
                } else {
                    Scatter::Absorbed
                }
            },
            MaterialObject::Dielectric(_) => {
                if must_reflect {
                    Scatter::Reflect
                } else {
                    Scatter::Refract
                }
            },
        }
    }
}

/// A diffuse material scatters every ray it is hit by, whatever the ray, the
/// hit and the random draws.
pub proof fn lemma_lambertian_never_absorbs<C, S>(
    attenuation: C,
    leaves_surface: bool,
    must_reflect: bool,
)
    ensures
        scatter_rule(
            MaterialObject::<C, S>::Lambertian(Lambertian { attenuation }),
            leaves_surface,
            must_reflect,
        ) != Scatter::Absorbed,
{
}

/// A dielectric never absorbs: it either reflects or refracts.
pub proof fn lemma_dielectric_never_absorbs<C, S>(
    d: Dielectric<S>,
    leaves_surface: bool,
    must_reflect: bool,
)
    ensures
        scatter_rule(MaterialObject::<C, S>::Dielectric(d), leaves_surface, must_reflect)
            != Scatter::Absorbed,
{
}

/// A metal absorbs exactly the rays whose reflection would re-enter the surface.
pub proof fn lemma_metal_absorbs_inward<C, S>(m: Metal<C, S>, leaves_surface: bool, must_reflect: bool)
    ensures
        (scatter_rule(MaterialObject::<C, S>::Metal(m), leaves_surface, must_reflect)
            == Scatter::Absorbed) <==> !leaves_surface,
{
}

} // verus!
