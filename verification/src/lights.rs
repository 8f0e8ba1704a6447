//! Light records and the per-fragment evaluators for point, spot and
//! directional lights, plus the ambient environment term.

use vstd::prelude::*;

use crate::fx::{
    clamp_spec, fx_clamp, fx_div, fx_div_spec, fx_mul, fx_mul_spec, lemma_fx_div_unit,
    lemma_fx_mul_bound, lemma_fx_mul_nonneg, lemma_fx_mul_shrinks, tdiv, FX_ONE, VEC_LIM,
};
use crate::material::{unit_scalar, COLOR_LIM};
use crate::surface::POS_LIM;
use crate::vec::{
    dot3, norm_len, normalize3_with_len, normalize_v3_spec, raw_dot, v3_in, Vec3Fx, Vec4Fx,
};

verus! {

/// The light casts shadows.
pub const POINT_LIGHT_FLAGS_SHADOWS_ENABLED_BIT: u32 = 1;

/// The light casts shadows.
pub const DIRECTIONAL_LIGHT_FLAGS_SHADOWS_ENABLED_BIT: u32 = 1;

/// Largest premultiplied radiance channel of one light (ten thousand
/// units).
pub const LIGHT_LIM: i64 = 10_000_000_000;

/// Largest channel of one light's contribution to a fragment.
pub const CONTRIB_LIM: i64 = 400_000_000_000;

/// Largest channel of a Fresnel or lobe color: base color plus the
/// dielectric reflectance term.
pub const F0_LIM: i64 = 16_160_000;

/// A point or spot light, as one record of the frame's light buffer.
#[derive(Clone, Copy, Debug, PartialEq, Eq, Structural)]
pub struct PointLightFx {
    /// World position.
    pub position: Vec3Fx,
    /// Color premultiplied by intensity.
    pub color: Vec3Fx,
    /// Distance beyond which the light contributes nothing.
    pub range: i64,
    /// Unit axis of the spot cone; ignored by the point evaluator.
    pub spot_direction: Vec3Fx,
    /// Cosine of the angle inside which the cone is at full strength.
    pub spot_cos_inner: i64,
    /// Cosine of the angle outside which the cone contributes nothing.
    pub spot_cos_outer: i64,
    pub flags: u32,
}

/// A directional light: parallel rays from a fixed direction.
#[derive(Clone, Copy, Debug, PartialEq, Eq, Structural)]
pub struct DirectionalLightFx {
    /// Unit direction from the surface toward the light.
    pub direction_to_light: Vec3Fx,
    /// Color premultiplied by intensity.
    pub color: Vec3Fx,
    pub flags: u32,
}

/// The frame's directional-light list and ambient color.
pub struct LightsFx {
    pub directional_lights: Vec<DirectionalLightFx>,
    pub ambient_color: Vec4Fx,
    pub n_directional_lights: u32,
}

/// Every channel of a light color is a bounded radiance.
pub open spec fn light_color_wf(c: Vec3Fx) -> bool {
    0 <= c.x <= LIGHT_LIM && 0 <= c.y <= LIGHT_LIM && 0 <= c.z <= LIGHT_LIM
}

/// Well-formed point or spot light record.
pub open spec fn point_light_wf(l: PointLightFx) -> bool {
    v3_in(l.position, POS_LIM as int) && light_color_wf(l.color) && 0 < l.range <= VEC_LIM && v3_in(
        l.spot_direction,
        FX_ONE as int,
    ) && -FX_ONE <= l.spot_cos_outer < l.spot_cos_inner <= FX_ONE
}

/// Well-formed directional light record.
pub open spec fn directional_light_wf(l: DirectionalLightFx) -> bool {
    v3_in(l.direction_to_light, FX_ONE as int) && light_color_wf(l.color)
}

/// Lobe colors handed to an evaluator: non-negative and bounded.
pub open spec fn lobe_color_wf(c: Vec3Fx) -> bool {
    0 <= c.x <= F0_LIM && 0 <= c.y <= F0_LIM && 0 <= c.z <= F0_LIM
}

/// One contribution channel is non-negative and bounded.
pub open spec fn contrib_wf(c: Vec3Fx) -> bool {
    0 <= c.x <= CONTRIB_LIM && 0 <= c.y <= CONTRIB_LIM && 0 <= c.z <= CONTRIB_LIM
}

/// The perceptual-to-physical roughness remapping: clamp away the tail
/// below `0.089`, then square. Monotonic, and never the identity curve.
pub open spec fn roughness_spec(perceptual_roughness: int) -> int {
    let cl = clamp_spec(perceptual_roughness, 89_000, FX_ONE as int);
    fx_mul_spec(cl, cl)
}

/// Remap artist-facing perceptual roughness to the roughness the BRDF
/// lobes use.
pub fn perceptual_roughness_to_roughness(perceptual_roughness: i64) -> (r: i64)
    requires
        unit_scalar(perceptual_roughness as int),
    ensures
        r == roughness_spec(perceptual_roughness as int),
        unit_scalar(r as int),
{
    let cl: i64 = fx_clamp(perceptual_roughness, 89_000, FX_ONE);
    proof {
        lemma_fx_mul_shrinks(cl as int, cl as int);
    }
    fx_mul(cl, cl)
}

/// The roughness remapping is monotonic — a rougher perceptual input never
/// yields a smoother physical roughness — and it is not the identity.
pub proof fn lemma_roughness_monotone_not_identity(pr1: int, pr2: int)
    by (nonlinear_arith)
    requires
        0 <= pr1 <= pr2 <= FX_ONE,
    ensures
        roughness_spec(pr1) <= roughness_spec(pr2),
        roughness_spec(0) != 0,
{
}

/// Linear range falloff: full strength at the light, nothing at the range
/// limit and beyond.
pub open spec fn range_attenuation_spec(dist: int, range: int) -> int
    recommends
        0 < range,
{
    if dist >= range {
        0
    } else {
        fx_div_spec(range - dist, range)
    }
}

/// The unnormalized fragment-to-light offset.
pub open spec fn to_light_spec(frag_pos: Vec3Fx, l: PointLightFx) -> Vec3Fx {
    Vec3Fx {
        x: (l.position.x - frag_pos.x) as i64,
        y: (l.position.y - frag_pos.y) as i64,
        z: (l.position.z - frag_pos.z) as i64,
    }
}

/// One channel of the two shading lobes: Lambert diffuse weighted by
/// `n . l`, plus a glossy term `f0 * (r . l)^2 * (1 - roughness)`.
pub open spec fn lobe_channel_spec(diffuse: int, f0: int, n_dot_l: int, spec_strength: int) -> int {
    fx_mul_spec(diffuse, n_dot_l) + fx_mul_spec(f0, spec_strength)
}

/// The glossy lobe strength for a given reflection alignment.
pub open spec fn spec_strength_spec(r_dot_l: int, roughness: int) -> int {
    fx_mul_spec(fx_mul_spec(r_dot_l, r_dot_l), FX_ONE - roughness)
}

/// The contribution of one point light to one fragment: both lobes scaled
/// by the light's attenuated radiance. A light sitting exactly on the
/// fragment contributes nothing.
pub open spec fn point_light_spec(
    frag_pos: Vec3Fx,
    l: PointLightFx,
    roughness: int,
    n: Vec3Fx,
    r_dir: Vec3Fx,
    f0: Vec3Fx,
    diffuse: Vec3Fx,
) -> Vec3Fx {
    let d = to_light_spec(frag_pos, l);
    if raw_dot(d, d) == 0 {
        Vec3Fx { x: 0, y: 0, z: 0 }
    } else {
        let ldir = normalize_v3_spec(d);
        let n_dot_l = clamp_spec(tdiv(raw_dot(n, ldir), FX_ONE as int), 0, FX_ONE as int);
        let r_dot_l = clamp_spec(tdiv(raw_dot(r_dir, ldir), FX_ONE as int), 0, FX_ONE as int);
        let strength = spec_strength_spec(r_dot_l, roughness);
        let att = range_attenuation_spec(norm_len(d), l.range as int);
        Vec3Fx {
            x: fx_mul_spec(
                lobe_channel_spec(diffuse.x as int, f0.x as int, n_dot_l, strength),
                fx_mul_spec(l.color.x as int, att),
            ) as i64,
            y: fx_mul_spec(
                lobe_channel_spec(diffuse.y as int, f0.y as int, n_dot_l, strength),
                fx_mul_spec(l.color.y as int, att),
            ) as i64,
            z: fx_mul_spec(
                lobe_channel_spec(diffuse.z as int, f0.z as int, n_dot_l, strength),
                fx_mul_spec(l.color.z as int, att),
            ) as i64,
        }
    }
}

/// Shared argument ranges for the evaluators.
pub open spec fn shading_args_wf(
    frag_pos: Vec3Fx,
    roughness: int,
    n: Vec3Fx,
    r_dir: Vec3Fx,
    f0: Vec3Fx,
    diffuse: Vec3Fx,
) -> bool {
    v3_in(frag_pos, POS_LIM as int) && unit_scalar(roughness) && v3_in(n, FX_ONE as int) && v3_in(
        r_dir,
        8 * FX_ONE as int,
    ) && lobe_color_wf(f0) && lobe_color_wf(diffuse)
}

/// Evaluate one point light.
pub fn point_light(
    frag_pos: Vec3Fx,
    l: &PointLightFx,
    roughness: i64,
    n: Vec3Fx,
    r_dir: Vec3Fx,
    f0: Vec3Fx,
    diffuse: Vec3Fx,
) -> (r: Vec3Fx)
    requires
        point_light_wf(*l),
        shading_args_wf(frag_pos, roughness as int, n, r_dir, f0, diffuse),
    ensures
        r == point_light_spec(frag_pos, *l, roughness as int, n, r_dir, f0, diffuse),
        contrib_wf(r),
{
    let d = Vec3Fx {
        x: l.position.x - frag_pos.x,
        y: l.position.y - frag_pos.y,
        z: l.position.z - frag_pos.z,
    };
    let zero_check: bool = d.x == 0 && d.y == 0 && d.z == 0;
    if zero_check {
        proof {
            assert(raw_dot(d, d) == 0);
        }
        return Vec3Fx { x: 0, y: 0, z: 0 };
    }
    proof {
        lemma_nonzero_dot(d);
    }
    let (ldir, dist) = normalize3_with_len(d);
    let n_dot_l: i64 = fx_clamp(dot3(n, ldir), 0, FX_ONE);
    let r_dot_l: i64 = fx_clamp(dot3(r_dir, ldir), 0, FX_ONE);
    proof {
        lemma_fx_mul_shrinks(r_dot_l as int, r_dot_l as int);
        lemma_fx_mul_shrinks(fx_mul_spec(r_dot_l as int, r_dot_l as int), FX_ONE - roughness);
    }
    let strength: i64 = fx_mul(fx_mul(r_dot_l, r_dot_l), FX_ONE - roughness);
    let att: i64 = if dist >= l.range {
        0
    } else {
        proof {
            lemma_fx_div_unit((l.range - dist) as int, l.range as int);
        }
        fx_div(l.range - dist, l.range)
    };
    proof {
        assert(att == range_attenuation_spec(norm_len(to_light_spec(frag_pos, *l)), l.range as int));
    }
    scale_lobes(n_dot_l, strength, att, l.color, f0, diffuse)
}

/// The spot-cone factor: full inside the inner angle, nothing outside the
/// outer angle, a linear ramp between.
pub open spec fn spot_cone_spec(ldir: Vec3Fx, l: PointLightFx) -> int {
    let cos_angle = -tdiv(raw_dot(ldir, l.spot_direction), FX_ONE as int);
    clamp_spec(
        fx_div_spec(cos_angle - l.spot_cos_outer, l.spot_cos_inner - l.spot_cos_outer),
        0,
        FX_ONE as int,
    )
}

/// The contribution of one spot light: the point-light evaluation with the
/// cone factor folded into the attenuation.
pub open spec fn spot_light_spec(
    frag_pos: Vec3Fx,
    l: PointLightFx,
    roughness: int,
    n: Vec3Fx,
    r_dir: Vec3Fx,
    f0: Vec3Fx,
    diffuse: Vec3Fx,
) -> Vec3Fx {
    let d = to_light_spec(frag_pos, l);
    if raw_dot(d, d) == 0 {
        Vec3Fx { x: 0, y: 0, z: 0 }
    } else {
        let ldir = normalize_v3_spec(d);
        let n_dot_l = clamp_spec(tdiv(raw_dot(n, ldir), FX_ONE as int), 0, FX_ONE as int);
        let r_dot_l = clamp_spec(tdiv(raw_dot(r_dir, ldir), FX_ONE as int), 0, FX_ONE as int);
        let strength = spec_strength_spec(r_dot_l, roughness);
        let att = fx_mul_spec(
            range_attenuation_spec(norm_len(d), l.range as int),
            spot_cone_spec(ldir, l),
        );
        Vec3Fx {
            x: fx_mul_spec(
                lobe_channel_spec(diffuse.x as int, f0.x as int, n_dot_l, strength),
                fx_mul_spec(l.color.x as int, att),
            ) as i64,
            y: fx_mul_spec(
                lobe_channel_spec(diffuse.y as int, f0.y as int, n_dot_l, strength),
                fx_mul_spec(l.color.y as int, att),
            ) as i64,
            z: fx_mul_spec(
                lobe_channel_spec(diffuse.z as int, f0.z as int, n_dot_l, strength),
                fx_mul_spec(l.color.z as int, att),
            ) as i64,
        }
    }
}

/// Evaluate one spot light.
pub fn spot_light(
    frag_pos: Vec3Fx,
    l: &PointLightFx,
    roughness: i64,
    n: Vec3Fx,
    r_dir: Vec3Fx,
    f0: Vec3Fx,
    diffuse: Vec3Fx,
) -> (r: Vec3Fx)
    requires
        point_light_wf(*l),
        shading_args_wf(frag_pos, roughness as int, n, r_dir, f0, diffuse),
    ensures
        r == spot_light_spec(frag_pos, *l, roughness as int, n, r_dir, f0, diffuse),
        contrib_wf(r),
{
    let d = Vec3Fx {
        x: l.position.x - frag_pos.x,
        y: l.position.y - frag_pos.y,
        z: l.position.z - frag_pos.z,
    };
    let zero_check: bool = d.x == 0 && d.y == 0 && d.z == 0;
    if zero_check {
        proof {
            assert(raw_dot(d, d) == 0);
        }
        return Vec3Fx { x: 0, y: 0, z: 0 };
    }
    proof {
        lemma_nonzero_dot(d);
    }
    let (ldir, dist) = normalize3_with_len(d);
    let n_dot_l: i64 = fx_clamp(dot3(n, ldir), 0, FX_ONE);
    let r_dot_l: i64 = fx_clamp(dot3(r_dir, ldir), 0, FX_ONE);
    proof {
        lemma_fx_mul_shrinks(r_dot_l as int, r_dot_l as int);
        lemma_fx_mul_shrinks(fx_mul_spec(r_dot_l as int, r_dot_l as int), FX_ONE - roughness);
    }
    let strength: i64 = fx_mul(fx_mul(r_dot_l, r_dot_l), FX_ONE - roughness);
    let range_att: i64 = if dist >= l.range {
        0
    } else {
        proof {
            lemma_fx_div_unit((l.range - dist) as int, l.range as int);
        }
        fx_div(l.range - dist, l.range)
    };
    let axis_dot: i64 = dot3(ldir, l.spot_direction);
    proof {
        crate::vec::lemma_raw_dot_bound(ldir, l.spot_direction, FX_ONE as int, FX_ONE as int);
        crate::fx::lemma_tdiv_bound(
            raw_dot(ldir, l.spot_direction),
            FX_ONE as int,
            3 * FX_ONE as int,
        );
    }
    let cos_angle: i64 = -axis_dot;
    let cone: i64 = fx_clamp(
        fx_div(cos_angle - l.spot_cos_outer, l.spot_cos_inner - l.spot_cos_outer),
        0,
        FX_ONE,
    );
    proof {
        lemma_fx_mul_shrinks(range_att as int, cone as int);
    }
    let att: i64 = fx_mul(range_att, cone);
    proof {
        assert(range_att == range_attenuation_spec(
            norm_len(to_light_spec(frag_pos, *l)),
            l.range as int,
        ));
        assert(cone == spot_cone_spec(ldir, *l));
    }
    scale_lobes(n_dot_l, strength, att, l.color, f0, diffuse)
}

/// The contribution of one directional light: both lobes scaled by the
/// light's unattenuated radiance.
pub open spec fn directional_light_spec(
    l: DirectionalLightFx,
    roughness: int,
    n: Vec3Fx,
    r_dir: Vec3Fx,
    f0: Vec3Fx,
    diffuse: Vec3Fx,
) -> Vec3Fx {
    let ldir = l.direction_to_light;
    let n_dot_l = clamp_spec(tdiv(raw_dot(n, ldir), FX_ONE as int), 0, FX_ONE as int);
    let r_dot_l = clamp_spec(tdiv(raw_dot(r_dir, ldir), FX_ONE as int), 0, FX_ONE as int);
    let strength = spec_strength_spec(r_dot_l, roughness);
    Vec3Fx {
        x: fx_mul_spec(
            lobe_channel_spec(diffuse.x as int, f0.x as int, n_dot_l, strength),
            l.color.x as int,
        ) as i64,
        y: fx_mul_spec(
            lobe_channel_spec(diffuse.y as int, f0.y as int, n_dot_l, strength),
            l.color.y as int,
        ) as i64,
        z: fx_mul_spec(
            lobe_channel_spec(diffuse.z as int, f0.z as int, n_dot_l, strength),
            l.color.z as int,
        ) as i64,
    }
}

/// Evaluate one directional light.
pub fn directional_light(
    l: &DirectionalLightFx,
    roughness: i64,
    n: Vec3Fx,
    r_dir: Vec3Fx,
    f0: Vec3Fx,
    diffuse: Vec3Fx,
) -> (r: Vec3Fx)
    requires
        directional_light_wf(*l),
        unit_scalar(roughness as int),
        v3_in(n, FX_ONE as int),
        v3_in(r_dir, 8 * FX_ONE as int),
        lobe_color_wf(f0),
        lobe_color_wf(diffuse),
    ensures
        r == directional_light_spec(*l, roughness as int, n, r_dir, f0, diffuse),
        contrib_wf(r),
{
    let ldir = l.direction_to_light;
    let n_dot_l: i64 = fx_clamp(dot3(n, ldir), 0, FX_ONE);
    let r_dot_l: i64 = fx_clamp(dot3(r_dir, ldir), 0, FX_ONE);
    proof {
        lemma_fx_mul_shrinks(r_dot_l as int, r_dot_l as int);
        lemma_fx_mul_shrinks(fx_mul_spec(r_dot_l as int, r_dot_l as int), FX_ONE - roughness);
        crate::fx::lemma_fx_mul_zero_one(l.color.x as int);
        crate::fx::lemma_fx_mul_zero_one(l.color.y as int);
        crate::fx::lemma_fx_mul_zero_one(l.color.z as int);
    }
    let strength: i64 = fx_mul(fx_mul(r_dot_l, r_dot_l), FX_ONE - roughness);
    scale_lobes(n_dot_l, strength, FX_ONE, l.color, f0, diffuse)
}

/// A single-lobe analytic fit of the environment BRDF: the color scaled by
/// `1 - pr * (1 - n_dot_v)` — full strength for a mirror, falling off with
/// roughness at glancing incidence.
pub open spec fn env_brdf_spec(f: Vec3Fx, perceptual_roughness: int, n_dot_v: int) -> Vec3Fx {
    let ndv = clamp_spec(n_dot_v, 0, FX_ONE as int);
    let scale = FX_ONE - fx_mul_spec(perceptual_roughness, FX_ONE - ndv);
    Vec3Fx {
        x: fx_mul_spec(f.x as int, scale) as i64,
        y: fx_mul_spec(f.y as int, scale) as i64,
        z: fx_mul_spec(f.z as int, scale) as i64,
    }
}

/// The ambient environment term for either lobe color.
pub fn env_brdf_approx(f: Vec3Fx, perceptual_roughness: i64, n_dot_v: i64) -> (r: Vec3Fx)
    requires
        lobe_color_wf(f),
        unit_scalar(perceptual_roughness as int),
    ensures
        r == env_brdf_spec(f, perceptual_roughness as int, n_dot_v as int),
        lobe_color_wf(r),
{
    let ndv: i64 = fx_clamp(n_dot_v, 0, FX_ONE);
    proof {
        lemma_fx_mul_shrinks(perceptual_roughness as int, FX_ONE - ndv as int);
    }
    let scale: i64 = FX_ONE - fx_mul(perceptual_roughness, FX_ONE - ndv);
    proof {
        lemma_fx_mul_shrinks(f.x as int, scale as int);
        lemma_fx_mul_shrinks(f.y as int, scale as int);
        lemma_fx_mul_shrinks(f.z as int, scale as int);
    }
    Vec3Fx { x: fx_mul(f.x, scale), y: fx_mul(f.y, scale), z: fx_mul(f.z, scale) }
}

/// A vector with some non-zero component has a positive self inner
/// product.
proof fn lemma_nonzero_dot(v: Vec3Fx)
    by (nonlinear_arith)
    requires
        v.x != 0 || v.y != 0 || v.z != 0,
    ensures
        raw_dot(v, v) > 0,
{
}

/// Combine the two lobes with the attenuated light radiance, channel by
/// channel.
fn scale_lobes(n_dot_l: i64, strength: i64, att: i64, color: Vec3Fx, f0: Vec3Fx, diffuse: Vec3Fx) -> (r:
    Vec3Fx)
    requires
        0 <= n_dot_l <= FX_ONE,
        0 <= strength <= FX_ONE,
        0 <= att <= FX_ONE,
        light_color_wf(color),
        lobe_color_wf(f0),
        lobe_color_wf(diffuse),
    ensures
        r.x == fx_mul_spec(
            lobe_channel_spec(diffuse.x as int, f0.x as int, n_dot_l as int, strength as int),
            fx_mul_spec(color.x as int, att as int),
        ),
        r.y == fx_mul_spec(
            lobe_channel_spec(diffuse.y as int, f0.y as int, n_dot_l as int, strength as int),
            fx_mul_spec(color.y as int, att as int),
        ),
        r.z == fx_mul_spec(
            lobe_channel_spec(diffuse.z as int, f0.z as int, n_dot_l as int, strength as int),
            fx_mul_spec(color.z as int, att as int),
        ),
        contrib_wf(r),
{
    proof {
        lemma_fx_mul_shrinks(diffuse.x as int, n_dot_l as int);
        lemma_fx_mul_shrinks(diffuse.y as int, n_dot_l as int);
        lemma_fx_mul_shrinks(diffuse.z as int, n_dot_l as int);
        lemma_fx_mul_shrinks(f0.x as int, strength as int);
        lemma_fx_mul_shrinks(f0.y as int, strength as int);
        lemma_fx_mul_shrinks(f0.z as int, strength as int);
        lemma_fx_mul_shrinks(color.x as int, att as int);
        lemma_fx_mul_shrinks(color.y as int, att as int);
        lemma_fx_mul_shrinks(color.z as int, att as int);
    }
    let lx: i64 = fx_mul(diffuse.x, n_dot_l) + fx_mul(f0.x, strength);
    let ly: i64 = fx_mul(diffuse.y, n_dot_l) + fx_mul(f0.y, strength);
    let lz: i64 = fx_mul(diffuse.z, n_dot_l) + fx_mul(f0.z, strength);
    let rx: i64 = fx_mul(color.x, att);
    let ry: i64 = fx_mul(color.y, att);
    let rz: i64 = fx_mul(color.z, att);
    proof {
        lemma_fx_mul_nonneg(lx as int, rx as int);
        lemma_fx_mul_nonneg(ly as int, ry as int);
        lemma_fx_mul_nonneg(lz as int, rz as int);
        lemma_fx_mul_bound(lx as int, rx as int, 2 * F0_LIM as int, LIGHT_LIM as int);
        lemma_fx_mul_bound(ly as int, ry as int, 2 * F0_LIM as int, LIGHT_LIM as int);
        lemma_fx_mul_bound(lz as int, rz as int, 2 * F0_LIM as int, LIGHT_LIM as int);
    }
    Vec3Fx { x: fx_mul(lx, rx), y: fx_mul(ly, ry), z: fx_mul(lz, rz) }
}

} // verus!
