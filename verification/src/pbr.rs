//! The top-level PBR aggregator: alpha discard, the Fresnel and diffuse
//! terms, cluster-sliced point and spot light accumulation, directional
//! lights, ambient and emissive, composed into one fragment color.

use vstd::prelude::*;

use crate::clusters::{
    cluster_offset, cluster_point_count, cluster_spot_count, get_light_id, unpack_offset_and_counts,
};
use crate::fx::{
    fx_mul, fx_mul_spec, iabs, lemma_fx_mul_bound, lemma_fx_mul_nonneg, lemma_fx_mul_shrinks,
    lemma_fx_mul_zero_one, FX_ONE,
};
use crate::lights::{
    directional_light, directional_light_spec, directional_light_wf, env_brdf_approx,
    env_brdf_spec, perceptual_roughness_to_roughness, point_light, point_light_spec,
    point_light_wf, roughness_spec, spot_light, spot_light_spec, DirectionalLightFx, LightsFx,
    PointLightFx, CONTRIB_LIM, DIRECTIONAL_LIGHT_FLAGS_SHADOWS_ENABLED_BIT, F0_LIM,
    POINT_LIGHT_FLAGS_SHADOWS_ENABLED_BIT,
};
use crate::material::{
    color_wf, material_wf, pbr_input_wf, unit_scalar, PbrInput, COLOR_LIM,
    MESH_FLAGS_SHADOW_RECEIVER_BIT,
};
use crate::surface::{
    alpha_discard, alpha_discard_spec, compute_f0, diffuse_color, f0_channel_spec, ndv_spec,
    shading_n_dot_v, POS_LIM,
};
use crate::vec::{reflect_dir, reflect_spec, Vec3Fx, Vec4Fx};

verus! {

/// Most directional lights one frame may carry.
pub const MAX_DIRECTIONAL_LIGHTS: u32 = 256;

/// Per-light shadow factors, sampled upstream from the shadow maps with
/// the engine's bias and filter policy; this stage only decides whether
/// each factor applies.
pub struct ShadowsFx {
    /// One factor per point-or-spot light record, for point evaluation.
    pub point: Vec<i64>,
    /// One factor per point-or-spot light record, for spot evaluation.
    pub spot: Vec<i64>,
    /// One factor per directional light.
    pub directional: Vec<i64>,
}

/// A shadow-factor table: one unit-interval factor per light.
pub open spec fn shadow_seq_wf(s: Seq<i64>, n: int) -> bool {
    s.len() == n && forall|j: int| 0 <= j < n ==> 0 <= #[trigger] s[j] <= FX_ONE
}

/// All three shadow tables sized to their light lists.
pub open spec fn shadows_wf(s: ShadowsFx, n_point: int, n_dir: int) -> bool {
    shadow_seq_wf(s.point@, n_point) && shadow_seq_wf(s.spot@, n_point) && shadow_seq_wf(
        s.directional@,
        n_dir,
    )
}

/// The factor applied to one clustered light: the sampled value when the
/// mesh receives shadows and the light casts them, else full strength.
pub open spec fn clustered_shadow_spec(
    mesh_flags: u32,
    l: PointLightFx,
    samples: Seq<i64>,
    id: int,
) -> int {
    if mesh_flags & MESH_FLAGS_SHADOW_RECEIVER_BIT != 0 && l.flags
        & POINT_LIGHT_FLAGS_SHADOWS_ENABLED_BIT != 0 {
        samples[id] as int
    } else {
        FX_ONE as int
    }
}

/// The factor applied to one directional light.
pub open spec fn directional_shadow_spec(
    mesh_flags: u32,
    l: DirectionalLightFx,
    samples: Seq<i64>,
    i: int,
) -> int {
    if mesh_flags & MESH_FLAGS_SHADOW_RECEIVER_BIT != 0 && l.flags
        & DIRECTIONAL_LIGHT_FLAGS_SHADOWS_ENABLED_BIT != 0 {
        samples[i] as int
    } else {
        FX_ONE as int
    }
}

/// Channel-wise sum of the first `k` values of `f`.
pub open spec fn sum3(f: spec_fn(int) -> (int, int, int), k: nat) -> (int, int, int)
    decreases k,
{
    if k == 0 {
        (0, 0, 0)
    } else {
        let prev = sum3(f, (k - 1) as nat);
        let c = f(k - 1);
        (prev.0 + c.0, prev.1 + c.1, prev.2 + c.2)
    }
}

/// One shadow-scaled point-light term of the cluster walk.
pub open spec fn point_term_fn(
    frag_pos: Vec3Fx,
    lights: Seq<PointLightFx>,
    list: Seq<u32>,
    samples: Seq<i64>,
    mesh_flags: u32,
    offset: int,
    roughness: int,
    n: Vec3Fx,
    r_dir: Vec3Fx,
    f0: Vec3Fx,
    diffuse: Vec3Fx,
) -> spec_fn(int) -> (int, int, int) {
    |j: int|
        {
            let id = list[offset + j] as int;
            let c = point_light_spec(frag_pos, lights[id], roughness, n, r_dir, f0, diffuse);
            let sh = clustered_shadow_spec(mesh_flags, lights[id], samples, id);
            (
                fx_mul_spec(c.x as int, sh),
                fx_mul_spec(c.y as int, sh),
                fx_mul_spec(c.z as int, sh),
            )
        }
}

/// One shadow-scaled spot-light term of the cluster walk.
pub open spec fn spot_term_fn(
    frag_pos: Vec3Fx,
    lights: Seq<PointLightFx>,
    list: Seq<u32>,
    samples: Seq<i64>,
    mesh_flags: u32,
    offset: int,
    roughness: int,
    n: Vec3Fx,
    r_dir: Vec3Fx,
    f0: Vec3Fx,
    diffuse: Vec3Fx,
) -> spec_fn(int) -> (int, int, int) {
    |j: int|
        {
            let id = list[offset + j] as int;
            let c = spot_light_spec(frag_pos, lights[id], roughness, n, r_dir, f0, diffuse);
            let sh = clustered_shadow_spec(mesh_flags, lights[id], samples, id);
            (
                fx_mul_spec(c.x as int, sh),
                fx_mul_spec(c.y as int, sh),
                fx_mul_spec(c.z as int, sh),
            )
        }
}

/// One shadow-scaled directional-light term.
pub open spec fn dir_term_fn(
    dir_lights: Seq<DirectionalLightFx>,
    samples: Seq<i64>,
    mesh_flags: u32,
    roughness: int,
    n: Vec3Fx,
    r_dir: Vec3Fx,
    f0: Vec3Fx,
    diffuse: Vec3Fx,
) -> spec_fn(int) -> (int, int, int) {
    |j: int|
        {
            let c = directional_light_spec(dir_lights[j], roughness, n, r_dir, f0, diffuse);
            let sh = directional_shadow_spec(mesh_flags, dir_lights[j], samples, j);
            (
                fx_mul_spec(c.x as int, sh),
                fx_mul_spec(c.y as int, sh),
                fx_mul_spec(c.z as int, sh),
            )
        }
}

/// The whole fragment evaluation: `None` is the discarded fragment;
/// otherwise the RGB channels hold the accumulated point, spot and
/// directional radiance plus ambient and emissive, and `w` holds the alpha
/// that alpha discard settled.
pub open spec fn pbr_spec(
    mesh_flags: u32,
    dir_lights: Seq<DirectionalLightFx>,
    n_dir: int,
    ambient: Vec4Fx,
    point_lights: Seq<PointLightFx>,
    list: Seq<u32>,
    packed: u32,
    sh_point: Seq<i64>,
    sh_spot: Seq<i64>,
    sh_dir: Seq<i64>,
    occlusion: i64,
    input: PbrInput,
) -> Option<Vec4Fx> {
    let m = input.material;
    match alpha_discard_spec(m, m.base_color) {
        Option::None => Option::None,
        Option::Some(color) => {
            let roughness = roughness_spec(m.perceptual_roughness as int);
            let ndv = ndv_spec(input.n, input.v);
            let f0 = Vec3Fx {
                x: f0_channel_spec(m.reflectance as int, m.metallic as int, color.x as int) as i64,
                y: f0_channel_spec(m.reflectance as int, m.metallic as int, color.y as int) as i64,
                z: f0_channel_spec(m.reflectance as int, m.metallic as int, color.z as int) as i64,
            };
            let diffuse = Vec3Fx {
                x: fx_mul_spec(color.x as int, FX_ONE - m.metallic) as i64,
                y: fx_mul_spec(color.y as int, FX_ONE - m.metallic) as i64,
                z: fx_mul_spec(color.z as int, FX_ONE - m.metallic) as i64,
            };
            let r_dir = reflect_spec(input.v, input.n);
            let frag_pos = Vec3Fx {
                x: input.world_position.x,
                y: input.world_position.y,
                z: input.world_position.z,
            };
            let off = cluster_offset(packed);
            let pc = cluster_point_count(packed);
            let sc = cluster_spot_count(packed);
            let psum = sum3(
                point_term_fn(
                    frag_pos,
                    point_lights,
                    list,
                    sh_point,
                    mesh_flags,
                    off,
                    roughness,
                    input.n,
                    r_dir,
                    f0,
                    diffuse,
                ),
                pc as nat,
            );
            let ssum = sum3(
                spot_term_fn(
                    frag_pos,
                    point_lights,
                    list,
                    sh_spot,
                    mesh_flags,
                    off + pc,
                    roughness,
                    input.n,
                    r_dir,
                    f0,
                    diffuse,
                ),
                sc as nat,
            );
            let dsum = sum3(
                dir_term_fn(
                    dir_lights,
                    sh_dir,
                    mesh_flags,
                    roughness,
                    input.n,
                    r_dir,
                    f0,
                    diffuse,
                ),
                n_dir as nat,
            );
            let denv = env_brdf_spec(diffuse, FX_ONE as int, ndv);
            let senv = env_brdf_spec(f0, m.perceptual_roughness as int, ndv);
            let amb = (
                fx_mul_spec(fx_mul_spec(denv.x + senv.x, ambient.x as int), occlusion as int),
                fx_mul_spec(fx_mul_spec(denv.y + senv.y, ambient.y as int), occlusion as int),
                fx_mul_spec(fx_mul_spec(denv.z + senv.z, ambient.z as int), occlusion as int),
            );
            let em = (
                fx_mul_spec(m.emissive.x as int, color.w as int),
                fx_mul_spec(m.emissive.y as int, color.w as int),
                fx_mul_spec(m.emissive.z as int, color.w as int),
            );
            Option::Some(
                Vec4Fx {
                    x: (psum.0 + ssum.0 + dsum.0 + amb.0 + em.0) as i64,
                    y: (psum.1 + ssum.1 + dsum.1 + amb.1 + em.1) as i64,
                    z: (psum.2 + ssum.2 + dsum.2 + amb.2 + em.2) as i64,
                    w: color.w,
                },
            )
        },
    }
}

/// One environment-term channel stays within its lobe color's bound.
proof fn lemma_env_channel_bounds(fch: int, pr: int, ndv: int, bound: int)
    requires
        0 <= fch <= bound,
        0 <= bound,
        unit_scalar(pr),
    ensures
        ({
            let cl = crate::fx::clamp_spec(ndv, 0, FX_ONE as int);
            let scale = FX_ONE - fx_mul_spec(pr, FX_ONE - cl);
            0 <= fx_mul_spec(fch, scale) <= bound
        }),
{
    let cl = crate::fx::clamp_spec(ndv, 0, FX_ONE as int);
    lemma_fx_mul_shrinks(pr, FX_ONE - cl);
    let scale = FX_ONE - fx_mul_spec(pr, FX_ONE - cl);
    lemma_fx_mul_shrinks(fch, scale);
}

/// With empty cluster counts, no directional lights and black ambient
/// light, a surviving fragment's RGB is exactly the emissive color scaled
/// by the settled alpha — and, the arithmetic being exact integers
/// throughout, no undefined value can arise.
pub proof fn lemma_no_lights_pure_emissive(
    mesh_flags: u32,
    dir_lights: Seq<DirectionalLightFx>,
    ambient: Vec4Fx,
    point_lights: Seq<PointLightFx>,
    list: Seq<u32>,
    packed: u32,
    sh_point: Seq<i64>,
    sh_spot: Seq<i64>,
    sh_dir: Seq<i64>,
    occlusion: i64,
    input: PbrInput,
)
    requires
        material_wf(input.material),
        unit_scalar(occlusion as int),
        cluster_point_count(packed) == 0,
        cluster_spot_count(packed) == 0,
        ambient.x == 0 && ambient.y == 0 && ambient.z == 0,
    ensures
        ({
            let out = pbr_spec(
                mesh_flags,
                dir_lights,
                0,
                ambient,
                point_lights,
                list,
                packed,
                sh_point,
                sh_spot,
                sh_dir,
                occlusion,
                input,
            );
            match alpha_discard_spec(input.material, input.material.base_color) {
                Option::None => out is None,
                Option::Some(color) => out is Some && out->Some_0.x == fx_mul_spec(
                    input.material.emissive.x as int,
                    color.w as int,
                ) && out->Some_0.y == fx_mul_spec(input.material.emissive.y as int, color.w as int)
                    && out->Some_0.z == fx_mul_spec(
                    input.material.emissive.z as int,
                    color.w as int,
                ) && out->Some_0.w == color.w,
            }
        }),
{
    let m = input.material;
    match alpha_discard_spec(m, m.base_color) {
        Option::None => {},
        Option::Some(color) => {
            assert(color.x == m.base_color.x && color.y == m.base_color.y && color.z
                == m.base_color.z);
            let met = m.metallic as int;
            lemma_fx_mul_shrinks(color.x as int, FX_ONE - met);
            lemma_fx_mul_shrinks(color.y as int, FX_ONE - met);
            lemma_fx_mul_shrinks(color.z as int, FX_ONE - met);
            lemma_fx_mul_shrinks(m.reflectance as int, m.reflectance as int);
            lemma_fx_mul_shrinks(
                160_000,
                fx_mul_spec(m.reflectance as int, m.reflectance as int),
            );
            lemma_fx_mul_shrinks(
                fx_mul_spec(160_000, fx_mul_spec(m.reflectance as int, m.reflectance as int)),
                FX_ONE - met,
            );
            lemma_fx_mul_shrinks(color.x as int, met);
            lemma_fx_mul_shrinks(color.y as int, met);
            lemma_fx_mul_shrinks(color.z as int, met);
            let ndv = ndv_spec(input.n, input.v);
            let pr = m.perceptual_roughness as int;
            let diffuse_x = fx_mul_spec(color.x as int, FX_ONE - met);
            let diffuse_y = fx_mul_spec(color.y as int, FX_ONE - met);
            let diffuse_z = fx_mul_spec(color.z as int, FX_ONE - met);
            lemma_env_channel_bounds(diffuse_x, FX_ONE as int, ndv, COLOR_LIM as int);
            lemma_env_channel_bounds(diffuse_y, FX_ONE as int, ndv, COLOR_LIM as int);
            lemma_env_channel_bounds(diffuse_z, FX_ONE as int, ndv, COLOR_LIM as int);
            lemma_env_channel_bounds(
                f0_channel_spec(m.reflectance as int, met, color.x as int),
                pr,
                ndv,
                F0_LIM as int,
            );
            lemma_env_channel_bounds(
                f0_channel_spec(m.reflectance as int, met, color.y as int),
                pr,
                ndv,
                F0_LIM as int,
            );
            lemma_env_channel_bounds(
                f0_channel_spec(m.reflectance as int, met, color.z as int),
                pr,
                ndv,
                F0_LIM as int,
            );
            let f0v = Vec3Fx {
                x: f0_channel_spec(m.reflectance as int, met, color.x as int) as i64,
                y: f0_channel_spec(m.reflectance as int, met, color.y as int) as i64,
                z: f0_channel_spec(m.reflectance as int, met, color.z as int) as i64,
            };
            let dv = Vec3Fx { x: diffuse_x as i64, y: diffuse_y as i64, z: diffuse_z as i64 };
            let denv = env_brdf_spec(dv, FX_ONE as int, ndv);
            let senv = env_brdf_spec(f0v, pr, ndv);
            assert(0 <= denv.x <= COLOR_LIM && 0 <= denv.y <= COLOR_LIM && 0 <= denv.z
                <= COLOR_LIM);
            assert(0 <= senv.x <= F0_LIM && 0 <= senv.y <= F0_LIM && 0 <= senv.z <= F0_LIM);
            lemma_fx_mul_zero_one((denv.x + senv.x) as int);
            lemma_fx_mul_zero_one((denv.y + senv.y) as int);
            lemma_fx_mul_zero_one((denv.z + senv.z) as int);
            lemma_fx_mul_zero_one(occlusion as int);
            lemma_fx_mul_nonneg(m.emissive.x as int, color.w as int);
            lemma_fx_mul_nonneg(m.emissive.y as int, color.w as int);
            lemma_fx_mul_nonneg(m.emissive.z as int, color.w as int);
            lemma_fx_mul_bound(m.emissive.x as int, color.w as int, COLOR_LIM as int, FX_ONE as int);
            lemma_fx_mul_bound(m.emissive.y as int, color.w as int, COLOR_LIM as int, FX_ONE as int);
            lemma_fx_mul_bound(m.emissive.z as int, color.w as int, COLOR_LIM as int, FX_ONE as int);
        },
    }
}

/// Evaluate the full PBR shading of one fragment.
///
/// `None` is a discarded fragment: nothing is written at all and every
/// later stage is skipped. The diagnostic cluster overlay is not modeled:
/// when disabled it is the identity. RGB is unclamped — HDR sums may pass
/// one unit — while the returned alpha is the one alpha discard settled.
#[verifier::loop_isolation(false)]
#[verifier::rlimit(100)]
pub fn pbr(
    mesh_flags: u32,
    lights: &LightsFx,
    point_lights: &Vec<PointLightFx>,
    cluster_light_index_list: &Vec<u32>,
    cluster_offsets_and_counts: &Vec<u32>,
    cluster_index: usize,
    shadows: &ShadowsFx,
    input: PbrInput,
) -> (r: Option<Vec4Fx>)
    requires
        pbr_input_wf(input),
        iabs(input.world_position.x as int) <= POS_LIM as int,
        iabs(input.world_position.y as int) <= POS_LIM as int,
        iabs(input.world_position.z as int) <= POS_LIM as int,
        forall|j: int|
            0 <= j < point_lights@.len() ==> point_light_wf(#[trigger] point_lights@[j]),
        lights.n_directional_lights <= lights.directional_lights@.len(),
        lights.n_directional_lights <= MAX_DIRECTIONAL_LIGHTS,
        forall|j: int|
            0 <= j < lights.n_directional_lights ==> directional_light_wf(
                #[trigger] lights.directional_lights@[j],
            ),
        color_wf(lights.ambient_color),
        (cluster_index as int) < cluster_offsets_and_counts@.len(),
        ({
            let packed = cluster_offsets_and_counts@[cluster_index as int];
            &&& cluster_offset(packed) + cluster_point_count(packed) + cluster_spot_count(packed)
                <= cluster_light_index_list@.len()
            &&& forall|i: int|
                cluster_offset(packed) <= i < cluster_offset(packed) + cluster_point_count(packed)
                    + cluster_spot_count(packed) ==> (#[trigger] cluster_light_index_list@[i]
                    as int) < point_lights@.len()
        }),
        shadows_wf(*shadows, point_lights@.len() as int, lights.directional_lights@.len() as int),
    ensures
        r == pbr_spec(
            mesh_flags,
            lights.directional_lights@,
            lights.n_directional_lights as int,
            lights.ambient_color,
            point_lights@,
            cluster_light_index_list@,
            cluster_offsets_and_counts@[cluster_index as int],
            shadows.point@,
            shadows.spot@,
            shadows.directional@,
            input.occlusion,
            input,
        ),
        r is Some ==> r->Some_0.w == alpha_discard_spec(
            input.material,
            input.material.base_color,
        )->Some_0.w,
{
    let m = input.material;
    let color_opt = alpha_discard(&m, m.base_color);
    let color = match color_opt {
        Option::None => {
            return Option::None;
        },
        Option::Some(c) => c,
    };
    let roughness: i64 = perceptual_roughness_to_roughness(m.perceptual_roughness);
    let ndv: i64 = shading_n_dot_v(input.n, input.v);
    let base_rgb = color.truncate();
    let f0 = compute_f0(m.reflectance, m.metallic, base_rgb);
    let diffuse = diffuse_color(base_rgb, m.metallic);
    let r_dir = reflect_dir(input.v, input.n);
    let frag_pos = Vec3Fx {
        x: input.world_position.x,
        y: input.world_position.y,
        z: input.world_position.z,
    };
    let packed: u32 = cluster_offsets_and_counts[cluster_index];
    let (off, pc, sc) = unpack_offset_and_counts(packed);

    let ghost pf = point_term_fn(
        frag_pos,
        point_lights@,
        cluster_light_index_list@,
        shadows.point@,
        mesh_flags,
        off as int,
        roughness as int,
        input.n,
        r_dir,
        f0,
        diffuse,
    );
    let ghost qf = spot_term_fn(
        frag_pos,
        point_lights@,
        cluster_light_index_list@,
        shadows.spot@,
        mesh_flags,
        off as int + pc as int,
        roughness as int,
        input.n,
        r_dir,
        f0,
        diffuse,
    );
    let ghost df = dir_term_fn(
        lights.directional_lights@,
        shadows.directional@,
        mesh_flags,
        roughness as int,
        input.n,
        r_dir,
        f0,
        diffuse,
    );

    let mut acc = Vec3Fx { x: 0, y: 0, z: 0 };
    let mut i: u32 = off;
    while i < off + pc
        invariant
            off <= i <= off + pc,
            acc.x == sum3(pf, (i - off) as nat).0,
            acc.y == sum3(pf, (i - off) as nat).1,
            acc.z == sum3(pf, (i - off) as nat).2,
            0 <= acc.x <= (i - off) * (CONTRIB_LIM as int),
            0 <= acc.y <= (i - off) * (CONTRIB_LIM as int),
            0 <= acc.z <= (i - off) * (CONTRIB_LIM as int),
        decreases off + pc - i,
    {
        let id: u32 = get_light_id(cluster_light_index_list, i);
        let light: PointLightFx = point_lights[id as usize];
        let mut shadow: i64 = FX_ONE;
        if mesh_flags & MESH_FLAGS_SHADOW_RECEIVER_BIT != 0 && light.flags
            & POINT_LIGHT_FLAGS_SHADOWS_ENABLED_BIT != 0 {
            shadow = shadows.point[id as usize];
        }
        let shaded = point_light(frag_pos, &light, roughness, input.n, r_dir, f0, diffuse);
        proof {
            assert(shadow == clustered_shadow_spec(mesh_flags, light, shadows.point@, id as int));
            lemma_fx_mul_shrinks(shaded.x as int, shadow as int);
            lemma_fx_mul_shrinks(shaded.y as int, shadow as int);
            lemma_fx_mul_shrinks(shaded.z as int, shadow as int);
            let k = (i - off) as int;
            assert(pf(k) == (
                fx_mul_spec(shaded.x as int, shadow as int),
                fx_mul_spec(shaded.y as int, shadow as int),
                fx_mul_spec(shaded.z as int, shadow as int),
            ));
            assert(sum3(pf, (i + 1 - off) as nat).0 == sum3(pf, (i - off) as nat).0 + pf(k).0);
            assert(sum3(pf, (i + 1 - off) as nat).1 == sum3(pf, (i - off) as nat).1 + pf(k).1);
            assert(sum3(pf, (i + 1 - off) as nat).2 == sum3(pf, (i - off) as nat).2 + pf(k).2);
        }
        acc = Vec3Fx {
            x: acc.x + fx_mul(shaded.x, shadow),
            y: acc.y + fx_mul(shaded.y, shadow),
            z: acc.z + fx_mul(shaded.z, shadow),
        };
        i = i + 1;
    }
    let ghost psum = sum3(pf, cluster_point_count(packed) as nat);

    let mut j: u32 = off + pc;
    while j < off + pc + sc
        invariant
            off + pc <= j <= off + pc + sc,
            acc.x == psum.0 + sum3(qf, (j - off - pc) as nat).0,
            acc.y == psum.1 + sum3(qf, (j - off - pc) as nat).1,
            acc.z == psum.2 + sum3(qf, (j - off - pc) as nat).2,
            0 <= acc.x <= (j - off) * (CONTRIB_LIM as int),
            0 <= acc.y <= (j - off) * (CONTRIB_LIM as int),
            0 <= acc.z <= (j - off) * (CONTRIB_LIM as int),
        decreases off + pc + sc - j,
    {
        let id: u32 = get_light_id(cluster_light_index_list, j);
        let light: PointLightFx = point_lights[id as usize];
        let mut shadow: i64 = FX_ONE;
        if mesh_flags & MESH_FLAGS_SHADOW_RECEIVER_BIT != 0 && light.flags
            & POINT_LIGHT_FLAGS_SHADOWS_ENABLED_BIT != 0 {
            shadow = shadows.spot[id as usize];
        }
        let shaded = spot_light(frag_pos, &light, roughness, input.n, r_dir, f0, diffuse);
        proof {
            assert(shadow == clustered_shadow_spec(mesh_flags, light, shadows.spot@, id as int));
            lemma_fx_mul_shrinks(shaded.x as int, shadow as int);
            lemma_fx_mul_shrinks(shaded.y as int, shadow as int);
            lemma_fx_mul_shrinks(shaded.z as int, shadow as int);
            let k = (j - off - pc) as int;
            assert(qf(k) == (
                fx_mul_spec(shaded.x as int, shadow as int),
                fx_mul_spec(shaded.y as int, shadow as int),
                fx_mul_spec(shaded.z as int, shadow as int),
            ));
            assert(sum3(qf, (j + 1 - off - pc) as nat).0 == sum3(qf, (j - off - pc) as nat).0 + qf(
                k,
            ).0);
            assert(sum3(qf, (j + 1 - off - pc) as nat).1 == sum3(qf, (j - off - pc) as nat).1 + qf(
                k,
            ).1);
            assert(sum3(qf, (j + 1 - off - pc) as nat).2 == sum3(qf, (j - off - pc) as nat).2 + qf(
                k,
            ).2);
        }
        acc = Vec3Fx {
            x: acc.x + fx_mul(shaded.x, shadow),
            y: acc.y + fx_mul(shaded.y, shadow),
            z: acc.z + fx_mul(shaded.z, shadow),
        };
        j = j + 1;
    }
    let ghost ssum = sum3(qf, cluster_spot_count(packed) as nat);

    let n_dir: u32 = lights.n_directional_lights;
    let mut k: u32 = 0;
    while k < n_dir
        invariant
            0 <= k <= n_dir,
            acc.x == psum.0 + ssum.0 + sum3(df, k as nat).0,
            acc.y == psum.1 + ssum.1 + sum3(df, k as nat).1,
            acc.z == psum.2 + ssum.2 + sum3(df, k as nat).2,
            0 <= acc.x <= (cluster_point_count(packed) + cluster_spot_count(packed) + k) * (
            CONTRIB_LIM as int),
            0 <= acc.y <= (cluster_point_count(packed) + cluster_spot_count(packed) + k) * (
            CONTRIB_LIM as int),
            0 <= acc.z <= (cluster_point_count(packed) + cluster_spot_count(packed) + k) * (
            CONTRIB_LIM as int),
        decreases n_dir - k,
    {
        let light: DirectionalLightFx = lights.directional_lights[k as usize];
        let mut shadow: i64 = FX_ONE;
        if mesh_flags & MESH_FLAGS_SHADOW_RECEIVER_BIT != 0 && light.flags
            & DIRECTIONAL_LIGHT_FLAGS_SHADOWS_ENABLED_BIT != 0 {
            shadow = shadows.directional[k as usize];
        }
        let shaded = directional_light(&light, roughness, input.n, r_dir, f0, diffuse);
        proof {
            assert(shadow == directional_shadow_spec(
                mesh_flags,
                light,
                shadows.directional@,
                k as int,
            ));
            lemma_fx_mul_shrinks(shaded.x as int, shadow as int);
            lemma_fx_mul_shrinks(shaded.y as int, shadow as int);
            lemma_fx_mul_shrinks(shaded.z as int, shadow as int);
            assert(df(k as int) == (
                fx_mul_spec(shaded.x as int, shadow as int),
                fx_mul_spec(shaded.y as int, shadow as int),
                fx_mul_spec(shaded.z as int, shadow as int),
            ));
            assert(sum3(df, (k + 1) as nat).0 == sum3(df, k as nat).0 + df(k as int).0);
            assert(sum3(df, (k + 1) as nat).1 == sum3(df, k as nat).1 + df(k as int).1);
            assert(sum3(df, (k + 1) as nat).2 == sum3(df, k as nat).2 + df(k as int).2);
        }
        acc = Vec3Fx {
            x: acc.x + fx_mul(shaded.x, shadow),
            y: acc.y + fx_mul(shaded.y, shadow),
            z: acc.z + fx_mul(shaded.z, shadow),
        };
        k = k + 1;
    }

    let denv = env_brdf_approx(diffuse, FX_ONE, ndv);
    let senv = env_brdf_approx(f0, m.perceptual_roughness, ndv);
    let esx: i64 = denv.x + senv.x;
    let esy: i64 = denv.y + senv.y;
    let esz: i64 = denv.z + senv.z;
    proof {
        lemma_fx_mul_nonneg(esx as int, lights.ambient_color.x as int);
        lemma_fx_mul_nonneg(esy as int, lights.ambient_color.y as int);
        lemma_fx_mul_nonneg(esz as int, lights.ambient_color.z as int);
        lemma_fx_mul_bound(esx as int, lights.ambient_color.x as int, 2 * F0_LIM as int,
            COLOR_LIM as int);
        lemma_fx_mul_bound(esy as int, lights.ambient_color.y as int, 2 * F0_LIM as int,
            COLOR_LIM as int);
        lemma_fx_mul_bound(esz as int, lights.ambient_color.z as int, 2 * F0_LIM as int,
            COLOR_LIM as int);
    }
    let ambx0: i64 = fx_mul(esx, lights.ambient_color.x);
    let amby0: i64 = fx_mul(esy, lights.ambient_color.y);
    let ambz0: i64 = fx_mul(esz, lights.ambient_color.z);
    proof {
        lemma_fx_mul_shrinks(ambx0 as int, input.occlusion as int);
        lemma_fx_mul_shrinks(amby0 as int, input.occlusion as int);
        lemma_fx_mul_shrinks(ambz0 as int, input.occlusion as int);
    }
    let ambx: i64 = fx_mul(ambx0, input.occlusion);
    let amby: i64 = fx_mul(amby0, input.occlusion);
    let ambz: i64 = fx_mul(ambz0, input.occlusion);
    proof {
        lemma_fx_mul_nonneg(m.emissive.x as int, color.w as int);
        lemma_fx_mul_nonneg(m.emissive.y as int, color.w as int);
        lemma_fx_mul_nonneg(m.emissive.z as int, color.w as int);
        lemma_fx_mul_bound(m.emissive.x as int, color.w as int, COLOR_LIM as int, FX_ONE as int);
        lemma_fx_mul_bound(m.emissive.y as int, color.w as int, COLOR_LIM as int, FX_ONE as int);
        lemma_fx_mul_bound(m.emissive.z as int, color.w as int, COLOR_LIM as int, FX_ONE as int);
    }
    let emx: i64 = fx_mul(m.emissive.x, color.w);
    let emy: i64 = fx_mul(m.emissive.y, color.w);
    let emz: i64 = fx_mul(m.emissive.z, color.w);
    Option::Some(
        Vec4Fx { x: acc.x + ambx + emx, y: acc.y + amby + emy, z: acc.z + ambz + emz, w: color.w },
    )
}

} // verus!
