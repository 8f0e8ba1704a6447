//! Per-fragment geometry and alpha handling: alpha discard, normal
//! preparation, normal mapping and the view vector.

use vstd::prelude::*;

use crate::fx::{
    fx_div_spec, fx_max, fx_mul, fx_mul_spec, iabs, is_sqrt_floor, isqrt_u64, lemma_fx_mul_zero_one,
    lemma_sqrt_floor_of, sqrt_floor, tdiv, FX_LIM, FX_ONE, VEC_LIM,
};
use crate::material::{
    color_channel, StandardMaterial, MATERIAL_FLAGS_ALPHA_MODE_MASK,
    MATERIAL_FLAGS_ALPHA_MODE_OPAQUE, MATERIAL_FLAGS_FLIP_NORMAL_MAP_Y,
    MATERIAL_FLAGS_TWO_COMPONENT_NORMAL_MAP, COLOR_LIM,
};
use crate::vec::{
    cross3, dot3, normalize3, normalize_v3_spec, raw_dot, v3_in, Mat4Fx, Vec3Fx, Vec4Fx,
};

verus! {

/// Magnitude bound for world and camera positions (five hundred units),
/// chosen so position differences still fit the vector operations.
pub const POS_LIM: i64 = 500_000_000;

/// Floor applied to `n . v`: one ten-thousandth of a unit, keeping later
/// divisions away from zero.
pub const N_DOT_V_FLOOR: i64 = 100;

/// What alpha discard leaves of a tentative output color: `None` means the
/// fragment is discarded and writes nothing at all.
pub open spec fn alpha_discard_spec(m: StandardMaterial, c: Vec4Fx) -> Option<Vec4Fx> {
    if m.flags & MATERIAL_FLAGS_ALPHA_MODE_OPAQUE != 0 {
        Some(Vec4Fx { x: c.x, y: c.y, z: c.z, w: FX_ONE })
    } else if m.flags & MATERIAL_FLAGS_ALPHA_MODE_MASK != 0 {
        if c.w >= m.alpha_cutoff {
            Some(Vec4Fx { x: c.x, y: c.y, z: c.z, w: FX_ONE })
        } else {
            None
        }
    } else {
        Some(c)
    }
}

/// Apply the material's alpha mode to a tentative output color.
///
/// Opaque materials ignore the incoming alpha and force it to one unit.
/// Masked materials are forced to one unit when the alpha reaches the
/// cutoff and otherwise produce no output at all: `None` is the discarded
/// fragment, and callers must short-circuit every later shading step.
pub fn alpha_discard(material: &StandardMaterial, output_color: Vec4Fx) -> (r: Option<Vec4Fx>)
    ensures
        r == alpha_discard_spec(*material, output_color),
{
    if material.flags & MATERIAL_FLAGS_ALPHA_MODE_OPAQUE != 0 {
        Some(Vec4Fx { x: output_color.x, y: output_color.y, z: output_color.z, w: FX_ONE })
    } else if material.flags & MATERIAL_FLAGS_ALPHA_MODE_MASK != 0 {
        if output_color.w >= material.alpha_cutoff {
            Some(Vec4Fx { x: output_color.x, y: output_color.y, z: output_color.z, w: FX_ONE })
        } else {
            None
        }
    } else {
        Some(output_color)
    }
}

/// An opaque material always comes out with alpha of exactly one unit,
/// whatever alpha went in.
pub proof fn lemma_opaque_alpha_is_one(m: StandardMaterial, c: Vec4Fx)
    requires
        m.flags & MATERIAL_FLAGS_ALPHA_MODE_OPAQUE != 0,
    ensures
        alpha_discard_spec(m, c) is Some,
        alpha_discard_spec(m, c)->Some_0.w == FX_ONE,
{
}

/// A masked material discards exactly the fragments whose alpha lies below
/// the cutoff, and forces the survivors fully opaque.
pub proof fn lemma_masked_cutoff(m: StandardMaterial, c: Vec4Fx)
    requires
        m.flags & MATERIAL_FLAGS_ALPHA_MODE_OPAQUE == 0,
        m.flags & MATERIAL_FLAGS_ALPHA_MODE_MASK != 0,
    ensures
        c.w < m.alpha_cutoff <==> alpha_discard_spec(m, c) is None,
        c.w >= m.alpha_cutoff ==> alpha_discard_spec(m, c)->Some_0.w == FX_ONE,
{
}

/// Flip a world normal when looking at the back face of a double-sided
/// surface, exactly as the branchless `(front ? 1 : 0) * 2 - 1` scaling
/// does; with normal mapping active the normal passes through untouched.
pub fn prepare_world_normal(
    world_normal: Vec3Fx,
    double_sided: bool,
    is_front: bool,
    normal_mapping_active: bool,
) -> (r: Vec3Fx)
    requires
        v3_in(world_normal, FX_LIM as int),
    ensures
        normal_mapping_active ==> r == world_normal,
        !normal_mapping_active ==> (if !double_sided || is_front {
            r == world_normal
        } else {
            r.x == -world_normal.x && r.y == -world_normal.y && r.z == -world_normal.z
        }),
{
    if normal_mapping_active {
        world_normal
    } else if !double_sided || is_front {
        world_normal
    } else {
        Vec3Fx { x: -world_normal.x, y: -world_normal.y, z: -world_normal.z }
    }
}

/// Rebuild the Z component of a two-component tangent-space normal:
/// `z = sqrt(1 - x^2 - y^2)`, which is real and non-negative whenever
/// `x^2 + y^2 <= 1`; inputs outside that disc are ruled out here because
/// their behavior is left undefined upstream.
pub fn reconstruct_normal_z(x: i64, y: i64) -> (r: i64)
    requires
        -FX_ONE <= x <= FX_ONE,
        -FX_ONE <= y <= FX_ONE,
        x * x + y * y <= FX_ONE * FX_ONE,
    ensures
        r == sqrt_floor(FX_ONE * FX_ONE - x * x - y * y),
        0 <= r <= FX_ONE,
{
    proof {
        assert(0 <= (x as int) * (x as int) <= 1_000_000_000_000int && 0 <= (y as int) * (y as int)
            <= 1_000_000_000_000int) by (nonlinear_arith)
            requires
                -1_000_000i64 <= x <= 1_000_000i64,
                -1_000_000i64 <= y <= 1_000_000i64,
        ;
    }
    let xs: i128 = (x as i128) * (x as i128);
    let ys: i128 = (y as i128) * (y as i128);
    let rem: i128 = 1_000_000_000_000i128 - xs - ys;
    assert(rem == FX_ONE * FX_ONE - x * x - y * y);
    let z: u64 = isqrt_u64(rem as u64);
    proof {
        assert(z * z <= 1_000_000_000_000int);
        assert(z <= 1_000_000int) by (nonlinear_arith)
            requires
                0 <= z as int,
                (z as int) * (z as int) <= 1_000_000_000_000int,
        ;
    }
    z as i64
}

/// The tangent-space normal read from the map, remapped from `[0, 1]` to
/// `[-1, 1]`: two-component maps rebuild Z, and DirectX-authored maps flip
/// Y afterwards.
pub open spec fn tangent_normal_spec(flags: u32, texel: Vec3Fx) -> (int, int, int) {
    let tx = 2 * (texel.x as int) - FX_ONE;
    let ty = 2 * (texel.y as int) - FX_ONE;
    let tz = if flags & MATERIAL_FLAGS_TWO_COMPONENT_NORMAL_MAP != 0 {
        sqrt_floor(FX_ONE * FX_ONE - tx * tx - ty * ty)
    } else {
        2 * (texel.z as int) - FX_ONE
    };
    if flags & MATERIAL_FLAGS_FLIP_NORMAL_MAP_Y != 0 {
        (tx, -ty, tz)
    } else {
        (tx, ty, tz)
    }
}

/// The world-space image `Nt.x * T + Nt.y * B + Nt.z * N` of the
/// tangent-space normal, before renormalization. The basis is taken as it
/// comes — no orthogonalization — to invert the baking convention exactly.
pub open spec fn tbn_combine_spec(nt: (int, int, int), t: Vec3Fx, b: Vec3Fx, n: Vec3Fx) -> (
    int,
    int,
    int,
) {
    (
        fx_mul_spec(nt.0, t.x as int) + fx_mul_spec(nt.1, b.x as int) + fx_mul_spec(
            nt.2,
            n.x as int,
        ),
        fx_mul_spec(nt.0, t.y as int) + fx_mul_spec(nt.1, b.y as int) + fx_mul_spec(
            nt.2,
            n.y as int,
        ),
        fx_mul_spec(nt.0, t.z as int) + fx_mul_spec(nt.1, b.z as int) + fx_mul_spec(
            nt.2,
            n.z as int,
        ),
    )
}

/// The bitangent `w * (N x T)` of the tangent frame.
pub open spec fn bitangent_spec(world_normal: Vec3Fx, world_tangent: Vec4Fx) -> Vec3Fx {
    let cx = tdiv(
        (world_normal.y as int) * (world_tangent.z as int) - (world_normal.z as int)
            * (world_tangent.y as int),
        FX_ONE as int,
    );
    let cy = tdiv(
        (world_normal.z as int) * (world_tangent.x as int) - (world_normal.x as int)
            * (world_tangent.z as int),
        FX_ONE as int,
    );
    let cz = tdiv(
        (world_normal.x as int) * (world_tangent.y as int) - (world_normal.y as int)
            * (world_tangent.x as int),
        FX_ONE as int,
    );
    Vec3Fx {
        x: fx_mul_spec(cx, world_tangent.w as int) as i64,
        y: fx_mul_spec(cy, world_tangent.w as int) as i64,
        z: fx_mul_spec(cz, world_tangent.w as int) as i64,
    }
}

/// Full normal mapping: remap the sampled texel, carry it through the
/// tangent frame, and renormalize; a degenerate tangent-frame image falls
/// back to the plain world normal.
pub open spec fn apply_normal_mapping_spec(
    flags: u32,
    world_normal: Vec3Fx,
    world_tangent: Vec4Fx,
    texel: Vec3Fx,
    has_tangent_and_map: bool,
) -> Vec3Fx
    recommends
        raw_dot(world_normal, world_normal) > 0,
{
    if !has_tangent_and_map {
        normalize_v3_spec(world_normal)
    } else {
        let nt = tangent_normal_spec(flags, texel);
        let t = Vec3Fx { x: world_tangent.x, y: world_tangent.y, z: world_tangent.z };
        let b = bitangent_spec(world_normal, world_tangent);
        let m = tbn_combine_spec(nt, t, b, world_normal);
        let mv = Vec3Fx { x: m.0 as i64, y: m.1 as i64, z: m.2 as i64 };
        if raw_dot(mv, mv) > 0 {
            normalize_v3_spec(mv)
        } else {
            normalize_v3_spec(world_normal)
        }
    }
}

/// Sample-driven normal mapping, active only when both vertex tangents and
/// a normal map are supplied; the basis is used exactly as handed in, with
/// no re-orthogonalization, to invert the baking convention.
pub fn apply_normal_mapping(
    flags: u32,
    world_normal: Vec3Fx,
    world_tangent: Vec4Fx,
    texel: Vec3Fx,
    has_tangent_and_map: bool,
) -> (r: Vec3Fx)
    requires
        v3_in(world_normal, FX_ONE as int),
        raw_dot(world_normal, world_normal) > 0,
        iabs(world_tangent.x as int) <= FX_ONE as int,
        iabs(world_tangent.y as int) <= FX_ONE as int,
        iabs(world_tangent.z as int) <= FX_ONE as int,
        iabs(world_tangent.w as int) <= FX_ONE as int,
        0 <= texel.x <= FX_ONE,
        0 <= texel.y <= FX_ONE,
        0 <= texel.z <= FX_ONE,
        flags & MATERIAL_FLAGS_TWO_COMPONENT_NORMAL_MAP != 0 ==> (2 * texel.x - FX_ONE) * (2
            * texel.x - FX_ONE) + (2 * texel.y - FX_ONE) * (2 * texel.y - FX_ONE) <= FX_ONE
            * FX_ONE,
    ensures
        r == apply_normal_mapping_spec(flags, world_normal, world_tangent, texel,
            has_tangent_and_map),
        v3_in(r, FX_ONE as int),
{
    if !has_tangent_and_map {
        return normalize3(world_normal);
    }
    let ntx: i64 = 2 * texel.x - FX_ONE;
    let nty0: i64 = 2 * texel.y - FX_ONE;
    let ntz: i64 = if flags & MATERIAL_FLAGS_TWO_COMPONENT_NORMAL_MAP != 0 {
        reconstruct_normal_z(ntx, nty0)
    } else {
        2 * texel.z - FX_ONE
    };
    let nty: i64 = if flags & MATERIAL_FLAGS_FLIP_NORMAL_MAP_Y != 0 {
        -nty0
    } else {
        nty0
    };
    proof {
        assert((ntx as int, nty as int, ntz as int) == tangent_normal_spec(flags, texel));
    }
    let t = world_tangent.truncate();
    let bt_raw = cross3(world_normal, t);
    proof {
        lemma_cross_bound(world_normal, t);
    }
    let b = crate::vec::v3_scale(bt_raw, world_tangent.w);
    proof {
        crate::fx::lemma_fx_mul_bound(bt_raw.x as int, world_tangent.w as int, 2 * FX_ONE as int,
            FX_ONE as int);
        crate::fx::lemma_fx_mul_bound(bt_raw.y as int, world_tangent.w as int, 2 * FX_ONE as int,
            FX_ONE as int);
        crate::fx::lemma_fx_mul_bound(bt_raw.z as int, world_tangent.w as int, 2 * FX_ONE as int,
            FX_ONE as int);
        assert(b == bitangent_spec(world_normal, world_tangent));
        crate::fx::lemma_fx_mul_bound(ntx as int, t.x as int, FX_ONE as int, FX_ONE as int);
        crate::fx::lemma_fx_mul_bound(ntx as int, t.y as int, FX_ONE as int, FX_ONE as int);
        crate::fx::lemma_fx_mul_bound(ntx as int, t.z as int, FX_ONE as int, FX_ONE as int);
        crate::fx::lemma_fx_mul_bound(nty as int, b.x as int, FX_ONE as int, 2 * FX_ONE as int);
        crate::fx::lemma_fx_mul_bound(nty as int, b.y as int, FX_ONE as int, 2 * FX_ONE as int);
        crate::fx::lemma_fx_mul_bound(nty as int, b.z as int, FX_ONE as int, 2 * FX_ONE as int);
        crate::fx::lemma_fx_mul_bound(ntz as int, world_normal.x as int, FX_ONE as int,
            FX_ONE as int);
        crate::fx::lemma_fx_mul_bound(ntz as int, world_normal.y as int, FX_ONE as int,
            FX_ONE as int);
        crate::fx::lemma_fx_mul_bound(ntz as int, world_normal.z as int, FX_ONE as int,
            FX_ONE as int);
    }
    let mx: i64 = fx_mul(ntx, t.x) + fx_mul(nty, b.x) + fx_mul(ntz, world_normal.x);
    let my: i64 = fx_mul(ntx, t.y) + fx_mul(nty, b.y) + fx_mul(ntz, world_normal.y);
    let mz: i64 = fx_mul(ntx, t.z) + fx_mul(nty, b.z) + fx_mul(ntz, world_normal.z);
    let mv = Vec3Fx { x: mx, y: my, z: mz };
    proof {
        let m = tbn_combine_spec(
            tangent_normal_spec(flags, texel),
            t,
            bitangent_spec(world_normal, world_tangent),
            world_normal,
        );
        assert(mv == (Vec3Fx { x: m.0 as i64, y: m.1 as i64, z: m.2 as i64 }));
        assert(0 <= (mx as int) * (mx as int) && 0 <= (my as int) * (my as int) && 0 <= (mz as int)
            * (mz as int) && (mx as int) * (mx as int) <= 16_000_000_000_000int && (my as int) * (
        my as int) <= 16_000_000_000_000int && (mz as int) * (mz as int)
            <= 16_000_000_000_000int) by (nonlinear_arith)
            requires
                iabs(mx as int) <= 4_000_000int,
                iabs(my as int) <= 4_000_000int,
                iabs(mz as int) <= 4_000_000int,
        ;
    }
    let sx: i128 = (mx as i128) * (mx as i128);
    let sy: i128 = (my as i128) * (my as i128);
    let sz: i128 = (mz as i128) * (mz as i128);
    let s: i128 = sx + sy + sz;
    assert(s == raw_dot(mv, mv));
    if s > 0 {
        normalize3(mv)
    } else {
        normalize3(world_normal)
    }
}

/// Camera description: the combined view-projection matrix and the
/// camera's world position.
#[derive(Clone, Copy, Debug, PartialEq, Eq, Structural)]
pub struct ViewFx {
    pub view_proj: Mat4Fx,
    pub world_position: Vec3Fx,
}

/// The forward axis an orthographic projection encodes: the third row of
/// the view-projection matrix.
pub open spec fn ortho_forward_spec(vp: Mat4Fx) -> Vec3Fx {
    Vec3Fx { x: vp.x_axis.z, y: vp.y_axis.z, z: vp.z_axis.z }
}

/// The unit view vector of a fragment. Orthographic projections use the
/// matrix's forward axis, the same for every fragment; perspective
/// projections look from the fragment's world position toward the camera.
pub open spec fn calc_view_spec(view: ViewFx, world_position: Vec4Fx, is_orthographic: bool) -> Vec3Fx {
    if is_orthographic {
        normalize_v3_spec(ortho_forward_spec(view.view_proj))
    } else {
        normalize_v3_spec(
            Vec3Fx {
                x: (view.world_position.x - world_position.x) as i64,
                y: (view.world_position.y - world_position.y) as i64,
                z: (view.world_position.z - world_position.z) as i64,
            },
        )
    }
}

/// Compute the per-fragment view vector for either projection mode; the
/// conditional is evaluated anew for every fragment.
pub fn calculate_view(view: &ViewFx, world_position: Vec4Fx, is_orthographic: bool) -> (r: Vec3Fx)
    requires
        is_orthographic ==> v3_in(ortho_forward_spec(view.view_proj), VEC_LIM as int),
        is_orthographic ==> raw_dot(
            ortho_forward_spec(view.view_proj),
            ortho_forward_spec(view.view_proj),
        ) > 0,
        !is_orthographic ==> v3_in(view.world_position, POS_LIM as int),
        !is_orthographic ==> iabs(world_position.x as int) <= POS_LIM as int && iabs(
            world_position.y as int,
        ) <= POS_LIM as int && iabs(world_position.z as int) <= POS_LIM as int,
        !is_orthographic ==> !(view.world_position.x == world_position.x
            && view.world_position.y == world_position.y && view.world_position.z
            == world_position.z),
    ensures
        r == calc_view_spec(*view, world_position, is_orthographic),
        v3_in(r, FX_ONE as int),
{
    if is_orthographic {
        let forward = Vec3Fx {
            x: view.view_proj.x_axis.z,
            y: view.view_proj.y_axis.z,
            z: view.view_proj.z_axis.z,
        };
        normalize3(forward)
    } else {
        let diff = Vec3Fx {
            x: view.world_position.x - world_position.x,
            y: view.world_position.y - world_position.y,
            z: view.world_position.z - world_position.z,
        };
        proof {
            lemma_nonzero_raw_dot(diff);
        }
        normalize3(diff)
    }
}

/// A non-zero vector has a positive inner product with itself.
proof fn lemma_nonzero_raw_dot(v: Vec3Fx)
    by (nonlinear_arith)
    requires
        v.x != 0 || v.y != 0 || v.z != 0,
    ensures
        raw_dot(v, v) > 0,
{
}

/// Under an orthographic projection every fragment shares one view vector:
/// it depends on the projection matrix alone, never on world position.
pub proof fn lemma_ortho_view_uniform(view: ViewFx, p1: Vec4Fx, p2: Vec4Fx)
    ensures
        calc_view_spec(view, p1, true) == calc_view_spec(view, p2, true),
{
}

/// `d * d` has square-root floor `d`.
proof fn lemma_self_sqrt(d: int)
    by (nonlinear_arith)
    requires
        0 <= d,
    ensures
        is_sqrt_floor(d * d, d),
{
}

/// Dividing `d` scaled units by a length of `d` yields exactly one unit,
/// and dividing zero yields zero.
proof fn lemma_div_exact_unit(d: int)
    by (nonlinear_arith)
    requires
        0 < d,
    ensures
        fx_div_spec(d, d) == FX_ONE as int,
        fx_div_spec(0, d) == 0,
{
}

/// Under a perspective projection the view vector follows the fragment:
/// for any camera, a fragment displaced from it along the X axis and one
/// displaced along the Y axis see different view vectors.
pub proof fn lemma_persp_view_varies(view: ViewFx, p1: Vec4Fx, p2: Vec4Fx, d: i64)
    requires
        0 < d <= POS_LIM,
        v3_in(view.world_position, POS_LIM as int),
        p1.x == view.world_position.x - d && p1.y == view.world_position.y && p1.z
            == view.world_position.z,
        p2.x == view.world_position.x && p2.y == view.world_position.y - d && p2.z
            == view.world_position.z,
    ensures
        calc_view_spec(view, p1, false) != calc_view_spec(view, p2, false),
{
    let d1 = Vec3Fx { x: d, y: 0, z: 0 };
    let d2 = Vec3Fx { x: 0, y: d, z: 0 };
    assert(raw_dot(d1, d1) == (d as int) * (d as int));
    assert(raw_dot(d2, d2) == (d as int) * (d as int));
    lemma_self_sqrt(d as int);
    lemma_sqrt_floor_of((d as int) * (d as int), d as int);
    lemma_div_exact_unit(d as int);
    let v1 = calc_view_spec(view, p1, false);
    let v2 = calc_view_spec(view, p2, false);
    assert(v1.x == FX_ONE);
    assert(v2.x == 0);
}

/// The floored cosine `max(n . v, N_DOT_V_FLOOR)`.
pub open spec fn ndv_spec(n: Vec3Fx, v: Vec3Fx) -> int {
    if tdiv(raw_dot(n, v), FX_ONE as int) >= N_DOT_V_FLOOR {
        tdiv(raw_dot(n, v), FX_ONE as int)
    } else {
        N_DOT_V_FLOOR as int
    }
}

/// The clamped cosine between normal and view: `max(n . v, N_DOT_V_FLOOR)`.
/// The floor keeps every later BRDF division away from zero, whatever the
/// two vectors are — even near-perpendicular ones.
pub fn shading_n_dot_v(n: Vec3Fx, v: Vec3Fx) -> (r: i64)
    requires
        v3_in(n, FX_ONE as int),
        v3_in(v, FX_ONE as int),
    ensures
        r == ndv_spec(n, v),
        r >= N_DOT_V_FLOOR,
{
    let d: i64 = dot3(n, v);
    fx_max(d, N_DOT_V_FLOOR)
}

/// Fresnel reflectance at normal incidence, one channel:
/// `0.16 * reflectance^2 * (1 - metallic) + base * metallic`.
pub open spec fn f0_channel_spec(reflectance: int, metallic: int, base: int) -> int {
    fx_mul_spec(fx_mul_spec(160_000, fx_mul_spec(reflectance, reflectance)), FX_ONE - metallic)
        + fx_mul_spec(base, metallic)
}

/// Blend the dielectric reflectance term with the metallic base color.
pub fn compute_f0(reflectance: i64, metallic: i64, base: Vec3Fx) -> (r: Vec3Fx)
    requires
        crate::material::unit_scalar(reflectance as int),
        crate::material::unit_scalar(metallic as int),
        color_channel(base.x as int),
        color_channel(base.y as int),
        color_channel(base.z as int),
    ensures
        r.x == f0_channel_spec(reflectance as int, metallic as int, base.x as int),
        r.y == f0_channel_spec(reflectance as int, metallic as int, base.y as int),
        r.z == f0_channel_spec(reflectance as int, metallic as int, base.z as int),
        0 <= r.x <= COLOR_LIM + 160_000,
        0 <= r.y <= COLOR_LIM + 160_000,
        0 <= r.z <= COLOR_LIM + 160_000,
{
    proof {
        crate::fx::lemma_fx_mul_shrinks(reflectance as int, reflectance as int);
        crate::fx::lemma_fx_mul_shrinks(160_000, fx_mul_spec(reflectance as int, reflectance as int));
        crate::fx::lemma_fx_mul_shrinks(
            fx_mul_spec(160_000, fx_mul_spec(reflectance as int, reflectance as int)),
            FX_ONE - metallic as int,
        );
        crate::fx::lemma_fx_mul_shrinks(base.x as int, metallic as int);
        crate::fx::lemma_fx_mul_shrinks(base.y as int, metallic as int);
        crate::fx::lemma_fx_mul_shrinks(base.z as int, metallic as int);
    }
    let rr: i64 = fx_mul(reflectance, reflectance);
    let dielectric: i64 = fx_mul(fx_mul(160_000, rr), FX_ONE - metallic);
    Vec3Fx {
        x: dielectric + fx_mul(base.x, metallic),
        y: dielectric + fx_mul(base.y, metallic),
        z: dielectric + fx_mul(base.z, metallic),
    }
}

/// The diffuse albedo `base * (1 - metallic)`: a fully metallic surface
/// has exactly none, a pure dielectric keeps its full base color.
pub fn diffuse_color(base: Vec3Fx, metallic: i64) -> (r: Vec3Fx)
    requires
        crate::material::unit_scalar(metallic as int),
        color_channel(base.x as int),
        color_channel(base.y as int),
        color_channel(base.z as int),
    ensures
        r.x == fx_mul_spec(base.x as int, FX_ONE - metallic),
        r.y == fx_mul_spec(base.y as int, FX_ONE - metallic),
        r.z == fx_mul_spec(base.z as int, FX_ONE - metallic),
        0 <= r.x <= COLOR_LIM && 0 <= r.y <= COLOR_LIM && 0 <= r.z <= COLOR_LIM,
        metallic == FX_ONE ==> r.x == 0 && r.y == 0 && r.z == 0,
        metallic == 0 ==> r == base,
{
    proof {
        crate::fx::lemma_fx_mul_shrinks(base.x as int, FX_ONE - metallic as int);
        crate::fx::lemma_fx_mul_shrinks(base.y as int, FX_ONE - metallic as int);
        crate::fx::lemma_fx_mul_shrinks(base.z as int, FX_ONE - metallic as int);
        lemma_fx_mul_zero_one(base.x as int);
        lemma_fx_mul_zero_one(base.y as int);
        lemma_fx_mul_zero_one(base.z as int);
    }
    Vec3Fx {
        x: fx_mul(base.x, FX_ONE - metallic),
        y: fx_mul(base.y, FX_ONE - metallic),
        z: fx_mul(base.z, FX_ONE - metallic),
    }
}

/// The components of a cross product of unit-bounded vectors stay within
/// two units.
proof fn lemma_cross_bound(a: Vec3Fx, b: Vec3Fx)
    requires
        v3_in(a, FX_ONE as int),
        v3_in(b, FX_ONE as int),
    ensures
        iabs(tdiv((a.y as int) * (b.z as int) - (a.z as int) * (b.y as int), FX_ONE as int)) <= 2
            * FX_ONE as int,
        iabs(tdiv((a.z as int) * (b.x as int) - (a.x as int) * (b.z as int), FX_ONE as int)) <= 2
            * FX_ONE as int,
        iabs(tdiv((a.x as int) * (b.y as int) - (a.y as int) * (b.x as int), FX_ONE as int)) <= 2
            * FX_ONE as int,
{
    crate::vec::lemma_prod_bound(a.y as int, b.z as int, FX_ONE as int, FX_ONE as int);
    crate::vec::lemma_prod_bound(a.z as int, b.y as int, FX_ONE as int, FX_ONE as int);
    crate::vec::lemma_prod_bound(a.z as int, b.x as int, FX_ONE as int, FX_ONE as int);
    crate::vec::lemma_prod_bound(a.x as int, b.z as int, FX_ONE as int, FX_ONE as int);
    crate::vec::lemma_prod_bound(a.x as int, b.y as int, FX_ONE as int, FX_ONE as int);
    crate::vec::lemma_prod_bound(a.y as int, b.x as int, FX_ONE as int, FX_ONE as int);
    crate::fx::lemma_tdiv_bound((a.y as int) * (b.z as int) - (a.z as int) * (b.y as int),
        FX_ONE as int, 2 * FX_ONE as int);
    crate::fx::lemma_tdiv_bound((a.z as int) * (b.x as int) - (a.x as int) * (b.z as int),
        FX_ONE as int, 2 * FX_ONE as int);
    crate::fx::lemma_tdiv_bound((a.x as int) * (b.y as int) - (a.y as int) * (b.x as int),
        FX_ONE as int, 2 * FX_ONE as int);
    assert((2 * FX_ONE as int) * (FX_ONE as int) == 2_000_000_000_000int);
    assert((FX_ONE as int) * (FX_ONE as int) == 1_000_000_000_000int) by (nonlinear_arith);
}

} // verus!

