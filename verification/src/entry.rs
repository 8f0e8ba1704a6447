//! The demonstration shader entry points: a warping vertex stage that
//! projects into clip space and passes its attributes through, and a
//! fragment stage that paints a time-driven Oklab color blend. The
//! time-derived sine and cosine factors arrive as plain scalars.

use vstd::prelude::*;

use crate::fx::{fx_mul, fx_mul_spec, iabs, is_sqrt_floor, isqrt_u64, lemma_fx_mul_bound,
    lemma_sqrt_floor_of, sqrt_floor, FX_ONE, VEC_LIM};
use crate::post::{oklab_to_linear_srgb, oklab_to_linear_srgb_spec};
use crate::surface::ViewFx;
use crate::vec::{lerp3_spec, m4_in, mat4_mul_vec4, v3_lerp, v4_in, Vec3Fx, Vec4Fx};

verus! {

/// What the vertex stage hands the rasterizer: the projected clip position
/// and the untouched world attributes.
#[derive(Clone, Copy, Debug, PartialEq, Eq, Structural)]
pub struct VertexOutput {
    pub clip_position: Vec4Fx,
    pub world_position: Vec4Fx,
    pub world_normal: Vec3Fx,
    pub uv_x: i64,
    pub uv_y: i64,
}

/// Project a vertex into clip space and pass its world position, normal
/// and texture coordinates through unchanged.
pub fn vertex_warp(
    view: &ViewFx,
    in_position: Vec4Fx,
    in_normal: Vec3Fx,
    in_uv_x: i64,
    in_uv_y: i64,
) -> (r: VertexOutput)
    requires
        m4_in(view.view_proj, VEC_LIM as int),
        v4_in(in_position, VEC_LIM as int),
    ensures
        r.clip_position.x == crate::fx::tdiv(
            crate::vec::m4_raw_x(view.view_proj, in_position),
            FX_ONE as int,
        ),
        r.clip_position.y == crate::fx::tdiv(
            crate::vec::m4_raw_y(view.view_proj, in_position),
            FX_ONE as int,
        ),
        r.clip_position.z == crate::fx::tdiv(
            crate::vec::m4_raw_z(view.view_proj, in_position),
            FX_ONE as int,
        ),
        r.clip_position.w == crate::fx::tdiv(
            crate::vec::m4_raw_w(view.view_proj, in_position),
            FX_ONE as int,
        ),
        r.world_position == in_position,
        r.world_normal == in_normal,
        r.uv_x == in_uv_x && r.uv_y == in_uv_y,
{
    let clip = mat4_mul_vec4(&view.view_proj, in_position);
    VertexOutput {
        clip_position: clip,
        world_position: in_position,
        world_normal: in_normal,
        uv_x: in_uv_x,
        uv_y: in_uv_y,
    }
}

/// The same vertex stage as `vertex_warp`, exported a second time for the
/// colorful material variant.
pub fn vertex_warp_colorful(
    view: &ViewFx,
    in_position: Vec4Fx,
    in_normal: Vec3Fx,
    in_uv_x: i64,
    in_uv_y: i64,
) -> (r: VertexOutput)
    requires
        m4_in(view.view_proj, VEC_LIM as int),
        v4_in(in_position, VEC_LIM as int),
    ensures
        r.clip_position.x == crate::fx::tdiv(
            crate::vec::m4_raw_x(view.view_proj, in_position),
            FX_ONE as int,
        ),
        r.clip_position.y == crate::fx::tdiv(
            crate::vec::m4_raw_y(view.view_proj, in_position),
            FX_ONE as int,
        ),
        r.clip_position.z == crate::fx::tdiv(
            crate::vec::m4_raw_z(view.view_proj, in_position),
            FX_ONE as int,
        ),
        r.clip_position.w == crate::fx::tdiv(
            crate::vec::m4_raw_w(view.view_proj, in_position),
            FX_ONE as int,
        ),
        r.world_position == in_position,
        r.world_normal == in_normal,
        r.uv_x == in_uv_x && r.uv_y == in_uv_y,
{
    vertex_warp(view, in_position, in_normal, in_uv_x, in_uv_y)
}

/// The distance from a texture coordinate to the patch center, stretched
/// by one and two fifths.
pub open spec fn center_distance_spec(uv_x: i64, uv_y: i64) -> int {
    let dx = uv_x - 500_000;
    let dy = uv_y - 500_000;
    fx_mul_spec(sqrt_floor(dx * dx + dy * dy), 1_400_000)
}

/// The time-blended Oklab color the animated fragment stage paints:
/// red-to-blue by the sine factor, green-to-white by the cosine factor,
/// and the two blends mixed by the distance from the patch center.
pub open spec fn warp_color_spec(uv_x: i64, uv_y: i64, t_1: i64, t_2: i64) -> Vec3Fx {
    let red = Vec3Fx { x: 627_955, y: 224_863, z: 125_846 };
    let green = Vec3Fx { x: 866_440, y: -233_887i64, z: 179_498 };
    let blue = Vec3Fx { x: 701_674, y: 274_566, z: -169_156i64 };
    let white = Vec3Fx { x: FX_ONE, y: 0, z: 0 };
    let d = center_distance_spec(uv_x, uv_y) as i64;
    let mixed = lerp3_spec(lerp3_spec(red, blue, t_1), lerp3_spec(green, white, t_2), d);
    oklab_to_linear_srgb_spec(mixed)
}

/// Paint the animated fragment: blend four Oklab anchor colors by the
/// sine and cosine of the scaled time and by the distance from the patch
/// center, convert to linear sRGB, and emit with full alpha.
pub fn fragment_normal(uv_x: i64, uv_y: i64, t_1: i64, t_2: i64) -> (r: Vec4Fx)
    requires
        0 <= uv_x <= FX_ONE,
        0 <= uv_y <= FX_ONE,
        0 <= t_1 <= FX_ONE,
        -FX_ONE <= t_2 <= FX_ONE,
    ensures
        r.x == warp_color_spec(uv_x, uv_y, t_1, t_2).x,
        r.y == warp_color_spec(uv_x, uv_y, t_1, t_2).y,
        r.z == warp_color_spec(uv_x, uv_y, t_1, t_2).z,
        r.w == FX_ONE,
{
    let red = Vec3Fx { x: 627_955, y: 224_863, z: 125_846 };
    let green = Vec3Fx { x: 866_440, y: -233_887, z: 179_498 };
    let blue = Vec3Fx { x: 701_674, y: 274_566, z: -169_156 };
    let white = Vec3Fx { x: FX_ONE, y: 0, z: 0 };
    let dx: i64 = uv_x - 500_000;
    let dy: i64 = uv_y - 500_000;
    proof {
        assert(0 <= (dx as int) * (dx as int) <= 250_000_000_000 && 0 <= (dy as int) * (dy as int)
            <= 250_000_000_000) by (nonlinear_arith)
            requires
                -500_000i64 <= dx <= 500_000i64,
                -500_000i64 <= dy <= 500_000i64,
        ;
    }
    let raw: i64 = dx * dx + dy * dy;
    let dist: u64 = isqrt_u64(raw as u64);
    proof {
        lemma_sqrt_floor_of(raw as int, dist as int);
        assert((dist as int) * (dist as int) <= 500_000_000_000) by (nonlinear_arith)
            requires
                0 <= dist as int,
                is_sqrt_floor(raw as int, dist as int),
                raw <= 500_000_000_000i64,
        ;
        assert(dist <= 707_107) by (nonlinear_arith)
            requires
                0 <= dist as int,
                (dist as int) * (dist as int) <= 500_000_000_000,
        ;
        lemma_fx_mul_bound(dist as int, 1_400_000, 707_107, 1_400_000);
    }
    let d: i64 = fx_mul(dist as i64, 1_400_000);
    let inner_a = v3_lerp(red, blue, t_1);
    let inner_b = v3_lerp(green, white, t_2);
    proof {
        lemma_fx_mul_bound(blue.x - red.x, t_1 as int, 2_000_000, 1_000_000);
        lemma_fx_mul_bound(blue.y - red.y, t_1 as int, 2_000_000, 1_000_000);
        lemma_fx_mul_bound(blue.z - red.z, t_1 as int, 2_000_000, 1_000_000);
        lemma_fx_mul_bound(white.x - green.x, t_2 as int, 2_000_000, 1_000_000);
        lemma_fx_mul_bound(white.y - green.y, t_2 as int, 2_000_000, 1_000_000);
        lemma_fx_mul_bound(white.z - green.z, t_2 as int, 2_000_000, 1_000_000);
        assert(iabs(inner_a.x as int) <= 3_000_000 && iabs(inner_a.y as int) <= 3_000_000 && iabs(
            inner_a.z as int,
        ) <= 3_000_000);
        assert(iabs(inner_b.x as int) <= 3_000_000 && iabs(inner_b.y as int) <= 3_000_000 && iabs(
            inner_b.z as int,
        ) <= 3_000_000);
    }
    let mixed = v3_lerp(inner_a, inner_b, d);
    proof {
        lemma_fx_mul_bound(inner_b.x - inner_a.x, d as int, 6_000_000, 2_000_000);
        lemma_fx_mul_bound(inner_b.y - inner_a.y, d as int, 6_000_000, 2_000_000);
        lemma_fx_mul_bound(inner_b.z - inner_a.z, d as int, 6_000_000, 2_000_000);
        assert(iabs(mixed.x as int) <= 15_000_000 && iabs(mixed.y as int) <= 15_000_000 && iabs(
            mixed.z as int,
        ) <= 15_000_000);
    }
    let rgb = oklab_to_linear_srgb(mixed);
    Vec4Fx { x: rgb.x, y: rgb.y, z: rgb.z, w: FX_ONE }
}

/// The colorful fragment stage: the interpolated world position written
/// out as the color, untouched.
pub fn fragment_normal_colorful(in_world_position: Vec4Fx) -> (r: Vec4Fx)
    ensures
        r == in_world_position,
{
    in_world_position
}

} // verus!
