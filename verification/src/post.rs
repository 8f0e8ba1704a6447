//! Post-processing, applied strictly after aggregation: luminance-
//! preserving Reinhard tone mapping and screen-space dithering, each
//! passing alpha through untouched.

use vstd::prelude::*;

use crate::fx::{fx_div, fx_div_spec, fx_mul, fx_mul_spec, iabs, lemma_fx_mul_bound, tdiv, FX_LIM,
    FX_ONE};
use crate::vec::{Vec3Fx, Vec4Fx};

verus! {

/// The luminance of an RGB color, under the usual BT.709 weights.
pub open spec fn luminance_spec(c: Vec3Fx) -> int {
    fx_mul_spec(c.x as int, 212_600) + fx_mul_spec(c.y as int, 715_200) + fx_mul_spec(
        c.z as int,
        72_200,
    )
}

/// Luminance-preserving Reinhard: every channel divided by one plus the
/// color's luminance.
pub open spec fn tone_map_spec(c: Vec4Fx) -> Vec4Fx {
    let l = luminance_spec(Vec3Fx { x: c.x, y: c.y, z: c.z });
    Vec4Fx {
        x: fx_div_spec(c.x as int, FX_ONE + l) as i64,
        y: fx_div_spec(c.y as int, FX_ONE + l) as i64,
        z: fx_div_spec(c.z as int, FX_ONE + l) as i64,
        w: c.w,
    }
}

/// Compress an HDR color into displayable range; alpha passes through.
pub fn tone_mapping(input: Vec4Fx) -> (r: Vec4Fx)
    requires
        0 <= input.x <= FX_LIM,
        0 <= input.y <= FX_LIM,
        0 <= input.z <= FX_LIM,
    ensures
        r == tone_map_spec(input),
        r.w == input.w,
{
    proof {
        lemma_fx_mul_bound(input.x as int, 212_600, FX_LIM as int, 212_600);
        lemma_fx_mul_bound(input.y as int, 715_200, FX_LIM as int, 715_200);
        lemma_fx_mul_bound(input.z as int, 72_200, FX_LIM as int, 72_200);
        crate::fx::lemma_fx_mul_nonneg(input.x as int, 212_600);
        crate::fx::lemma_fx_mul_nonneg(input.y as int, 715_200);
        crate::fx::lemma_fx_mul_nonneg(input.z as int, 72_200);
    }
    let lx: i64 = fx_mul(input.x, 212_600);
    let ly: i64 = fx_mul(input.y, 715_200);
    let lz: i64 = fx_mul(input.z, 72_200);
    let l: i64 = lx + ly + lz;
    Vec4Fx {
        x: fx_div(input.x, FX_ONE + l),
        y: fx_div(input.y, FX_ONE + l),
        z: fx_div(input.z, FX_ONE + l),
        w: input.w,
    }
}

/// The per-channel dither offset seeded by the fragment's screen position:
/// a gradient pattern folded at three coprime periods, centered and scaled
/// down to under half a quantization step.
pub open spec fn dither_offset_spec(pos_x: i64, pos_y: i64) -> (int, int, int) {
    let d = 171 * pos_x + 231 * pos_y;
    let mx = tdiv(d, 103) % (FX_ONE as int);
    let my = tdiv(d, 71) % (FX_ONE as int);
    let mz = tdiv(d, 97) % (FX_ONE as int);
    (tdiv(mx - 500_000, 255), tdiv(my - 500_000, 255), tdiv(mz - 500_000, 255))
}

/// One folded channel of the dither pattern.
fn dither_channel(d: u64, period: u64) -> (r: i64)
    requires
        period > 0,
        d <= 0x8000_0000_0000_0000u64,
    ensures
        r == tdiv(tdiv(d as int, period as int) % (FX_ONE as int) - 500_000, 255),
        -1_961 <= r <= 1_961,
{
    let m: u64 = (d / period) % 1_000_000;
    assert(m == tdiv(d as int, period as int) % (FX_ONE as int));
    if m >= 500_000 {
        let q: u64 = (m - 500_000) / 255;
        assert(q == tdiv(m - 500_000, 255));
        assert(q <= 1_961);
        q as i64
    } else {
        let neg: u64 = (500_000 - m) / 255;
        assert(neg == (500_000 - m) / 255);
        assert(neg <= 1_961);
        assert(-(neg as int) == tdiv(m - 500_000, 255));
        -(neg as i64)
    }
}

/// Add the screen-space dither pattern to RGB before quantization; alpha
/// passes through.
pub fn dither(color: Vec4Fx, pos_x: i64, pos_y: i64) -> (r: Vec4Fx)
    requires
        0 <= pos_x <= FX_LIM,
        0 <= pos_y <= FX_LIM,
        -FX_LIM <= color.x <= FX_LIM,
        -FX_LIM <= color.y <= FX_LIM,
        -FX_LIM <= color.z <= FX_LIM,
    ensures
        r.x == color.x + dither_offset_spec(pos_x, pos_y).0,
        r.y == color.y + dither_offset_spec(pos_x, pos_y).1,
        r.z == color.z + dither_offset_spec(pos_x, pos_y).2,
        r.w == color.w,
{
    let d: i64 = 171 * pos_x + 231 * pos_y;
    let du: u64 = d as u64;
    assert(du == 171 * pos_x + 231 * pos_y);
    let ox: i64 = dither_channel(du, 103);
    let oy: i64 = dither_channel(du, 71);
    let oz: i64 = dither_channel(du, 97);
    proof {
        assert(ox == dither_offset_spec(pos_x, pos_y).0);
        assert(oy == dither_offset_spec(pos_x, pos_y).1);
        assert(oz == dither_offset_spec(pos_x, pos_y).2);
    }
    Vec4Fx { x: color.x + ox, y: color.y + oy, z: color.z + oz, w: color.w }
}

/// One cubed intermediate of the Oklab conversion.
pub open spec fn cube_spec(a: int) -> int {
    fx_mul_spec(fx_mul_spec(a, a), a)
}

/// The Oklab-to-linear-sRGB conversion: two fixed matrices around a
/// per-channel cube.
pub open spec fn oklab_to_linear_srgb_spec(c: Vec3Fx) -> Vec3Fx {
    let lp = c.x + fx_mul_spec(396_338, c.y as int) + fx_mul_spec(215_804, c.z as int);
    let mp = c.x - fx_mul_spec(105_561, c.y as int) - fx_mul_spec(63_854, c.z as int);
    let sp = c.x - fx_mul_spec(89_484, c.y as int) - fx_mul_spec(1_291_486, c.z as int);
    let l = cube_spec(lp);
    let m = cube_spec(mp);
    let s = cube_spec(sp);
    Vec3Fx {
        x: (fx_mul_spec(4_076_742, l) - fx_mul_spec(3_307_712, m) + fx_mul_spec(230_970, s)) as i64,
        y: (-fx_mul_spec(1_268_438, l) + fx_mul_spec(2_609_757, m) - fx_mul_spec(341_319, s)) as i64,
        z: (-fx_mul_spec(4_196, l) - fx_mul_spec(703_419, m) + fx_mul_spec(1_707_615, s)) as i64,
    }
}

/// Convert an Oklab color to linear sRGB.
pub fn oklab_to_linear_srgb(c: Vec3Fx) -> (r: Vec3Fx)
    requires
        -16_000_000 <= c.x <= 16_000_000,
        -16_000_000 <= c.y <= 16_000_000,
        -16_000_000 <= c.z <= 16_000_000,
    ensures
        r == oklab_to_linear_srgb_spec(c),
{
    proof {
        lemma_fx_mul_bound(396_338, c.y as int, 396_338, 16_000_000);
        lemma_fx_mul_bound(215_804, c.z as int, 215_804, 16_000_000);
        lemma_fx_mul_bound(105_561, c.y as int, 105_561, 16_000_000);
        lemma_fx_mul_bound(63_854, c.z as int, 63_854, 16_000_000);
        lemma_fx_mul_bound(89_484, c.y as int, 89_484, 16_000_000);
        lemma_fx_mul_bound(1_291_486, c.z as int, 1_291_486, 16_000_000);
    }
    let lp: i64 = c.x + fx_mul(396_338, c.y) + fx_mul(215_804, c.z);
    let mp: i64 = c.x - fx_mul(105_561, c.y) - fx_mul(63_854, c.z);
    let sp: i64 = c.x - fx_mul(89_484, c.y) - fx_mul(1_291_486, c.z);
    let l: i64 = cube(lp);
    let m: i64 = cube(mp);
    let s: i64 = cube(sp);
    proof {
        lemma_fx_mul_bound(4_076_742, l as int, 4_076_742, 64_000_000_000);
        lemma_fx_mul_bound(3_307_712, m as int, 3_307_712, 64_000_000_000);
        lemma_fx_mul_bound(230_970, s as int, 230_970, 64_000_000_000);
        lemma_fx_mul_bound(1_268_438, l as int, 1_268_438, 64_000_000_000);
        lemma_fx_mul_bound(2_609_757, m as int, 2_609_757, 64_000_000_000);
        lemma_fx_mul_bound(341_319, s as int, 341_319, 64_000_000_000);
        lemma_fx_mul_bound(4_196, l as int, 4_196, 64_000_000_000);
        lemma_fx_mul_bound(703_419, m as int, 703_419, 64_000_000_000);
        lemma_fx_mul_bound(1_707_615, s as int, 1_707_615, 64_000_000_000);
    }
    Vec3Fx {
        x: fx_mul(4_076_742, l) - fx_mul(3_307_712, m) + fx_mul(230_970, s),
        y: -fx_mul(1_268_438, l) + fx_mul(2_609_757, m) - fx_mul(341_319, s),
        z: -fx_mul(4_196, l) - fx_mul(703_419, m) + fx_mul(1_707_615, s),
    }
}

/// Cube a scalar of at most forty units.
fn cube(a: i64) -> (r: i64)
    requires
        -40_000_000 <= a <= 40_000_000,
    ensures
        r == cube_spec(a as int),
        -64_000_000_000 <= r <= 64_000_000_000,
{
    proof {
        lemma_fx_mul_bound(a as int, a as int, 40_000_000, 40_000_000);
        assert(iabs(fx_mul_spec(a as int, a as int)) * 1_000_000 <= 1_600_000_000_000_000);
        assert(iabs(fx_mul_spec(a as int, a as int)) <= 1_600_000_000);
        lemma_fx_mul_bound(fx_mul_spec(a as int, a as int), a as int, 1_600_000_000, 40_000_000);
        assert(iabs(cube_spec(a as int)) * 1_000_000 <= 64_000_000_000_000_000);
        assert(iabs(cube_spec(a as int)) <= 64_000_000_000);
    }
    fx_mul(fx_mul(a, a), a)
}

} // verus!
