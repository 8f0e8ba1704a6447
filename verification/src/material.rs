//! Material parameters and the per-fragment shading input record.

use vstd::prelude::*;

use crate::fx::FX_ONE;
use crate::vec::{v3_in, Vec3Fx, Vec4Fx};

verus! {

/// Alpha is ignored and forced opaque.
pub const MATERIAL_FLAGS_ALPHA_MODE_OPAQUE: u32 = 64;

/// Alpha is compared against the cutoff; failing fragments are discarded.
pub const MATERIAL_FLAGS_ALPHA_MODE_MASK: u32 = 128;

/// The normal map stores only two components; Z is reconstructed.
pub const MATERIAL_FLAGS_TWO_COMPONENT_NORMAL_MAP: u32 = 512;

/// The normal map was authored for DirectX; its Y component is flipped.
pub const MATERIAL_FLAGS_FLIP_NORMAL_MAP_Y: u32 = 1024;

/// The mesh receives shadows.
pub const MESH_FLAGS_SHADOW_RECEIVER_BIT: u32 = 1;

/// Largest magnitude allowed for a color channel (sixteen units of HDR
/// headroom).
pub const COLOR_LIM: i64 = 16_000_000;

/// Per-fragment material parameters.
#[derive(Clone, Copy, Debug, PartialEq, Eq, Structural)]
pub struct StandardMaterial {
    pub base_color: Vec4Fx,
    pub emissive: Vec4Fx,
    pub perceptual_roughness: i64,
    pub metallic: i64,
    pub reflectance: i64,
    pub flags: u32,
    pub alpha_cutoff: i64,
}

/// A scalar lies in the unit interval `[0, FX_ONE]`.
pub open spec fn unit_scalar(a: int) -> bool {
    0 <= a <= FX_ONE
}

/// A color channel lies in `[0, COLOR_LIM]`.
pub open spec fn color_channel(a: int) -> bool {
    0 <= a <= COLOR_LIM
}

/// All four channels of a color are in range.
pub open spec fn color_wf(c: Vec4Fx) -> bool {
    color_channel(c.x as int) && color_channel(c.y as int) && color_channel(c.z as int)
        && color_channel(c.w as int)
}

/// Well-formed material: every scalar parameter in its documented range;
/// the base alpha in particular stays within one unit, so the output alpha
/// can too.
pub open spec fn material_wf(m: StandardMaterial) -> bool {
    color_wf(m.base_color) && unit_scalar(m.base_color.w as int) && color_wf(m.emissive)
        && unit_scalar(m.perceptual_roughness as int)
        && unit_scalar(m.metallic as int) && unit_scalar(m.reflectance as int) && unit_scalar(
        m.alpha_cutoff as int)
}

impl StandardMaterial {
    /// The engine's default material: white base color, black emissive,
    /// slightly rough dielectric, rendered opaque.
    pub fn default_material() -> (r: StandardMaterial)
        ensures
            r.base_color == (Vec4Fx { x: FX_ONE, y: FX_ONE, z: FX_ONE, w: FX_ONE }),
            r.emissive == (Vec4Fx { x: 0, y: 0, z: 0, w: FX_ONE }),
            r.perceptual_roughness == 89_000i64,
            r.metallic == 10_000i64,
            r.reflectance == 500_000i64,
            r.flags == MATERIAL_FLAGS_ALPHA_MODE_OPAQUE,
            r.alpha_cutoff == 500_000i64,
            material_wf(r),
    {
        StandardMaterial {
            base_color: Vec4Fx { x: FX_ONE, y: FX_ONE, z: FX_ONE, w: FX_ONE },
            emissive: Vec4Fx { x: 0, y: 0, z: 0, w: FX_ONE },
            perceptual_roughness: 89_000,
            metallic: 10_000,
            reflectance: 500_000,
            flags: MATERIAL_FLAGS_ALPHA_MODE_OPAQUE,
            alpha_cutoff: 500_000,
        }
    }
}

impl Default for StandardMaterial {
    /// The engine's default material, as `default_material` builds it.
    fn default() -> (r: StandardMaterial)
        ensures
            r.base_color == (Vec4Fx { x: FX_ONE, y: FX_ONE, z: FX_ONE, w: FX_ONE }),
            r.emissive == (Vec4Fx { x: 0, y: 0, z: 0, w: FX_ONE }),
            r.flags == MATERIAL_FLAGS_ALPHA_MODE_OPAQUE,
            material_wf(r),
    {
        StandardMaterial::default_material()
    }
}

/// Everything one fragment needs for shading.
#[derive(Clone, Copy, Debug, PartialEq, Eq, Structural)]
pub struct PbrInput {
    pub material: StandardMaterial,
    pub occlusion: i64,
    pub frag_coord: Vec4Fx,
    pub world_position: Vec4Fx,
    /// Unit world normal, used for shadowing; never normal-mapped.
    pub world_normal: Vec3Fx,
    /// Unit shading normal, possibly normal-mapped.
    pub n: Vec3Fx,
    /// Unit view vector, from the surface toward the camera.
    pub v: Vec3Fx,
    pub is_orthographic: bool,
}

/// Well-formed shading input: material in range, occlusion in the unit
/// interval, direction vectors no longer than one unit per component.
pub open spec fn pbr_input_wf(i: PbrInput) -> bool {
    material_wf(i.material) && unit_scalar(i.occlusion as int) && v3_in(i.n, FX_ONE as int)
        && v3_in(i.v, FX_ONE as int) && v3_in(i.world_normal, FX_ONE as int)
}

impl PbrInput {
    /// The default shading input: default material, full occlusion, a
    /// fragment at the origin facing `+Z` viewed from `+X`.
    pub fn default_input() -> (r: PbrInput)
        ensures
            r.material == (StandardMaterial {
                base_color: Vec4Fx { x: FX_ONE, y: FX_ONE, z: FX_ONE, w: FX_ONE },
                emissive: Vec4Fx { x: 0, y: 0, z: 0, w: FX_ONE },
                perceptual_roughness: 89_000,
                metallic: 10_000,
                reflectance: 500_000,
                flags: MATERIAL_FLAGS_ALPHA_MODE_OPAQUE,
                alpha_cutoff: 500_000,
            }),
            r.occlusion == FX_ONE,
            r.frag_coord == (Vec4Fx { x: 0, y: 0, z: 0, w: FX_ONE }),
            r.world_position == (Vec4Fx { x: 0, y: 0, z: 0, w: FX_ONE }),
            r.world_normal == (Vec3Fx { x: 0, y: 0, z: FX_ONE }),
            r.n == (Vec3Fx { x: 0, y: 0, z: FX_ONE }),
            r.v == (Vec3Fx { x: FX_ONE, y: 0, z: 0 }),
            !r.is_orthographic,
            pbr_input_wf(r),
    {
        PbrInput {
            material: StandardMaterial::default_material(),
            occlusion: FX_ONE,
            frag_coord: Vec4Fx { x: 0, y: 0, z: 0, w: FX_ONE },
            world_position: Vec4Fx { x: 0, y: 0, z: 0, w: FX_ONE },
            world_normal: Vec3Fx { x: 0, y: 0, z: FX_ONE },
            n: Vec3Fx { x: 0, y: 0, z: FX_ONE },
            v: Vec3Fx { x: FX_ONE, y: 0, z: 0 },
            is_orthographic: false,
        }
    }
}

impl Default for PbrInput {
    /// The default shading input, as `default_input` builds it.
    fn default() -> (r: PbrInput)
        ensures
            r.occlusion == FX_ONE,
            r.world_normal == (Vec3Fx { x: 0, y: 0, z: FX_ONE }),
            r.n == (Vec3Fx { x: 0, y: 0, z: FX_ONE }),
            r.v == (Vec3Fx { x: FX_ONE, y: 0, z: 0 }),
            !r.is_orthographic,
            pbr_input_wf(r),
    {
        PbrInput::default_input()
    }
}

} // verus!
