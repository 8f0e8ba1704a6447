//! End-to-end tests of the fixed-point shading pipeline: one unit is
//! 1_000_000.

use pbr_shade::fx::{fx_clamp, fx_div, fx_max, fx_mul, isqrt_u64, FX_ONE};
use pbr_shade::material::{
    StandardMaterial, MATERIAL_FLAGS_ALPHA_MODE_MASK, MATERIAL_FLAGS_ALPHA_MODE_OPAQUE,
};
use pbr_shade::surface::{
    alpha_discard, calculate_view, compute_f0, diffuse_color, prepare_world_normal,
    reconstruct_normal_z, shading_n_dot_v, ViewFx,
};
use pbr_shade::vec::{
    cross3, dot3, mat4_mul_vec4, normalize3, reflect_dir, v3_lerp, Mat4Fx, Vec3Fx, Vec4Fx,
};

fn unit_material() -> StandardMaterial {
    StandardMaterial {
        base_color: Vec4Fx { x: FX_ONE, y: FX_ONE, z: FX_ONE, w: FX_ONE },
        emissive: Vec4Fx { x: 0, y: 0, z: 0, w: FX_ONE },
        perceptual_roughness: FX_ONE,
        metallic: 0,
        reflectance: 500_000,
        flags: MATERIAL_FLAGS_ALPHA_MODE_OPAQUE,
        alpha_cutoff: 500_000,
    }
}

#[test]
fn opaque_forces_alpha_to_one() {
    let mut m = unit_material();
    m.flags = MATERIAL_FLAGS_ALPHA_MODE_OPAQUE;
    let c = Vec4Fx { x: 100_000, y: 200_000, z: 300_000, w: 250_000 };
    let out = alpha_discard(&m, c).expect("opaque fragments are never discarded");
    assert_eq!(out.w, FX_ONE);
    assert_eq!(out.x, 100_000);
    assert_eq!(out.y, 200_000);
    assert_eq!(out.z, 300_000);
}

#[test]
fn masked_below_cutoff_discards() {
    let mut m = unit_material();
    m.flags = MATERIAL_FLAGS_ALPHA_MODE_MASK;
    m.alpha_cutoff = 500_000;
    let c = Vec4Fx { x: 0, y: 0, z: 0, w: 400_000 };
    assert!(alpha_discard(&m, c).is_none());
}

#[test]
fn masked_at_or_above_cutoff_is_opaque() {
    let mut m = unit_material();
    m.flags = MATERIAL_FLAGS_ALPHA_MODE_MASK;
    m.alpha_cutoff = 500_000;
    let c = Vec4Fx { x: 0, y: 0, z: 0, w: 600_000 };
    assert_eq!(alpha_discard(&m, c).unwrap().w, FX_ONE);
    let exact = Vec4Fx { x: 0, y: 0, z: 0, w: 500_000 };
    assert_eq!(alpha_discard(&m, exact).unwrap().w, FX_ONE);
}

#[test]
fn blend_mode_passes_alpha_through() {
    let mut m = unit_material();
    m.flags = 0;
    let c = Vec4Fx { x: 1, y: 2, z: 3, w: 250_000 };
    assert_eq!(alpha_discard(&m, c).unwrap(), c);
}

#[test]
fn n_dot_v_is_floored_for_perpendicular_vectors() {
    let n = Vec3Fx { x: 0, y: 0, z: FX_ONE };
    let v = Vec3Fx { x: FX_ONE, y: 0, z: 0 };
    assert_eq!(shading_n_dot_v(n, v), 100);
    let behind = Vec3Fx { x: 0, y: 0, z: -FX_ONE };
    assert_eq!(shading_n_dot_v(n, behind), 100);
    assert_eq!(shading_n_dot_v(n, n), FX_ONE);
}

#[test]
fn diffuse_vanishes_for_metal_and_keeps_base_for_dielectric() {
    let base = Vec3Fx { x: FX_ONE, y: 500_000, z: 250_000 };
    let metal = diffuse_color(base, FX_ONE);
    assert_eq!((metal.x, metal.y, metal.z), (0, 0, 0));
    let dielectric = diffuse_color(base, 0);
    assert_eq!(dielectric, base);
}

#[test]
fn f0_blends_reflectance_and_base() {
    let base = Vec3Fx { x: FX_ONE, y: FX_ONE, z: FX_ONE };
    let f0 = compute_f0(500_000, 0, base);
    assert_eq!((f0.x, f0.y, f0.z), (40_000, 40_000, 40_000));
    let metal_f0 = compute_f0(500_000, FX_ONE, base);
    assert_eq!((metal_f0.x, metal_f0.y, metal_f0.z), (FX_ONE, FX_ONE, FX_ONE));
}

fn forward_view() -> ViewFx {
    ViewFx {
        view_proj: Mat4Fx {
            x_axis: Vec4Fx { x: FX_ONE, y: 0, z: 0, w: 0 },
            y_axis: Vec4Fx { x: 0, y: FX_ONE, z: 0, w: 0 },
            z_axis: Vec4Fx { x: 0, y: 0, z: 2_000_000, w: 0 },
            w_axis: Vec4Fx { x: 0, y: 0, z: 0, w: FX_ONE },
        },
        world_position: Vec3Fx { x: 0, y: 0, z: 0 },
    }
}

#[test]
fn orthographic_view_ignores_world_position() {
    let view = forward_view();
    let p1 = Vec4Fx { x: 7_000_000, y: -3_000_000, z: 250_000, w: FX_ONE };
    let p2 = Vec4Fx { x: -9_000_000, y: 4_000_000, z: 11_000_000, w: FX_ONE };
    let v1 = calculate_view(&view, p1, true);
    let v2 = calculate_view(&view, p2, true);
    assert_eq!(v1, v2);
    assert_eq!(v1, Vec3Fx { x: 0, y: 0, z: FX_ONE });
}

#[test]
fn perspective_view_follows_world_position() {
    let view = forward_view();
    let p1 = Vec4Fx { x: -FX_ONE, y: 0, z: 0, w: FX_ONE };
    let p2 = Vec4Fx { x: 0, y: -FX_ONE, z: 0, w: FX_ONE };
    let v1 = calculate_view(&view, p1, false);
    let v2 = calculate_view(&view, p2, false);
    assert_eq!(v1, Vec3Fx { x: FX_ONE, y: 0, z: 0 });
    assert_eq!(v2, Vec3Fx { x: 0, y: FX_ONE, z: 0 });
    assert_ne!(v1, v2);
}

#[test]
fn normal_flips_only_on_double_sided_back_faces() {
    let n = Vec3Fx { x: 100, y: -200, z: 300 };
    assert_eq!(prepare_world_normal(n, true, true, false), n);
    assert_eq!(prepare_world_normal(n, false, false, false), n);
    let flipped = prepare_world_normal(n, true, false, false);
    assert_eq!(flipped, Vec3Fx { x: -100, y: 200, z: -300 });
    assert_eq!(prepare_world_normal(n, true, false, true), n);
}

#[test]
fn z_reconstruction_is_real_and_non_negative() {
    assert_eq!(reconstruct_normal_z(0, 0), FX_ONE);
    assert_eq!(reconstruct_normal_z(600_000, 800_000), 0);
    assert_eq!(reconstruct_normal_z(600_000, 0), 800_000);
    assert_eq!(reconstruct_normal_z(-600_000, 0), 800_000);
    assert!(reconstruct_normal_z(999_999, 0) >= 0);
}

#[test]
fn vector_algebra_matches_hand_calculation() {
    let a = Vec3Fx { x: 1_000_000, y: 2_000_000, z: 3_000_000 };
    let b = Vec3Fx { x: 4_000_000, y: 5_000_000, z: 6_000_000 };
    assert_eq!(dot3(a, b), 32_000_000);
    let ex = Vec3Fx { x: FX_ONE, y: 0, z: 0 };
    let ey = Vec3Fx { x: 0, y: FX_ONE, z: 0 };
    assert_eq!(cross3(ex, ey), Vec3Fx { x: 0, y: 0, z: FX_ONE });
    let v = Vec3Fx { x: 3_000_000, y: 4_000_000, z: 0 };
    assert_eq!(normalize3(v), Vec3Fx { x: 600_000, y: 800_000, z: 0 });
}

#[test]
fn reflection_mirrors_the_view_vector() {
    let up = Vec3Fx { x: 0, y: 0, z: FX_ONE };
    assert_eq!(reflect_dir(up, up), up);
    let v = Vec3Fx { x: FX_ONE, y: 0, z: 0 };
    assert_eq!(reflect_dir(v, up), Vec3Fx { x: -FX_ONE, y: 0, z: 0 });
}

#[test]
fn lerp_hits_both_endpoints() {
    let a = Vec3Fx { x: 100_000, y: 200_000, z: 300_000 };
    let b = Vec3Fx { x: 500_000, y: 400_000, z: -300_000 };
    assert_eq!(v3_lerp(a, b, 0), a);
    assert_eq!(v3_lerp(a, b, FX_ONE), b);
    let mid = v3_lerp(a, b, 500_000);
    assert_eq!(mid, Vec3Fx { x: 300_000, y: 300_000, z: 0 });
}

#[test]
fn matrix_identity_preserves_vectors() {
    let view = forward_view();
    let p = Vec4Fx { x: 10_000, y: -20_000, z: 30_000, w: FX_ONE };
    let r = mat4_mul_vec4(&view.view_proj, p);
    assert_eq!(r, Vec4Fx { x: 10_000, y: -20_000, z: 60_000, w: FX_ONE });
}

#[test]
fn default_input_matches_the_documented_defaults() {
    let d = pbr_shade::material::PbrInput::default();
    assert_eq!(d.occlusion, FX_ONE);
    assert_eq!(d.frag_coord, Vec4Fx { x: 0, y: 0, z: 0, w: FX_ONE });
    assert_eq!(d.world_position, Vec4Fx { x: 0, y: 0, z: 0, w: FX_ONE });
    assert_eq!(d.world_normal, Vec3Fx { x: 0, y: 0, z: FX_ONE });
    assert_eq!(d.n, Vec3Fx { x: 0, y: 0, z: FX_ONE });
    assert_eq!(d.v, Vec3Fx { x: FX_ONE, y: 0, z: 0 });
    assert!(!d.is_orthographic);
    let m = StandardMaterial::default();
    assert_eq!(m.flags, MATERIAL_FLAGS_ALPHA_MODE_OPAQUE);
    assert_eq!(m.base_color, Vec4Fx { x: FX_ONE, y: FX_ONE, z: FX_ONE, w: FX_ONE });
    assert_eq!(m.emissive, Vec4Fx { x: 0, y: 0, z: 0, w: FX_ONE });
}

#[test]
fn scalar_arithmetic_truncates_toward_zero() {
    assert_eq!(fx_mul(1_500_000, 500_000), 750_000);
    assert_eq!(fx_mul(-1_500_000, 500_000), -750_000);
    assert_eq!(fx_mul(-1, 1), 0);
    assert_eq!(fx_div(1, 3), 333_333);
    assert_eq!(fx_div(-1_000_000, 3_000_000), -333_333);
    assert_eq!(fx_max(-5, 3), 3);
    assert_eq!(fx_clamp(2_000_000, 0, FX_ONE), FX_ONE);
    assert_eq!(isqrt_u64(0), 0);
    assert_eq!(isqrt_u64(3), 1);
    assert_eq!(isqrt_u64(4), 2);
    assert_eq!(isqrt_u64(u64::MAX), 4_294_967_295);
}
