//! Tests of the full aggregator, the cluster slicing and the
//! post-processing stages.

use pbr_shade::clusters::{get_light_id, unpack_offset_and_counts};
use pbr_shade::entry::{fragment_normal, fragment_normal_colorful, vertex_warp,
    vertex_warp_colorful};
use pbr_shade::fx::FX_ONE;
use pbr_shade::lights::{
    perceptual_roughness_to_roughness, DirectionalLightFx, LightsFx, PointLightFx,
};
use pbr_shade::material::{
    PbrInput, StandardMaterial, MATERIAL_FLAGS_ALPHA_MODE_MASK, MATERIAL_FLAGS_ALPHA_MODE_OPAQUE,
    MESH_FLAGS_SHADOW_RECEIVER_BIT,
};
use pbr_shade::pbr::{pbr, ShadowsFx};
use pbr_shade::post::{dither, oklab_to_linear_srgb, tone_mapping};
use pbr_shade::surface::ViewFx;
use pbr_shade::vec::{Mat4Fx, Vec3Fx, Vec4Fx};

fn white_material() -> StandardMaterial {
    StandardMaterial {
        base_color: Vec4Fx { x: FX_ONE, y: FX_ONE, z: FX_ONE, w: FX_ONE },
        emissive: Vec4Fx { x: 0, y: 0, z: 0, w: FX_ONE },
        perceptual_roughness: FX_ONE,
        metallic: 0,
        reflectance: 500_000,
        flags: MATERIAL_FLAGS_ALPHA_MODE_OPAQUE,
        alpha_cutoff: 500_000,
    }
}

fn fragment_input(material: StandardMaterial) -> PbrInput {
    PbrInput {
        material,
        occlusion: FX_ONE,
        frag_coord: Vec4Fx { x: 0, y: 0, z: 0, w: FX_ONE },
        world_position: Vec4Fx { x: 0, y: 0, z: 0, w: FX_ONE },
        world_normal: Vec3Fx { x: 0, y: 0, z: FX_ONE },
        n: Vec3Fx { x: 0, y: 0, z: FX_ONE },
        v: Vec3Fx { x: 0, y: 0, z: FX_ONE },
        is_orthographic: false,
    }
}

fn no_lights() -> LightsFx {
    LightsFx {
        directional_lights: Vec::new(),
        ambient_color: Vec4Fx { x: 0, y: 0, z: 0, w: FX_ONE },
        n_directional_lights: 0,
    }
}

fn overhead_point_light() -> PointLightFx {
    PointLightFx {
        position: Vec3Fx { x: 0, y: 0, z: FX_ONE },
        color: Vec3Fx { x: 2_000_000, y: 2_000_000, z: 2_000_000 },
        range: 2_000_000,
        spot_direction: Vec3Fx { x: 0, y: 0, z: -FX_ONE },
        spot_cos_inner: 900_000,
        spot_cos_outer: 500_000,
        flags: 0,
    }
}

fn empty_shadows(n_point: usize, n_dir: usize) -> ShadowsFx {
    ShadowsFx {
        point: vec![FX_ONE; n_point],
        spot: vec![FX_ONE; n_point],
        directional: vec![FX_ONE; n_dir],
    }
}

#[test]
fn no_lights_and_no_ambient_leaves_emissive_times_alpha() {
    let mut m = white_material();
    m.emissive = Vec4Fx { x: 300_000, y: 200_000, z: 100_000, w: FX_ONE };
    let lights = no_lights();
    let point_lights: Vec<PointLightFx> = Vec::new();
    let list: Vec<u32> = Vec::new();
    let clusters: Vec<u32> = vec![0];
    let shadows = empty_shadows(0, 0);
    let out = pbr(0, &lights, &point_lights, &list, &clusters, 0, &shadows, fragment_input(m))
        .expect("opaque fragments are never discarded");
    assert_eq!(out, Vec4Fx { x: 300_000, y: 200_000, z: 100_000, w: FX_ONE });
}

#[test]
fn masked_fragment_below_cutoff_produces_no_output() {
    let mut m = white_material();
    m.flags = MATERIAL_FLAGS_ALPHA_MODE_MASK;
    m.base_color.w = 250_000;
    let lights = no_lights();
    let point_lights: Vec<PointLightFx> = Vec::new();
    let list: Vec<u32> = Vec::new();
    let clusters: Vec<u32> = vec![0];
    let shadows = empty_shadows(0, 0);
    let out = pbr(0, &lights, &point_lights, &list, &clusters, 0, &shadows, fragment_input(m));
    assert!(out.is_none());
}

#[test]
fn one_point_light_overhead_lights_the_fragment() {
    let lights = no_lights();
    let point_lights = vec![overhead_point_light()];
    let list: Vec<u32> = vec![0];
    // offset 0, one point light, no spot lights
    let clusters: Vec<u32> = vec![1 << 8];
    let shadows = empty_shadows(1, 0);
    let out = pbr(
        0,
        &lights,
        &point_lights,
        &list,
        &clusters,
        0,
        &shadows,
        fragment_input(white_material()),
    )
    .unwrap();
    assert_eq!(out, Vec4Fx { x: FX_ONE, y: FX_ONE, z: FX_ONE, w: FX_ONE });
}

#[test]
fn a_point_light_out_of_range_contributes_nothing() {
    let lights = no_lights();
    let mut far = overhead_point_light();
    far.position = Vec3Fx { x: 0, y: 0, z: 3_000_000 };
    let point_lights = vec![far];
    let list: Vec<u32> = vec![0];
    let clusters: Vec<u32> = vec![1 << 8];
    let shadows = empty_shadows(1, 0);
    let out = pbr(
        0,
        &lights,
        &point_lights,
        &list,
        &clusters,
        0,
        &shadows,
        fragment_input(white_material()),
    )
    .unwrap();
    assert_eq!(out, Vec4Fx { x: 0, y: 0, z: 0, w: FX_ONE });
}

#[test]
fn one_spot_light_inside_its_cone_lights_the_fragment() {
    let lights = no_lights();
    let point_lights = vec![overhead_point_light()];
    let list: Vec<u32> = vec![0];
    // offset 0, no point lights, one spot light
    let clusters: Vec<u32> = vec![1];
    let shadows = empty_shadows(1, 0);
    let out = pbr(
        0,
        &lights,
        &point_lights,
        &list,
        &clusters,
        0,
        &shadows,
        fragment_input(white_material()),
    )
    .unwrap();
    assert_eq!(out, Vec4Fx { x: FX_ONE, y: FX_ONE, z: FX_ONE, w: FX_ONE });
}

#[test]
fn one_directional_light_lights_the_fragment() {
    let lights = LightsFx {
        directional_lights: vec![
            DirectionalLightFx {
                direction_to_light: Vec3Fx { x: 0, y: 0, z: FX_ONE },
                color: Vec3Fx { x: 2_000_000, y: 2_000_000, z: 2_000_000 },
                flags: 0,
            },
        ],
        ambient_color: Vec4Fx { x: 0, y: 0, z: 0, w: FX_ONE },
        n_directional_lights: 1,
    };
    let point_lights: Vec<PointLightFx> = Vec::new();
    let list: Vec<u32> = Vec::new();
    let clusters: Vec<u32> = vec![0];
    let shadows = empty_shadows(0, 1);
    let out = pbr(
        0,
        &lights,
        &point_lights,
        &list,
        &clusters,
        0,
        &shadows,
        fragment_input(white_material()),
    )
    .unwrap();
    assert_eq!(out, Vec4Fx { x: 2_000_000, y: 2_000_000, z: 2_000_000, w: FX_ONE });
}

#[test]
fn shadow_sample_scales_a_shadowed_light() {
    let lights = no_lights();
    let mut shadowed = overhead_point_light();
    shadowed.flags = 1;
    let point_lights = vec![shadowed];
    let list: Vec<u32> = vec![0];
    let clusters: Vec<u32> = vec![1 << 8];
    let shadows = ShadowsFx { point: vec![500_000], spot: vec![FX_ONE], directional: Vec::new() };
    let out = pbr(
        MESH_FLAGS_SHADOW_RECEIVER_BIT,
        &lights,
        &point_lights,
        &list,
        &clusters,
        0,
        &shadows,
        fragment_input(white_material()),
    )
    .unwrap();
    assert_eq!(out, Vec4Fx { x: 500_000, y: 500_000, z: 500_000, w: FX_ONE });
}

#[test]
fn cluster_records_unpack_their_three_fields() {
    let packed: u32 = (5 << 16) | (2 << 8) | 1;
    assert_eq!(packed, 328_193);
    assert_eq!(unpack_offset_and_counts(packed), (5, 2, 1));
    assert_eq!(unpack_offset_and_counts(0), (0, 0, 0));
    let list: Vec<u32> = vec![9, 8, 7];
    assert_eq!(get_light_id(&list, 1), 8);
}

#[test]
fn roughness_remapping_clamps_then_squares() {
    assert_eq!(perceptual_roughness_to_roughness(500_000), 250_000);
    assert_eq!(perceptual_roughness_to_roughness(10_000), 7_921);
    assert_eq!(perceptual_roughness_to_roughness(FX_ONE), FX_ONE);
}

#[test]
fn tone_mapping_halves_unit_white_and_keeps_alpha() {
    let c = Vec4Fx { x: FX_ONE, y: FX_ONE, z: FX_ONE, w: 250_000 };
    let out = tone_mapping(c);
    assert_eq!(out, Vec4Fx { x: 500_000, y: 500_000, z: 500_000, w: 250_000 });
}

#[test]
fn dither_offsets_depend_on_screen_position_and_keep_alpha() {
    let black = Vec4Fx { x: 0, y: 0, z: 0, w: 750_000 };
    let at_origin = dither(black, 0, 0);
    assert_eq!(at_origin, Vec4Fx { x: -1_960, y: -1_960, z: -1_960, w: 750_000 });
    let elsewhere = dither(black, 1_000_000, 2_000_000);
    assert_eq!(elsewhere, Vec4Fx { x: -1_389, y: 1_629, z: 101, w: 750_000 });
}

#[test]
fn oklab_white_maps_to_linear_white() {
    let white = Vec3Fx { x: FX_ONE, y: 0, z: 0 };
    let rgb = oklab_to_linear_srgb(white);
    assert_eq!(rgb, Vec3Fx { x: FX_ONE, y: FX_ONE, z: FX_ONE });
}

fn identity_scaled_view() -> ViewFx {
    ViewFx {
        view_proj: Mat4Fx {
            x_axis: Vec4Fx { x: FX_ONE, y: 0, z: 0, w: 0 },
            y_axis: Vec4Fx { x: 0, y: FX_ONE, z: 0, w: 0 },
            z_axis: Vec4Fx { x: 0, y: 0, z: FX_ONE, w: 0 },
            w_axis: Vec4Fx { x: 0, y: 0, z: 0, w: FX_ONE },
        },
        world_position: Vec3Fx { x: 0, y: 0, z: 0 },
    }
}

#[test]
fn vertex_warp_projects_and_passes_attributes_through() {
    let view = identity_scaled_view();
    let pos = Vec4Fx { x: 10_000, y: 20_000, z: 30_000, w: FX_ONE };
    let normal = Vec3Fx { x: 0, y: 0, z: FX_ONE };
    let out = vertex_warp(&view, pos, normal, 250_000, 750_000);
    assert_eq!(out.clip_position, pos);
    assert_eq!(out.world_position, pos);
    assert_eq!(out.world_normal, normal);
    assert_eq!((out.uv_x, out.uv_y), (250_000, 750_000));
    let out2 = vertex_warp_colorful(&view, pos, normal, 250_000, 750_000);
    assert_eq!(out2, out);
}

#[test]
fn fragment_normal_paints_the_first_anchor_at_the_center() {
    // At the patch center the distance term vanishes, so the color is the
    // red anchor carried through the Oklab conversion.
    let out = fragment_normal(500_000, 500_000, 0, FX_ONE);
    assert_eq!(out, Vec4Fx { x: 999_988, y: 4, z: -1, w: FX_ONE });
}

#[test]
fn fragment_normal_colorful_echoes_world_position() {
    let p = Vec4Fx { x: 1, y: 2, z: 3, w: 4 };
    assert_eq!(fragment_normal_colorful(p), p);
}
