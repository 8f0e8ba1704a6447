//! A clustered-forward PBR fragment-shading library over fixed-point
//! arithmetic.
//!
//! Every scalar is an `i64` holding millionths (`fx::FX_ONE` is one unit), so
//! the whole pipeline — alpha discard, normal preparation and mapping, view
//! vectors, cluster slicing, light accumulation and post-processing — is exact
//! integer arithmetic with proved contracts.

pub mod clusters;
pub mod entry;
pub mod fx;
pub mod lights;
pub mod material;
pub mod pbr;
pub mod post;
pub mod surface;
pub mod vec;
