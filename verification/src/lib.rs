//! A software rasterizer over fixed-point arithmetic.
//!
//! The crate renders a textured, triangulated mesh into an RGB raster image
//! on the CPU: viewport / look-at / perspective transforms, a programmable
//! vertex/fragment shader stage, a barycentric scan-converting rasterizer
//! with a z-buffer, and two-pass shadow mapping (a depth pre-pass from the
//! light, then a lit Phong-Blinn pass that samples that depth buffer).
//!
//! All scalar arithmetic is exact saturating fixed-point over `i64` raw
//! values with 16 fractional bits, so every stage carries a precise
//! mathematical contract.

pub mod buffer;
pub mod fixed;
pub mod geometry;
pub mod linalg;
pub mod model;
pub mod render;
pub mod shader;

pub use fixed::Fx;
