//! A catalogue of two-dimensional shader demos.
//!
//! Each demo is selected by name and shows one quad drawn with a fragment
//! shader. This crate holds everything about a demo that can be decided
//! without a renderer: the names, the shader file and blending of each
//! material, and the list of entities that make up its scene.

pub mod material;
pub mod scene;
pub mod shader;
