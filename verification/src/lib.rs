//! A tiny loader for line-oriented 3D geometry (`OBJ`) and material (`MTL`)
//! descriptions.
//!
//! The loader accumulates raw attribute arrays (positions, texture
//! coordinates, normals, optional vertex colors) and polygonal faces that
//! reference them by index, and exports each named object as a compact
//! indexed [`Mesh`], under configurable policies: triangulation into
//! triangle fans, a single shared index versus per-attribute indices,
//! welding of bit-identical attribute tuples, and reordering of secondary
//! attribute data so that the position index alone suffices.
//!
//! Scalar attribute values are carried as raw bit patterns (`u64` for
//! 64-bit position/normal/texture components, 32-bit patterns widened to
//! `u64` for vertex colors and material fields), so that the indexing
//! engine never performs floating-point arithmetic: it only copies values
//! and compares them for exact bit equality.
use vstd::prelude::*;

mod err;
mod options;
pub mod export_multi;
pub mod export_single;
pub mod loader;
pub mod maps;
pub mod material;
pub mod merge;
pub mod mesh;
pub mod numbers;
pub mod reorder;
pub mod tokenize;
pub mod vertex;

pub use err::LoadError;
pub use loader::load_obj_buf;
pub use loader::LoadResult;
pub use material::load_mtl_buf;
pub use material::Material;
pub use mesh::Mesh;
pub use mesh::Model;
pub use options::gpu_load_options;
pub use options::offline_rendering_load_options;
pub use options::LoadOptions;
