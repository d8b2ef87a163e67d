//! Import of Wavefront OBJ documents into three parallel vertex buffers
//! (positions, normals, texture coordinates) for a mesh builder.
//!
//! Coordinates are single-precision floats; the library carries each one as
//! the `u32` bit pattern of that float (`f32::to_bits`), so that a coordinate
//! passes through unchanged, bit for bit.
pub mod free_form;
pub mod importer;
pub mod mesh;
pub mod obj_reader;
