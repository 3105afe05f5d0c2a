//! Conversion of engine meshes into audio geometry.
//!
//! An engine mesh arrives as an index buffer, a primitive topology and a
//! vertex buffer; the acoustic scene wants a flat list of triangles, each
//! tagged with an acoustic material. `mesh` holds that conversion, `material`
//! the acoustic material presets, and `instancing` the cache that makes sure
//! each distinct mesh is converted only once.

pub mod instancing;
pub mod material;
pub mod mesh;
