//! Verified core of a spatial-audio integration layer: the pure data
//! conversions and bookkeeping that bridge a game engine's triangle meshes
//! into an acoustic simulation scene.
//!
//! The acoustic simulation itself and the audio middleware's DSP graph are
//! external native libraries; this crate holds the logic that can be stated
//! and proved over plain values: mesh index triangulation, index-format
//! conversions, the cache of already-converted meshes, and the fixed
//! simulation parameters.

pub mod phonon_mesh;
pub mod phonon_plugin;
