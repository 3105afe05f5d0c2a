//! Acoustic material presets.
//!
//! The simulation library describes a surface by float absorption,
//! scattering and transmission coefficients. The verified core never reads
//! those floats; it only needs a material's identity, both to tag the
//! triangles of a converted mesh and as part of the key under which the
//! conversion is cached. A preset therefore stands here as a plain enum
//! value, and the unverified plugin layer maps each preset to its
//! coefficient table when it hands the geometry to the native library.

use vstd::prelude::*;

verus! {

/// One of the standard acoustic material presets of the simulation library.
#[derive(Clone, Copy, PartialEq, Eq, Structural, Debug, Hash)]
pub enum PhononMaterial {
    Generic,
    Brick,
    Concrete,
    Ceramic,
    Gravel,
    Carpet,
    Glass,
    Plaster,
    Wood,
    Metal,
    Rock,
}

impl Default for PhononMaterial {
    /// A mesh that asks for no particular material gets the generic preset.
    fn default() -> (m: Self)
        ensures
            m == PhononMaterial::Generic,
    {
        PhononMaterial::Generic
    }
}

} // verus!
