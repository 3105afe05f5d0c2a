//! Fixed parameters of the acoustic simulation.
//!
//! The host plugin hands these to the native simulator and to the audio
//! middleware when it starts up; both sides must agree on them, so they are
//! kept here as one plain-value record with a contracted default.

use vstd::prelude::*;

verus! {

/// Index of the DSP parameter through which the spatializer plugin is told
/// which simulation source feeds it its occlusion and reflection results.
pub const SIMULATION_OUTPUTS_PARAMETER_INDEX: i32 = 33;

/// The integer tuning values of the simulation, gathered in one place.
///
/// `sampling_rate` must equal the audio middleware's own sampling rate, and
/// `frame_size` the size of the audio buffers it processes; the remaining
/// fields bound the direct-occlusion sampling and the reflection rays.
#[derive(Clone, Copy, PartialEq, Eq, Structural, Debug)]
pub struct SimulationConfig {
    pub sampling_rate: u32,
    pub frame_size: u32,
    pub max_occlusion_samples: u32,
    pub num_rays: u32,
    pub num_bounces: u32,
    pub ambisonics_order: u32,
}

impl SimulationConfig {
    /// A configuration is usable only if nothing is zero-sized.
    pub open spec fn wf(self) -> bool {
        &&& self.sampling_rate > 0
        &&& self.frame_size > 0
        &&& self.max_occlusion_samples > 0
    }
}

impl Default for SimulationConfig {
    /// The values the plugin runs with today: 48 kHz audio in frames of 1024
    /// samples, direct occlusion from at most 8 samples, and a small
    /// first-order reflection budget.
    fn default() -> (c: Self)
        ensures
            c == (SimulationConfig {
                sampling_rate: 48000,
                frame_size: 1024,
                max_occlusion_samples: 8,
                num_rays: 8,
                num_bounces: 128,
                ambisonics_order: 1,
            }),
            c.wf(),
    {
        SimulationConfig {
            sampling_rate: 48000,
            frame_size: 1024,
            max_occlusion_samples: 8,
            num_rays: 8,
            num_bounces: 128,
            ambisonics_order: 1,
        }
    }
}

} // verus!
