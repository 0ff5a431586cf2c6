//! FIR filter profiles and their numeric indices as stored in the lock-free
//! control block.

use vstd::prelude::*;

verus! {

/// FIR filter profile.
#[derive(Debug, Clone, Copy, PartialEq, Eq, Structural)]
pub enum FilterProfile {
    /// Non-oversampled: flattest phase.
    NOS,
    /// Linear phase, slow roll-off.
    LinearPhaseSlow,
    /// Linear phase, fast roll-off.
    LinearPhaseFast,
    /// Minimum phase: low group delay.
    MinimumPhase,
    /// Mixed phase.
    MixedPhase,
}

/// Generator of FIR coefficient tables (the floating-point design itself
/// stays with the signal-processing code of the caller).
pub struct Coefficients;

/// The index under which a profile is stored (0 = NOS, ..., 4 = MixedPhase).
pub open spec fn index_of_profile(p: FilterProfile) -> u32 {
    match p {
        FilterProfile::NOS => 0,
        FilterProfile::LinearPhaseSlow => 1,
        FilterProfile::LinearPhaseFast => 2,
        FilterProfile::MinimumPhase => 3,
        FilterProfile::MixedPhase => 4,
    }
}

/// The profile an index stands for; unknown indices mean NOS.
pub open spec fn profile_of_index(i: u32) -> FilterProfile {
    if i == 1 {
        FilterProfile::LinearPhaseSlow
    } else if i == 2 {
        FilterProfile::LinearPhaseFast
    } else if i == 3 {
        FilterProfile::MinimumPhase
    } else if i == 4 {
        FilterProfile::MixedPhase
    } else {
        FilterProfile::NOS
    }
}

/// The profile the audio callback applies for a stored filter index.
pub fn profile_from_index(index: u32) -> (p: FilterProfile)
    ensures
        p == profile_of_index(index),
{
    match index {
        0 => FilterProfile::NOS,
        1 => FilterProfile::LinearPhaseSlow,
        2 => FilterProfile::LinearPhaseFast,
        3 => FilterProfile::MinimumPhase,
        4 => FilterProfile::MixedPhase,
        _ => FilterProfile::NOS,
    }
}

/// Storing a profile as its index and reading it back gives the profile.
pub proof fn law_profile_index_round_trip(p: FilterProfile)
    ensures
        profile_of_index(index_of_profile(p)) == p,
        index_of_profile(p) < 5,
{
}

} // verus!
