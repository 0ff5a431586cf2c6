//! Output slots of the 64-band spectrum analyzer. The analyzer writes the
//! smoothed band levels (as `f32` bit patterns), the UI reads them.

use vstd::prelude::*;

verus! {

/// Number of frequency bands for visualization.
pub const BAND_COUNT: usize = 64;

/// The latest band levels, one `f32` bit pattern per band.
pub struct SpectrumOutput {
    bands: Vec<u32>,
}

impl View for SpectrumOutput {
    type V = Seq<u32>;

    closed spec fn view(&self) -> Seq<u32> {
        self.bands@
    }
}

impl SpectrumOutput {
    /// There is always one slot per band.
    #[verifier::type_invariant]
    spec fn one_slot_per_band(&self) -> bool {
        self.bands@.len() == BAND_COUNT
    }

    /// All bands at level 0.0 (bit pattern 0).
    pub fn new() -> (o: Self)
        ensures
            o@ == Seq::new(BAND_COUNT as nat, |i: int| 0u32),
    {
        let mut bands: Vec<u32> = Vec::new();
        let mut i: usize = 0;
        while i < BAND_COUNT
            invariant
                i <= BAND_COUNT,
                bands@ == Seq::new(i as nat, |j: int| 0u32),
            decreases BAND_COUNT - i,
        {
            bands.push(0);
            proof {
                assert(bands@ =~= Seq::new((i + 1) as nat, |j: int| 0u32));
            }
            i = i + 1;
        }
        SpectrumOutput { bands }
    }

    /// Writes the level of one band (given as its `f32` bit pattern, already
    /// clamped by the caller); bands outside the 64 are ignored.
    pub fn set_band_bits(&mut self, band: usize, bits: u32)
        ensures
            final(self)@ == (if band < BAND_COUNT {
                old(self)@.update(band as int, bits)
            } else {
                old(self)@
            }),
    {
        proof {
            use_type_invariant(&*self);
        }
        if band < BAND_COUNT {
            let mut bands = self.bands.clone();
            bands.set(band, bits);
            self.bands = bands;
        }
    }

    /// The levels of all bands, as `f32` bit patterns.
    pub fn band_bits(&self) -> (v: Vec<u32>)
        ensures
            v@ == self@,
            v@.len() == BAND_COUNT,
    {
        proof {
            use_type_invariant(self);
        }
        self.bands.clone()
    }
}

} // verus!
