//! Control block shared between the WASAPI backend and its audio callback:
//! volume, filter choice, transport state, sample counter and end-of-stream
//! flag, each held in the integer encoding the callback reads.

use vstd::prelude::*;

use crate::backend::PlaybackState;
use crate::filter::{index_of_profile, FilterProfile};

verus! {

/// Fixed-point scale of the volume factor: `VOLUME_SCALE` stands for 1.0.
pub const VOLUME_SCALE: u32 = 1000;

/// The values held by the control block.
pub struct AudioControlModel {
    /// Linear volume factor times `VOLUME_SCALE`.
    pub volume_factor: u32,
    /// Index of the filter profile (see `index_of_profile`).
    pub filter_index: u32,
    /// Transport state: 0 = Stopped, 1 = Playing, 2 = Paused.
    pub state: usize,
    /// Samples delivered so far (wraps around like an atomic counter).
    pub samples_played: u64,
    /// End-of-stream flag: 1 = end reached.
    pub eof: usize,
}

/// Control block of the WASAPI exclusive backend.
#[derive(Debug)]
pub struct AudioControl {
    volume_factor: u32,
    filter_index: u32,
    state: usize,
    samples_played: u64,
    eof: usize,
}

/// The code under which a transport state is stored.
pub open spec fn state_code(s: PlaybackState) -> usize {
    match s {
        PlaybackState::Stopped => 0,
        PlaybackState::Playing => 1,
        PlaybackState::Paused => 2,
    }
}

impl View for AudioControl {
    type V = AudioControlModel;

    closed spec fn view(&self) -> AudioControlModel {
        AudioControlModel {
            volume_factor: self.volume_factor,
            filter_index: self.filter_index,
            state: self.state,
            samples_played: self.samples_played,
            eof: self.eof,
        }
    }
}

impl AudioControl {
    /// Unity volume, NOS filter, stopped, no samples played, no end of stream.
    pub fn new() -> (c: Self)
        ensures
            c@ == (AudioControlModel {
                volume_factor: VOLUME_SCALE,
                filter_index: 0,
                state: 0,
                samples_played: 0,
                eof: 0,
            }),
    {
        AudioControl { volume_factor: 1000, filter_index: 0, state: 0, samples_played: 0, eof: 0 }
    }

    /// Stores a volume factor already scaled by `VOLUME_SCALE` (the
    /// decibel-to-linear conversion is done by the caller).
    pub fn store_volume_factor(&mut self, scaled: u32)
        ensures
            final(self)@ == (AudioControlModel { volume_factor: scaled, ..old(self)@ }),
    {
        self.volume_factor = scaled;
    }

    /// The stored volume factor, scaled by `VOLUME_SCALE`.
    pub fn volume_factor_scaled(&self) -> (v: u32)
        ensures
            v == self@.volume_factor,
    {
        self.volume_factor
    }

    /// Selects the filter profile.
    pub fn set_filter(&mut self, profile: FilterProfile)
        ensures
            final(self)@ == (AudioControlModel {
                filter_index: index_of_profile(profile),
                ..old(self)@
            }),
    {
        let index: u32 = match profile {
            FilterProfile::NOS => 0,
            FilterProfile::LinearPhaseSlow => 1,
            FilterProfile::LinearPhaseFast => 2,
            FilterProfile::MinimumPhase => 3,
            FilterProfile::MixedPhase => 4,
        };
        self.filter_index = index;
    }

    /// The stored filter index.
    pub fn filter_index(&self) -> (i: u32)
        ensures
            i == self@.filter_index,
    {
        self.filter_index
    }

    /// Sets the transport state.
    pub fn set_state(&mut self, state: PlaybackState)
        ensures
            final(self)@ == (AudioControlModel { state: state_code(state), ..old(self)@ }),
    {
        let val: usize = match state {
            PlaybackState::Stopped => 0,
            PlaybackState::Playing => 1,
            PlaybackState::Paused => 2,
        };
        self.state = val;
    }

    /// Whether the state is Playing.
    pub fn is_playing(&self) -> (b: bool)
        ensures
            b == (self@.state == 1),
    {
        self.state == 1
    }

    /// Whether the state is Paused.
    pub fn is_paused(&self) -> (b: bool)
        ensures
            b == (self@.state == 2),
    {
        self.state == 2
    }

    /// Whether the state is Stopped.
    pub fn is_stopped(&self) -> (b: bool)
        ensures
            b == (self@.state == 0),
    {
        self.state == 0
    }

    /// Counts `count` more samples as played (wrapping like `fetch_add`).
    pub fn add_samples(&mut self, count: u64)
        ensures
            final(self)@ == (AudioControlModel {
                samples_played: ((old(self)@.samples_played + count) % 0x1_0000_0000_0000_0000) as u64,
                ..old(self)@
            }),
    {
        self.samples_played = self.samples_played.wrapping_add(count);
    }

    /// Samples played so far.
    pub fn samples_played(&self) -> (n: u64)
        ensures
            n == self@.samples_played,
    {
        self.samples_played
    }

    /// Marks the end of the stream.
    pub fn set_eof(&mut self)
        ensures
            final(self)@ == (AudioControlModel { eof: 1, ..old(self)@ }),
    {
        self.eof = 1;
    }

    /// Whether the end of the stream was marked.
    pub fn is_eof(&self) -> (b: bool)
        ensures
            b == (self@.eof == 1),
    {
        self.eof == 1
    }

    /// Clears the end-of-stream mark (for a new source).
    pub fn clear_eof(&mut self)
        ensures
            final(self)@ == (AudioControlModel { eof: 0, ..old(self)@ }),
    {
        self.eof = 0;
    }

    /// Resets the sample counter.
    pub fn clear_samples(&mut self)
        ensures
            final(self)@ == (AudioControlModel { samples_played: 0, ..old(self)@ }),
    {
        self.samples_played = 0;
    }
}

impl Default for AudioControl {
    fn default() -> (c: Self)
        ensures
            c@ == (AudioControlModel {
                volume_factor: VOLUME_SCALE,
                filter_index: 0,
                state: 0,
                samples_played: 0,
                eof: 0,
            }),
    {
        Self::new()
    }
}

/// After `set_state(s)`, exactly the query that names `s` answers true.
pub proof fn law_state_queries(s: PlaybackState)
    ensures
        (state_code(s) == 1) == (s == PlaybackState::Playing),
        (state_code(s) == 2) == (s == PlaybackState::Paused),
        (state_code(s) == 0) == (s == PlaybackState::Stopped),
{
}

} // verus!
