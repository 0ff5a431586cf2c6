//! Backend-agnostic playback state.

use vstd::prelude::*;

use crate::playback;

verus! {

/// Backend-agnostic playback state.
#[derive(Debug, Clone, Copy, PartialEq, Eq, Structural)]
pub enum PlaybackState {
    Stopped,
    Playing,
    Paused,
}

/// The backend state that a Rodio player state reports.
pub open spec fn spec_from_player_state(s: playback::PlaybackState) -> PlaybackState {
    match s {
        playback::PlaybackState::Stopped => PlaybackState::Stopped,
        playback::PlaybackState::Playing => PlaybackState::Playing,
        playback::PlaybackState::Paused => PlaybackState::Paused,
    }
}

/// The Rodio backend's state: the player's state, variant by variant.
pub fn from_player_state(s: playback::PlaybackState) -> (r: PlaybackState)
    ensures
        r == spec_from_player_state(s),
{
    match s {
        playback::PlaybackState::Stopped => PlaybackState::Stopped,
        playback::PlaybackState::Playing => PlaybackState::Playing,
        playback::PlaybackState::Paused => PlaybackState::Paused,
    }
}

} // verus!
