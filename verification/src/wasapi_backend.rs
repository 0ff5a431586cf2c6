//! State of the WASAPI exclusive-mode backend: transport state, seek offset,
//! play queue and playback modes. The output stream, the decoder pipeline
//! and timing belong to the caller, which performs what these methods decide.

use vstd::prelude::*;

use crate::backend::PlaybackState;
use crate::error::{DeviceError, PlaybackError};
use crate::filter::FilterProfile;
use crate::playback::{
    clone_opt_path, clone_paths, pop_front, pop_front_path, rest_after, shuffle_pool,
    shuffled_pool, playlist_rest, PlaybackMode,
};
use crate::wasapi_control::{state_code, AudioControl, AudioControlModel};
use crate::filter::index_of_profile;
use crate::wasapi_control::VOLUME_SCALE;

verus! {

/// The backend state as contracts speak of it.
pub struct WasapiModel {
    /// An output stream exists.
    pub has_stream: bool,
    pub file_path: Option<Seq<char>>,
    pub filter_profile: FilterProfile,
    pub sample_rate: u32,
    pub channels: u16,
    pub state: PlaybackState,
    /// Where the next load starts, in samples.
    pub start_offset_samples: u64,
    pub queue: Seq<Seq<char>>,
    pub original_queue: Seq<Seq<char>>,
    pub mode: PlaybackMode,
    pub output_device: Option<Seq<char>>,
}

/// State of the WASAPI exclusive backend (bit-perfect, no resampling).
pub struct WasapiBackend {
    has_stream: bool,
    file_path: Option<String>,
    /// Current filter profile setting.
    pub filter_profile: FilterProfile,
    sample_rate: u32,
    channels: u16,
    state: PlaybackState,
    start_offset_samples: u64,
    queue: Vec<String>,
    original_queue: Vec<String>,
    mode: PlaybackMode,
    output_device: Option<String>,
}

impl View for WasapiBackend {
    type V = WasapiModel;

    closed spec fn view(&self) -> WasapiModel {
        WasapiModel {
            has_stream: self.has_stream,
            file_path: self.file_path.deep_view(),
            filter_profile: self.filter_profile,
            sample_rate: self.sample_rate,
            channels: self.channels,
            state: self.state,
            start_offset_samples: self.start_offset_samples,
            queue: self.queue.deep_view(),
            original_queue: self.original_queue.deep_view(),
            mode: self.mode,
            output_device: self.output_device.deep_view(),
        }
    }
}

/// The model after `stop`: no stream, stopped, no file, no seek offset.
pub open spec fn stopped(m: WasapiModel) -> WasapiModel {
    WasapiModel {
        has_stream: false,
        state: PlaybackState::Stopped,
        file_path: None,
        start_offset_samples: 0,
        ..m
    }
}

/// The model with the transport in state `st`.
pub open spec fn in_state(m: WasapiModel, st: PlaybackState) -> WasapiModel {
    WasapiModel { state: st, ..m }
}

/// The model after a seek to `offset`: the stream dropped, the offset kept
/// for the next load.
pub open spec fn seeked(m: WasapiModel, offset: u64) -> WasapiModel {
    WasapiModel { has_stream: false, start_offset_samples: offset, ..m }
}

/// The model once the track that an advance took is the current file: no
/// stream yet, the queue untouched.
pub open spec fn next_loaded(m: WasapiModel, path: Seq<char>) -> WasapiModel {
    WasapiModel { has_stream: false, file_path: Some(path), ..m }
}

/// The model after the pending seek offset was consumed.
pub open spec fn offset_taken(m: WasapiModel) -> WasapiModel {
    WasapiModel { start_offset_samples: 0, ..m }
}

impl WasapiBackend {
    /// A stopped backend for a device running at `sample_rate` with
    /// `channels` channels.
    pub fn new(sample_rate: u32, channels: u16) -> (b: Self)
        ensures
            b@ == (WasapiModel {
                has_stream: false,
                file_path: None,
                filter_profile: FilterProfile::NOS,
                sample_rate: sample_rate,
                channels: channels,
                state: PlaybackState::Stopped,
                start_offset_samples: 0,
                queue: Seq::empty(),
                original_queue: Seq::empty(),
                mode: PlaybackMode::Sequential,
                output_device: None,
            }),
    {
        let b = WasapiBackend {
            has_stream: false,
            file_path: None,
            filter_profile: FilterProfile::NOS,
            sample_rate,
            channels,
            state: PlaybackState::Stopped,
            start_offset_samples: 0,
            queue: Vec::new(),
            original_queue: Vec::new(),
            mode: PlaybackMode::Sequential,
            output_device: None,
        };
        proof {
            assert(b@.queue =~= Seq::empty());
            assert(b@.original_queue =~= Seq::empty());
        }
        b
    }

    /// Exclusive mode plays only at the device's own rate.
    pub fn validate_sample_rate(&self, required_rate: u32) -> (r: Result<(), PlaybackError>)
        ensures
            r == (if required_rate == self@.sample_rate {
                Ok(())
            } else {
                Err(PlaybackError::Device(DeviceError::UnsupportedFormat))
            }),
    {
        if required_rate != self.sample_rate {
            return Err(PlaybackError::Device(DeviceError::UnsupportedFormat));
        }
        Ok(())
    }

    /// Whether the current track has played out: playing and the callback
    /// marked the end of the stream.
    pub fn sink_empty(&self, control: &AudioControl) -> (b: bool)
        ensures
            b == (self@.state == PlaybackState::Playing && control@.eof == 1),
    {
        self.state == PlaybackState::Playing && control.is_eof()
    }

    /// Stops playback: the stream is dropped, the control block set to
    /// Stopped, the current file and the seek offset forgotten.
    pub fn stop(&mut self, control: &mut AudioControl)
        ensures
            final(self)@ == stopped(old(self)@),
            final(control)@ == (AudioControlModel { state: 0, ..old(control)@ }),
    {
        self.has_stream = false;
        control.set_state(PlaybackState::Stopped);
        self.state = PlaybackState::Stopped;
        self.file_path = None;
        self.start_offset_samples = 0;
    }

    /// Pauses when playing (the stream stays alive). Returns whether it paused.
    pub fn pause(&mut self, control: &mut AudioControl) -> (paused: bool)
        ensures
            paused == (old(self)@.state == PlaybackState::Playing),
            paused ==> final(self)@ == in_state(old(self)@, PlaybackState::Paused)
                && final(control)@ == (AudioControlModel { state: 2, ..old(control)@ }),
            !paused ==> final(self)@ == old(self)@ && final(control)@ == old(control)@,
    {
        if self.state == PlaybackState::Playing {
            control.set_state(PlaybackState::Paused);
            self.state = PlaybackState::Paused;
            true
        } else {
            false
        }
    }

    /// Starts or resumes playback. Paused: resumes in place. Stopped: asks
    /// the caller to load the current file again (`Ok(Some(path))`), or fails
    /// when there is none. Playing: nothing to do.
    pub fn play(&mut self, control: &mut AudioControl) -> (r: Result<Option<String>, PlaybackError>)
        ensures
            ({
                let o = old(self)@;
                match o.state {
                    PlaybackState::Paused => r == Ok::<Option<String>, PlaybackError>(None)
                        && final(self)@ == in_state(o, PlaybackState::Playing)
                        && final(control)@ == (AudioControlModel { state: 1, ..old(control)@ }),
                    PlaybackState::Stopped => final(self)@ == o && final(control)@ == old(
                        control,
                    )@ && match o.file_path {
                        Some(p) => r matches Ok(Some(q)) && q@ == p,
                        None => r matches Err(PlaybackError::Other(m)) && m@
                            == "No file to play"@,
                    },
                    PlaybackState::Playing => r == Ok::<Option<String>, PlaybackError>(None)
                        && final(self)@ == o && final(control)@ == old(control)@,
                }
            }),
    {
        match self.state {
            PlaybackState::Paused => {
                control.set_state(PlaybackState::Playing);
                self.state = PlaybackState::Playing;
                Ok(None)
            },
            PlaybackState::Stopped => {
                match &self.file_path {
                    Some(p) => Ok(Some(p.clone())),
                    None => Err(PlaybackError::Other(String::from_str("No file to play"))),
                }
            },
            PlaybackState::Playing => Ok(None),
        }
    }

    /// First step of loading `path`. While a stream exists the track is only
    /// queued (`false`). Otherwise the queue is emptied, `path` becomes the
    /// current file and `true` asks the caller to open it.
    pub fn load(&mut self, path: String) -> (open: bool)
        ensures
            open == !old(self)@.has_stream,
            !open ==> final(self)@ == (WasapiModel {
                queue: old(self)@.queue.push(path@),
                ..old(self)@
            }),
            open ==> final(self)@ == (WasapiModel {
                queue: Seq::empty(),
                file_path: Some(path@),
                ..old(self)@
            }),
    {
        if self.has_stream {
            self.queue.push(path);
            proof {
                assert(self.queue.deep_view() =~= old(self)@.queue.push(path@));
            }
            return false;
        }
        self.queue.clear();
        proof {
            assert(self.queue.deep_view() =~= Seq::empty());
        }
        self.file_path = Some(path);
        true
    }

    /// First step of loading the track that `advance_queue` took: `path`
    /// becomes the current file and the caller opens it. Unlike `load`, the
    /// rest of the queue stays for the following tracks.
    pub fn load_next(&mut self, path: String)
        ensures
            final(self)@ == next_loaded(old(self)@, path@),
    {
        self.has_stream = false;
        self.file_path = Some(path);
    }

    /// A fresh control block for a new source: unity volume, the backend's
    /// filter profile, stopped, counters and end flag cleared.
    pub fn reset_control(&self) -> (c: AudioControl)
        ensures
            c@ == (AudioControlModel {
                volume_factor: VOLUME_SCALE,
                filter_index: index_of_profile(self@.filter_profile),
                state: 0,
                samples_played: 0,
                eof: 0,
            }),
    {
        let mut c = AudioControl::new();
        c.set_filter(self.filter_profile);
        c.clear_eof();
        c.clear_samples();
        c
    }

    /// The pending seek offset, consumed: the caller skips that many samples
    /// of the new source.
    pub fn take_start_offset(&mut self) -> (offset: u64)
        ensures
            offset == old(self)@.start_offset_samples,
            final(self)@ == offset_taken(old(self)@),
    {
        let offset = self.start_offset_samples;
        if offset > 0 {
            self.start_offset_samples = 0;
        }
        offset
    }

    /// Records that the stream for the loaded source started playing.
    pub fn stream_started(&mut self, sample_rate: u32, channels: u16, control: &mut AudioControl)
        ensures
            final(self)@ == (WasapiModel {
                has_stream: true,
                sample_rate: sample_rate,
                channels: channels,
                state: PlaybackState::Playing,
                ..old(self)@
            }),
            final(control)@ == (AudioControlModel { state: 1, ..old(control)@ }),
    {
        self.sample_rate = sample_rate;
        self.channels = channels;
        control.set_state(PlaybackState::Playing);
        self.has_stream = true;
        self.state = PlaybackState::Playing;
    }

    /// Seeks by reloading the current file from `offset_samples`: the stream
    /// is dropped and the offset kept for the next load. Returns the file to
    /// reload and whether playback was running, or an error when no file is
    /// loaded.
    pub fn seek(&mut self, offset_samples: u64) -> (r: Result<(String, bool), PlaybackError>)
        ensures
            final(self)@ == seeked(old(self)@, offset_samples),
            match old(self)@.file_path {
                Some(p) => r matches Ok((q, was_playing)) && q@ == p && was_playing == (old(
                    self,
                )@.state == PlaybackState::Playing),
                None => r matches Err(PlaybackError::Other(m)) && m@
                    == "No file loaded for seek"@,
            },
    {
        self.has_stream = false;
        self.start_offset_samples = offset_samples;
        match &self.file_path {
            Some(p) => Ok((p.clone(), self.state == PlaybackState::Playing)),
            None => Err(PlaybackError::Other(String::from_str("No file loaded for seek"))),
        }
    }

    /// Takes the next track when a track ends while playing. Sequential takes
    /// the front of the queue; LoopOne repeats the current file; LoopAll
    /// refills an empty queue from the playlist; Shuffle refills an empty
    /// queue with a random order of the playlist without the current track.
    /// Playback is stopped either way; with no next track the sample rate is
    /// reset too. The caller loads the returned track.
    pub fn advance_queue(&mut self, control: &mut AudioControl) -> (r: Option<String>)
        ensures
            ({
                let o = old(self)@;
                let n = final(self)@;
                if o.state != PlaybackState::Playing {
                    r is None && n == o && final(control)@ == old(control)@
                } else {
                    &&& final(control)@ == (AudioControlModel { state: 0, ..old(control)@ })
                    &&& n == (WasapiModel {
                        queue: n.queue,
                        sample_rate: if r is None {
                            0
                        } else {
                            o.sample_rate
                        },
                        ..stopped(o)
                    })
                    &&& match o.mode {
                        PlaybackMode::Sequential => (r.deep_view(), n.queue) == pop_front(o.queue),
                        PlaybackMode::LoopOne => r.deep_view() == o.file_path && n.queue
                            == o.queue,
                        PlaybackMode::LoopAll => (r.deep_view(), n.queue) == pop_front(
                            if o.queue.len() == 0 {
                                o.original_queue
                            } else {
                                o.queue
                            },
                        ),
                        PlaybackMode::Shuffle => if o.queue.len() > 0 {
                            (r.deep_view(), n.queue) == pop_front(o.queue)
                        } else {
                            exists|p: Seq<Seq<char>>|
                                p.to_multiset() == shuffle_pool(
                                    o.original_queue,
                                    o.file_path,
                                ).to_multiset() && (r.deep_view(), n.queue) == pop_front(p)
                        },
                    }
                }
            }),
    {
        if self.state != PlaybackState::Playing {
            return None;
        }
        let next = match self.mode {
            PlaybackMode::Sequential => pop_front_path(&mut self.queue),
            PlaybackMode::LoopOne => clone_opt_path(&self.file_path),
            PlaybackMode::LoopAll => {
                if self.queue.len() == 0 {
                    self.queue = clone_paths(&self.original_queue);
                }
                pop_front_path(&mut self.queue)
            },
            PlaybackMode::Shuffle => {
                if self.queue.len() == 0 {
                    self.queue = shuffled_pool(&self.original_queue, &self.file_path);
                    let ghost p = self.queue.deep_view();
                    let r = pop_front_path(&mut self.queue);
                    proof {
                        assert((r.deep_view(), self.queue.deep_view()) == pop_front(p));
                    }
                    r
                } else {
                    pop_front_path(&mut self.queue)
                }
            },
        };
        match next {
            Some(p) => {
                self.stop(control);
                Some(p)
            },
            None => {
                self.stop(control);
                self.file_path = None;
                self.sample_rate = 0;
                None
            },
        }
    }

    /// Sets the playback mode; switching to Shuffle with a non-empty
    /// playlist reshuffles the queue from the playlist without the current
    /// track.
    pub fn set_playback_mode(&mut self, mode: PlaybackMode)
        ensures
            ({
                let o = old(self)@;
                let n = final(self)@;
                &&& n == WasapiModel { mode: mode, queue: n.queue, ..o }
                &&& if mode == PlaybackMode::Shuffle && o.original_queue.len() > 0 {
                    n.queue.to_multiset() == shuffle_pool(
                        o.original_queue,
                        o.file_path,
                    ).to_multiset()
                } else {
                    n.queue == o.queue
                }
            }),
    {
        self.mode = mode;
        if mode == PlaybackMode::Shuffle && self.original_queue.len() > 0 {
            self.queue = shuffled_pool(&self.original_queue, &self.file_path);
        }
    }

    /// The playback mode.
    pub fn playback_mode(&self) -> (m: PlaybackMode)
        ensures
            m == self@.mode,
    {
        self.mode
    }

    /// Replaces queue and playlist with `paths`.
    pub fn set_queue(&mut self, paths: Vec<String>)
        ensures
            final(self)@ == (WasapiModel {
                queue: paths.deep_view(),
                original_queue: paths.deep_view(),
                ..old(self)@
            }),
    {
        self.queue = clone_paths(&paths);
        self.original_queue = paths;
    }

    /// Appends `path` to the queue and to the playlist.
    pub fn enqueue(&mut self, path: String)
        ensures
            final(self)@ == (WasapiModel {
                queue: old(self)@.queue.push(path@),
                original_queue: old(self)@.original_queue.push(path@),
                ..old(self)@
            }),
    {
        let copy = path.clone();
        self.queue.push(copy);
        self.original_queue.push(path);
        proof {
            assert(self.queue.deep_view() =~= old(self)@.queue.push(path@));
            assert(self.original_queue.deep_view() =~= old(self)@.original_queue.push(path@));
        }
    }

    /// The tracks still to come.
    pub fn get_queue(&self) -> (q: Vec<String>)
        ensures
            q.deep_view() == self@.queue,
    {
        clone_paths(&self.queue)
    }

    /// Empties queue and playlist.
    pub fn clear_queue(&mut self)
        ensures
            final(self)@ == (WasapiModel {
                queue: Seq::empty(),
                original_queue: Seq::empty(),
                ..old(self)@
            }),
    {
        self.queue.clear();
        self.original_queue.clear();
        proof {
            assert(self.queue.deep_view() =~= Seq::empty());
            assert(self.original_queue.deep_view() =~= Seq::empty());
        }
    }

    /// Sets the playlist to `paths`, the queue to the tracks after
    /// `current_index`.
    pub fn set_playlist(&mut self, paths: Vec<String>, current_index: usize)
        requires
            current_index < usize::MAX,
        ensures
            final(self)@ == (WasapiModel {
                queue: playlist_rest(paths.deep_view(), current_index as int),
                original_queue: paths.deep_view(),
                ..old(self)@
            }),
    {
        self.queue = rest_after(&paths, current_index);
        self.original_queue = paths;
    }

    /// Selects the output device by name (`None`: the system default).
    pub fn set_output_device(&mut self, device_name: Option<String>)
        ensures
            final(self)@ == (WasapiModel { output_device: device_name.deep_view(), ..old(self)@ }),
    {
        self.output_device = device_name;
    }

    /// The selected output device.
    pub fn output_device(&self) -> (d: Option<String>)
        ensures
            d.deep_view() == self@.output_device,
    {
        clone_opt_path(&self.output_device)
    }

    /// Sets the filter profile used for the next source.
    pub fn set_filter(&mut self, profile: FilterProfile)
        ensures
            final(self)@ == (WasapiModel { filter_profile: profile, ..old(self)@ }),
    {
        self.filter_profile = profile;
    }

    /// The filter profile.
    pub fn filter_profile(&self) -> (p: FilterProfile)
        ensures
            p == self@.filter_profile,
    {
        self.filter_profile
    }

    /// The pending seek offset, in samples.
    pub fn start_offset_samples(&self) -> (o: u64)
        ensures
            o == self@.start_offset_samples,
    {
        self.start_offset_samples
    }

    /// The transport state.
    pub fn state(&self) -> (s: PlaybackState)
        ensures
            s == self@.state,
    {
        self.state
    }

    /// The sample rate of the device or the loaded file.
    pub fn sample_rate(&self) -> (r: u32)
        ensures
            r == self@.sample_rate,
    {
        self.sample_rate
    }

    /// The channel count of the loaded file.
    pub fn channels(&self) -> (c: u16)
        ensures
            c == self@.channels,
    {
        self.channels
    }

    /// The file being played.
    pub fn current_file_path(&self) -> (p: Option<String>)
        ensures
            p.deep_view() == self@.file_path,
    {
        clone_opt_path(&self.file_path)
    }
}

// ---------------------------------------------------------------------------
// Laws
// ---------------------------------------------------------------------------

/// Pausing a playing backend and playing it again restores the state it had.
pub proof fn law_pause_play_round_trip(m: WasapiModel)
    requires
        m.state == PlaybackState::Playing,
    ensures
        in_state(m, PlaybackState::Paused).state == PlaybackState::Paused,
        in_state(in_state(m, PlaybackState::Paused), PlaybackState::Playing) == m,
{
}

/// A seek keeps the file and the transport state, and its offset is handed
/// to exactly one following load.
pub proof fn law_seek_offset_used_once(m: WasapiModel, offset: u64)
    ensures
        seeked(m, offset).file_path == m.file_path,
        seeked(m, offset).state == m.state,
        seeked(m, offset).start_offset_samples == offset,
        offset_taken(seeked(m, offset)).start_offset_samples == 0,
{
}

/// Stopping reports Stopped with no file and no stream, and stopping again
/// changes nothing.
pub proof fn law_stop_is_final(m: WasapiModel)
    ensures
        stopped(m).state == PlaybackState::Stopped,
        stopped(m).file_path is None,
        !stopped(m).has_stream,
        stopped(stopped(m)) == stopped(m),
{
}

/// Advancing in sequential mode while playing takes the front of the queue
/// and, once that track is loaded, keeps the rest of the queue.
pub proof fn law_sequential_advance_keeps_rest(m: WasapiModel, r: Option<Seq<char>>, n: WasapiModel)
    requires
        m.state == PlaybackState::Playing,
        m.mode == PlaybackMode::Sequential,
        m.queue.len() > 0,
        (r, n.queue) == pop_front(m.queue),
        n == (WasapiModel { queue: n.queue, sample_rate: m.sample_rate, ..stopped(m) }),
    ensures
        r == Some(m.queue[0]),
        next_loaded(n, m.queue[0]).queue == m.queue.drop_first(),
        next_loaded(n, m.queue[0]).file_path == Some(m.queue[0]),
{
}

} // verus!
