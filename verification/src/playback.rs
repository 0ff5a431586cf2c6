//! Playback state of the Rodio-based player: transport state, the play
//! queue with its four playback modes, and output-device selection.
//!
//! The audio device, the decoder pipeline and wall-clock timing live with
//! the caller; this module decides what the player does with them.

use rand::seq::SliceRandom;
use vstd::multiset::Multiset;
use vstd::prelude::*;

use crate::text::{chars_of, contains, contains_str, lowercase, to_lowercase};

verus! {

broadcast use vstd::seq_lib::group_to_multiset_ensures;

/// Transport state reported by the player.
#[derive(Debug, Clone, Copy, PartialEq, Eq, Structural)]
pub enum PlaybackState {
    Stopped,
    Playing,
    Paused,
}

/// What happens when a track ends.
#[derive(Debug, Clone, Copy, PartialEq, Eq, Structural)]
pub enum PlaybackMode {
    Sequential,
    LoopOne,
    LoopAll,
    Shuffle,
}

/// The mode the play-mode button switches to: Sequential, LoopOne, LoopAll,
/// Shuffle, and round again.
pub open spec fn spec_next_mode(m: PlaybackMode) -> PlaybackMode {
    match m {
        PlaybackMode::Sequential => PlaybackMode::LoopOne,
        PlaybackMode::LoopOne => PlaybackMode::LoopAll,
        PlaybackMode::LoopAll => PlaybackMode::Shuffle,
        PlaybackMode::Shuffle => PlaybackMode::Sequential,
    }
}

/// The mode after `m` in the play-mode button's cycle.
pub fn next_play_mode(m: PlaybackMode) -> (n: PlaybackMode)
    ensures
        n == spec_next_mode(m),
{
    match m {
        PlaybackMode::Sequential => PlaybackMode::LoopOne,
        PlaybackMode::LoopOne => PlaybackMode::LoopAll,
        PlaybackMode::LoopAll => PlaybackMode::Shuffle,
        PlaybackMode::Shuffle => PlaybackMode::Sequential,
    }
}

/// Pressing the play-mode button four times comes back to the first mode,
/// and every press changes the mode.
pub proof fn law_mode_cycle(m: PlaybackMode)
    ensures
        spec_next_mode(spec_next_mode(spec_next_mode(spec_next_mode(m)))) == m,
        spec_next_mode(m) != m,
{
}

/// How many files an automatic advance tries before it gives up.
pub const MAX_ADVANCE_TRIES: usize = 20;

/// How one try of an automatic advance went.
#[derive(Debug, Clone, Copy, PartialEq, Eq, Structural)]
pub enum AdvanceAttempt {
    /// The queue gave no next track.
    NoNextTrack,
    /// The next track could not be opened or decoded.
    Unreadable,
    /// The next track was opened (and handed to `begin_next_track`).
    Opened,
}

/// What an automatic advance does after a try.
#[derive(Debug, Clone, Copy, PartialEq, Eq, Structural)]
pub enum AdvanceAction {
    /// Stop playback.
    Stop,
    /// Take the following track.
    TryNext,
    /// Finished: nothing more to do.
    Done,
}

/// The step of an automatic advance after try number `tries + 1`: without a
/// next track playback stops; an unreadable track is skipped while tries
/// remain, and playback stops after the last one; an opened track ends the
/// advance.
pub fn advance_action(tries: usize, attempt: AdvanceAttempt) -> (a: AdvanceAction)
    requires
        tries < MAX_ADVANCE_TRIES,
    ensures
        a == (match attempt {
            AdvanceAttempt::NoNextTrack => AdvanceAction::Stop,
            AdvanceAttempt::Unreadable => if tries + 1 < MAX_ADVANCE_TRIES {
                AdvanceAction::TryNext
            } else {
                AdvanceAction::Stop
            },
            AdvanceAttempt::Opened => AdvanceAction::Done,
        }),
        a == AdvanceAction::TryNext ==> tries + 1 < MAX_ADVANCE_TRIES,
{
    match attempt {
        AdvanceAttempt::NoNextTrack => AdvanceAction::Stop,
        AdvanceAttempt::Unreadable => if tries + 1 < MAX_ADVANCE_TRIES {
            AdvanceAction::TryNext
        } else {
            AdvanceAction::Stop
        },
        AdvanceAttempt::Opened => AdvanceAction::Done,
    }
}

/// Whether an output device name, lowercased, contains one of the
/// markers of a Bluetooth device.
pub open spec fn is_bluetooth_name(name: Seq<char>) -> bool {
    let l = lowercase(name);
    ||| contains(l, "bluetooth"@)
    ||| contains(l, "srs"@)
    ||| contains(l, "jbl"@)
    ||| contains(l, "索尼"@)
    ||| contains(l, "sony"@)
    ||| contains(l, "bose"@)
    ||| contains(l, "airpods"@)
    ||| contains(l, "galaxy buds"@)
    ||| contains(l, "mi band"@)
    ||| contains(l, "小米"@)
    ||| contains(l, "huawei"@)
    ||| contains(l, "蓝牙"@)
}

/// Whether the output device `name` is a Bluetooth device (such devices get
/// a buffered source).
pub fn is_bluetooth_device(name: &str) -> (b: bool)
    ensures
        b == is_bluetooth_name(name@),
{
    let lower = to_lowercase(name);
    let l = chars_of(lower.as_str());
    contains_str(&l, "bluetooth") || contains_str(&l, "srs") || contains_str(&l, "jbl")
        || contains_str(&l, "索尼") || contains_str(&l, "sony") || contains_str(&l, "bose")
        || contains_str(&l, "airpods") || contains_str(&l, "galaxy buds") || contains_str(
        &l,
        "mi band",
    ) || contains_str(&l, "小米") || contains_str(&l, "huawei") || contains_str(&l, "蓝牙")
}

// ---------------------------------------------------------------------------
// Queue helpers shared by both backends
// ---------------------------------------------------------------------------

/// `s` with every occurrence of `x` removed, order kept.
pub open spec fn without(s: Seq<Seq<char>>, x: Seq<char>) -> Seq<Seq<char>>
    decreases s.len(),
{
    if s.len() == 0 {
        s
    } else {
        let r = without(s.drop_last(), x);
        if s.last() == x {
            r
        } else {
            r.push(s.last())
        }
    }
}

/// The tracks a shuffle draws from: the full playlist minus the current track.
pub open spec fn shuffle_pool(original: Seq<Seq<char>>, current: Option<Seq<char>>) -> Seq<
    Seq<char>,
> {
    match current {
        Some(c) => without(original, c),
        None => original,
    }
}

/// Taking the next track from the front of a queue.
pub open spec fn pop_front(q: Seq<Seq<char>>) -> (Option<Seq<char>>, Seq<Seq<char>>) {
    if q.len() == 0 {
        (None, q)
    } else {
        (Some(q[0]), q.drop_first())
    }
}

/// Removing all copies of `x` from two permutations of one another leaves
/// two permutations of one another.
pub proof fn lemma_without_permutation(a: Seq<Seq<char>>, b: Seq<Seq<char>>, x: Seq<char>)
    requires
        a.to_multiset() == b.to_multiset(),
    ensures
        without(a, x).to_multiset() == without(b, x).to_multiset(),
{
    assert forall|y: Seq<char>|
        without(a, x).to_multiset().count(y) == without(b, x).to_multiset().count(y) by {
        lemma_without_count(a, x, y);
        lemma_without_count(b, x, y);
    }
    assert(without(a, x).to_multiset() =~= without(b, x).to_multiset());
}

proof fn lemma_without_count(s: Seq<Seq<char>>, x: Seq<char>, y: Seq<char>)
    ensures
        without(s, x).to_multiset().count(y) == (if y == x {
            0
        } else {
            s.to_multiset().count(y)
        }),
    decreases s.len(),
{
    if s.len() == 0 {
        assert(s.to_multiset() =~= Multiset::empty());
        assert(without(s, x).to_multiset() =~= Multiset::empty());
    } else {
        lemma_without_count(s.drop_last(), x, y);
        assert(s.drop_last().push(s.last()) =~= s);
    }
}

/// A copy of `v`.
pub fn clone_paths(v: &Vec<String>) -> (r: Vec<String>)
    ensures
        r.deep_view() == v.deep_view(),
{
    let mut r: Vec<String> = Vec::new();
    let mut i: usize = 0;
    while i < v.len()
        invariant
            i <= v.len(),
            r.deep_view() =~= v.deep_view().take(i as int),
        decreases v.len() - i,
    {
        let p = v[i].clone();
        let ghost old_r = r.deep_view();
        r.push(p);
        proof {
            assert(r.deep_view() =~= old_r.push(v.deep_view()[i as int]));
            assert(v.deep_view().take(i + 1) =~= v.deep_view().take(i as int).push(
                v.deep_view()[i as int],
            ));
        }
        i = i + 1;
    }
    proof {
        assert(v.deep_view().take(v.len() as int) =~= v.deep_view());
    }
    r
}

/// A copy of `v` without the entries equal to `x`.
pub fn paths_without(v: &Vec<String>, x: &String) -> (r: Vec<String>)
    ensures
        r.deep_view() == without(v.deep_view(), x@),
{
    let mut r: Vec<String> = Vec::new();
    let mut i: usize = 0;
    while i < v.len()
        invariant
            i <= v.len(),
            r.deep_view() =~= without(v.deep_view().take(i as int), x@),
        decreases v.len() - i,
    {
        proof {
            assert(v.deep_view().take(i + 1).drop_last() =~= v.deep_view().take(i as int));
        }
        if v[i] != *x {
            let p = v[i].clone();
            r.push(p);
        }
        i = i + 1;
    }
    proof {
        assert(v.deep_view().take(v.len() as int) =~= v.deep_view());
    }
    r
}

/// Removes and returns the first entry of `q`, if any.
pub fn pop_front_path(q: &mut Vec<String>) -> (r: Option<String>)
    ensures
        (r.deep_view(), final(q).deep_view()) == pop_front(old(q).deep_view()),
{
    if q.len() == 0 {
        None
    } else {
        let ghost before = q.deep_view();
        let p = q.remove(0);
        proof {
            assert(q.deep_view() =~= before.drop_first());
        }
        Some(p)
    }
}

/// A copy of an optional path.
pub fn clone_opt_path(p: &Option<String>) -> (r: Option<String>)
    ensures
        r.deep_view() == p.deep_view(),
{
    match p {
        Some(s) => Some(s.clone()),
        None => None,
    }
}

/// rand's `SliceRandom::shuffle` with the thread-local generator: a
/// Fisher–Yates pass of swaps, so the result is a permutation of the input.
/// Which permutation comes out is chance and is not stated.
#[verifier::external_body]
fn shuffle_paths(paths: &mut Vec<String>)
    ensures
        final(paths).deep_view().to_multiset() == old(paths).deep_view().to_multiset(),
{
    paths.shuffle(&mut rand::thread_rng());
}

/// A shuffled copy of the playlist without the current track.
pub fn shuffled_pool(original: &Vec<String>, current: &Option<String>) -> (r: Vec<String>)
    ensures
        r.deep_view().to_multiset() == shuffle_pool(original.deep_view(), current.deep_view()).to_multiset(),
{
    let mut shuffled = match current {
        Some(c) => paths_without(original, c),
        None => clone_paths(original),
    };
    shuffle_paths(&mut shuffled);
    shuffled
}

// ---------------------------------------------------------------------------
// Played time
// ---------------------------------------------------------------------------

/// One second in nanoseconds.
pub const NANOS_PER_SEC: u128 = 1_000_000_000;

/// Time spent playing, in nanoseconds: the wall time since the output
/// started, minus the finished pauses and, while paused, the pause under way.
pub open spec fn net_played(
    elapsed: u128,
    total_paused: u128,
    paused: bool,
    pause_elapsed: Option<u128>,
) -> int {
    elapsed - total_paused - (if paused && pause_elapsed is Some {
        pause_elapsed->0 as int
    } else {
        0
    })
}

/// The time spent playing, in nanoseconds (see `net_played`); the pauses
/// never exceed the wall time.
pub fn net_played_nanos(
    elapsed: u128,
    total_paused: u128,
    paused: bool,
    pause_elapsed: Option<u128>,
) -> (n: u128)
    requires
        net_played(elapsed, total_paused, paused, pause_elapsed) >= 0,
    ensures
        n == net_played(elapsed, total_paused, paused, pause_elapsed),
{
    let mut net: u128 = elapsed - total_paused;
    if paused {
        if let Some(p) = pause_elapsed {
            net = net - p;
        }
    }
    net
}

/// Whether the current track has played out: the output has drained and,
/// since the output started (`elapsed` is `None` when no start was
/// recorded), more than one second was spent playing. Times in nanoseconds.
pub fn played_out(
    drained: bool,
    elapsed: Option<u128>,
    total_paused: u128,
    paused: bool,
    pause_elapsed: Option<u128>,
) -> (b: bool)
    requires
        drained && elapsed is Some ==> net_played(elapsed->0, total_paused, paused, pause_elapsed)
            >= 0,
    ensures
        b == (drained && elapsed is Some && net_played(
            elapsed->0,
            total_paused,
            paused,
            pause_elapsed,
        ) > NANOS_PER_SEC),
{
    if !drained {
        return false;
    }
    match elapsed {
        Some(e) => net_played_nanos(e, total_paused, paused, pause_elapsed) > NANOS_PER_SEC,
        None => false,
    }
}

// ---------------------------------------------------------------------------
// The player
// ---------------------------------------------------------------------------

/// The state of the player as contracts speak of it.
pub struct PlayerModel {
    /// An output sink exists (the player is playing or paused).
    pub has_sink: bool,
    pub file_path: Option<Seq<char>>,
    pub sample_rate: u32,
    pub paused: bool,
    /// Tracks still to come.
    pub queue: Seq<Seq<char>>,
    /// The whole playlist, in its original order.
    pub original_queue: Seq<Seq<char>>,
    pub mode: PlaybackMode,
    pub output_device: Option<Seq<char>>,
}

/// Playback state of the Rodio-backed player.
pub struct Player {
    has_sink: bool,
    file_path: Option<String>,
    sample_rate: u32,
    paused: bool,
    queue: Vec<String>,
    original_queue: Vec<String>,
    mode: PlaybackMode,
    output_device: Option<String>,
}

impl View for Player {
    type V = PlayerModel;

    closed spec fn view(&self) -> PlayerModel {
        PlayerModel {
            has_sink: self.has_sink,
            file_path: self.file_path.deep_view(),
            sample_rate: self.sample_rate,
            paused: self.paused,
            queue: self.queue.deep_view(),
            original_queue: self.original_queue.deep_view(),
            mode: self.mode,
            output_device: self.output_device.deep_view(),
        }
    }
}

/// The transport state a player model reports.
pub open spec fn state_of(m: PlayerModel) -> PlaybackState {
    if !m.has_sink {
        PlaybackState::Stopped
    } else if m.paused {
        PlaybackState::Paused
    } else {
        PlaybackState::Playing
    }
}

/// The model after the output is torn down: no sink, not paused, empty queue.
pub open spec fn stopped_inner(m: PlayerModel) -> PlayerModel {
    PlayerModel { has_sink: false, paused: false, queue: Seq::empty(), ..m }
}

/// The model once the next track's file is chosen: the old output is gone,
/// the queue still holds the tracks after it.
pub open spec fn next_track_model(m: PlayerModel, path: Seq<char>, sample_rate: u32) -> PlayerModel {
    PlayerModel {
        has_sink: false,
        paused: false,
        file_path: Some(path),
        sample_rate: sample_rate,
        ..m
    }
}

/// The model after a pause took effect.
pub open spec fn paused_model(m: PlayerModel) -> PlayerModel {
    PlayerModel { paused: true, ..m }
}

/// The model after a resume took effect.
pub open spec fn resumed_model(m: PlayerModel) -> PlayerModel {
    PlayerModel { paused: false, ..m }
}

/// The model after `stop`: torn down, with no current file and no rate.
pub open spec fn stopped_model(m: PlayerModel) -> PlayerModel {
    PlayerModel { file_path: None, sample_rate: 0, ..stopped_inner(m) }
}

impl Player {
    /// A stopped player with an empty queue in sequential mode.
    pub fn new() -> (p: Self)
        ensures
            p@ == (PlayerModel {
                has_sink: false,
                file_path: None,
                sample_rate: 0,
                paused: false,
                queue: Seq::empty(),
                original_queue: Seq::empty(),
                mode: PlaybackMode::Sequential,
                output_device: None,
            }),
    {
        let p = Player {
            has_sink: false,
            file_path: None,
            sample_rate: 0,
            paused: false,
            queue: Vec::new(),
            original_queue: Vec::new(),
            mode: PlaybackMode::Sequential,
            output_device: None,
        };
        proof {
            assert(p@.queue =~= Seq::empty());
            assert(p@.original_queue =~= Seq::empty());
        }
        p
    }

    /// Tears down the output state: no sink, not paused, empty queue.
    pub fn stop_inner(&mut self)
        ensures
            final(self)@ == stopped_inner(old(self)@),
    {
        self.has_sink = false;
        self.paused = false;
        self.queue.clear();
        proof {
            assert(self.queue.deep_view() =~= Seq::empty());
        }
    }

    /// Prepares playing `path` from the start: records it as the current
    /// file and tears down any existing output (which also empties the
    /// queue). Returns whether an output existed and must be stopped; the
    /// caller then opens the file and reports the new output with
    /// `start_playback_inner`.
    pub fn play(&mut self, path: String) -> (had_sink: bool)
        ensures
            had_sink == old(self)@.has_sink,
            final(self)@ == (if had_sink {
                PlayerModel {
                    file_path: Some(path@),
                    sample_rate: 44100,
                    ..stopped_inner(old(self)@)
                }
            } else {
                PlayerModel { file_path: Some(path@), sample_rate: 44100, ..old(self)@ }
            }),
    {
        self.file_path = Some(path);
        self.sample_rate = 44100;
        if self.has_sink {
            self.stop_inner();
            true
        } else {
            false
        }
    }

    /// Records that an output for the current file started playing at the
    /// source's sample rate.
    pub fn start_playback_inner(&mut self, source_sample_rate: u32)
        ensures
            final(self)@ == (PlayerModel {
                has_sink: true,
                paused: false,
                sample_rate: source_sample_rate,
                ..old(self)@
            }),
    {
        self.has_sink = true;
        self.paused = false;
        self.sample_rate = source_sample_rate;
    }

    /// Pauses playback. Returns whether the output must be paused now: only
    /// when there is an output that is not paused yet.
    pub fn pause(&mut self) -> (act: bool)
        ensures
            act == (old(self)@.has_sink && !old(self)@.paused),
            final(self)@ == (if act {
                paused_model(old(self)@)
            } else {
                old(self)@
            }),
    {
        if self.paused {
            return false;
        }
        if self.has_sink {
            self.paused = true;
            true
        } else {
            false
        }
    }

    /// Resumes playback. Returns whether the output must be resumed now:
    /// only when there is an output and it is paused.
    pub fn resume(&mut self) -> (act: bool)
        ensures
            act == (old(self)@.has_sink && old(self)@.paused),
            final(self)@ == (if act {
                resumed_model(old(self)@)
            } else {
                old(self)@
            }),
    {
        if !self.paused {
            return false;
        }
        if self.has_sink {
            self.paused = false;
            true
        } else {
            false
        }
    }

    /// Stops playback: no output, no current file, empty queue; the
    /// playlist, the mode and the chosen device stay.
    pub fn stop(&mut self)
        ensures
            final(self)@ == stopped_model(old(self)@),
    {
        self.stop_inner();
        self.file_path = None;
        self.sample_rate = 0;
        self.paused = false;
    }

    /// The transport state.
    pub fn state(&self) -> (s: PlaybackState)
        ensures
            s == state_of(self@),
    {
        if !self.has_sink {
            PlaybackState::Stopped
        } else if self.paused {
            PlaybackState::Paused
        } else {
            PlaybackState::Playing
        }
    }

    /// Sample rate of the current output (0 when stopped).
    pub fn sample_rate(&self) -> (r: u32)
        ensures
            r == self@.sample_rate,
    {
        self.sample_rate
    }

    /// Switches to the next track after its file was opened: when the player
    /// is still playing (not paused), the old output is torn down (the rest
    /// of the queue stays for the following tracks), `path` becomes the
    /// current file and `true` is returned (the caller then starts the
    /// output); otherwise nothing changes and `false` is returned.
    pub fn begin_next_track(&mut self, path: String, sample_rate: u32) -> (go: bool)
        ensures
            go == (old(self)@.has_sink && !old(self)@.paused),
            final(self)@ == (if go {
                next_track_model(old(self)@, path@, sample_rate)
            } else {
                old(self)@
            }),
    {
        if self.paused || !self.has_sink {
            return false;
        }
        self.has_sink = false;
        self.paused = false;
        self.file_path = Some(path);
        self.sample_rate = sample_rate;
        true
    }

    /// Takes the next track according to the playback mode. Nothing is taken
    /// while paused or stopped. Sequential takes the front of the queue;
    /// LoopOne repeats the current file; LoopAll refills an empty queue from
    /// the playlist; Shuffle refills an empty queue with a random order of
    /// the playlist without the current track.
    pub fn advance_queue_internal(&mut self) -> (r: Option<String>)
        ensures
            ({
                let o = old(self)@;
                let n = final(self)@;
                &&& n == PlayerModel { queue: n.queue, ..o }
                &&& if o.paused || !o.has_sink {
                    r is None && n.queue == o.queue
                } else {
                    match o.mode {
                        PlaybackMode::Sequential => (r.deep_view(), n.queue) == pop_front(o.queue),
                        PlaybackMode::LoopOne => r.deep_view() == o.file_path && n.queue
                            == o.queue,
                        PlaybackMode::LoopAll => (r.deep_view(), n.queue) == pop_front(
                            if o.queue.len() == 0 {
                                o.original_queue
                            } else {
                                o.queue
                            },
                        ),
                        PlaybackMode::Shuffle => if o.queue.len() > 0 {
                            (r.deep_view(), n.queue) == pop_front(o.queue)
                        } else {
                            exists|p: Seq<Seq<char>>|
                                p.to_multiset() == shuffle_pool(
                                    o.original_queue,
                                    o.file_path,
                                ).to_multiset() && (r.deep_view(), n.queue) == pop_front(p)
                        },
                    }
                }
            }),
    {
        if self.paused || !self.has_sink {
            return None;
        }
        match self.mode {
            PlaybackMode::Sequential => pop_front_path(&mut self.queue),
            PlaybackMode::LoopOne => clone_opt_path(&self.file_path),
            PlaybackMode::LoopAll => {
                if self.queue.len() == 0 {
                    self.queue = clone_paths(&self.original_queue);
                }
                pop_front_path(&mut self.queue)
            },
            PlaybackMode::Shuffle => {
                if self.queue.len() == 0 {
                    self.queue = shuffled_pool(&self.original_queue, &self.file_path);
                    let ghost p = self.queue.deep_view();
                    let r = pop_front_path(&mut self.queue);
                    proof {
                        assert((r.deep_view(), self.queue.deep_view()) == pop_front(p));
                    }
                    r
                } else {
                    pop_front_path(&mut self.queue)
                }
            },
        }
    }

    /// Sets the playback mode. Switching to Shuffle with a non-empty playlist
    /// reshuffles the queue: a random order of the playlist without the
    /// current track.
    pub fn set_playback_mode(&mut self, mode: PlaybackMode)
        ensures
            ({
                let o = old(self)@;
                let n = final(self)@;
                &&& n == PlayerModel { mode: mode, queue: n.queue, ..o }
                &&& if mode == PlaybackMode::Shuffle && o.original_queue.len() > 0 {
                    n.queue.to_multiset() == shuffle_pool(
                        o.original_queue,
                        o.file_path,
                    ).to_multiset()
                } else {
                    n.queue == o.queue
                }
            }),
    {
        self.mode = mode;
        if mode == PlaybackMode::Shuffle && self.original_queue.len() > 0 {
            let mut shuffled = clone_paths(&self.original_queue);
            shuffle_paths(&mut shuffled);
            match &self.file_path {
                Some(current) => {
                    let kept = paths_without(&shuffled, current);
                    proof {
                        lemma_without_permutation(
                            shuffled.deep_view(),
                            self.original_queue.deep_view(),
                            current@,
                        );
                    }
                    self.queue = kept;
                },
                None => {
                    self.queue = shuffled;
                },
            }
        }
    }

    /// The playback mode.
    pub fn playback_mode(&self) -> (m: PlaybackMode)
        ensures
            m == self@.mode,
    {
        self.mode
    }

    /// Replaces queue and playlist with `paths`.
    pub fn set_queue(&mut self, paths: Vec<String>)
        ensures
            final(self)@ == (PlayerModel {
                queue: paths.deep_view(),
                original_queue: paths.deep_view(),
                ..old(self)@
            }),
    {
        self.queue = clone_paths(&paths);
        self.original_queue = paths;
    }

    /// Appends `path` to the queue and to the playlist.
    pub fn enqueue(&mut self, path: String)
        ensures
            final(self)@ == (PlayerModel {
                queue: old(self)@.queue.push(path@),
                original_queue: old(self)@.original_queue.push(path@),
                ..old(self)@
            }),
    {
        let copy = path.clone();
        self.queue.push(copy);
        self.original_queue.push(path);
        proof {
            assert(self.queue.deep_view() =~= old(self)@.queue.push(path@));
            assert(self.original_queue.deep_view() =~= old(self)@.original_queue.push(path@));
        }
    }

    /// The tracks still to come.
    pub fn get_queue(&self) -> (q: Vec<String>)
        ensures
            q.deep_view() == self@.queue,
    {
        clone_paths(&self.queue)
    }

    /// Empties queue and playlist.
    pub fn clear_queue(&mut self)
        ensures
            final(self)@ == (PlayerModel {
                queue: Seq::empty(),
                original_queue: Seq::empty(),
                ..old(self)@
            }),
    {
        self.queue.clear();
        self.original_queue.clear();
        proof {
            assert(self.queue.deep_view() =~= Seq::empty());
            assert(self.original_queue.deep_view() =~= Seq::empty());
        }
    }

    /// Sets the playlist to `paths`, the queue to the tracks after
    /// `current_index`.
    pub fn set_playlist(&mut self, paths: Vec<String>, current_index: usize)
        requires
            current_index < usize::MAX,
        ensures
            final(self)@ == (PlayerModel {
                queue: playlist_rest(paths.deep_view(), current_index as int),
                original_queue: paths.deep_view(),
                ..old(self)@
            }),
    {
        self.queue = rest_after(&paths, current_index);
        self.original_queue = paths;
    }

    /// Selects the output device by name (`None`: the system default).
    pub fn set_output_device(&mut self, device_name: Option<String>)
        ensures
            final(self)@ == (PlayerModel { output_device: device_name.deep_view(), ..old(self)@ }),
    {
        self.output_device = device_name;
    }

    /// The selected output device.
    pub fn output_device(&self) -> (d: Option<String>)
        ensures
            d.deep_view() == self@.output_device,
    {
        clone_opt_path(&self.output_device)
    }

    /// The file being played.
    pub fn current_file_path(&self) -> (p: Option<String>)
        ensures
            p.deep_view() == self@.file_path,
    {
        clone_opt_path(&self.file_path)
    }
}

/// The tracks of a playlist after position `current_index`.
pub open spec fn playlist_rest(paths: Seq<Seq<char>>, current_index: int) -> Seq<Seq<char>> {
    if current_index + 1 < paths.len() {
        paths.subrange(current_index + 1, paths.len() as int)
    } else {
        Seq::empty()
    }
}

/// A copy of the entries of `paths` after `current_index`.
pub fn rest_after(paths: &Vec<String>, current_index: usize) -> (r: Vec<String>)
    requires
        current_index < usize::MAX,
    ensures
        r.deep_view() == playlist_rest(paths.deep_view(), current_index as int),
{
    let mut r: Vec<String> = Vec::new();
    if current_index + 1 < paths.len() {
        let mut i: usize = current_index + 1;
        while i < paths.len()
            invariant
                current_index + 1 <= i <= paths.len(),
                r.deep_view() =~= paths.deep_view().subrange(current_index + 1, i as int),
            decreases paths.len() - i,
        {
            let p = paths[i].clone();
            let ghost old_r = r.deep_view();
            r.push(p);
            proof {
                assert(r.deep_view() =~= old_r.push(paths.deep_view()[i as int]));
            }
            i = i + 1;
        }
    } else {
        proof {
            assert(r.deep_view() =~= Seq::empty());
        }
    }
    r
}

// ---------------------------------------------------------------------------
// Laws
// ---------------------------------------------------------------------------

/// After `set_playlist(paths, i)` a playing player in sequential mode moves
/// on to track `i + 1` (the next track taken from the queue, then switched
/// to), and the queue keeps the tracks after it.
pub proof fn law_playlist_advances_in_order(
    m: PlayerModel,
    paths: Seq<Seq<char>>,
    i: int,
    sample_rate: u32,
)
    requires
        0 <= i,
        i + 1 < paths.len(),
        m.queue == playlist_rest(paths, i),
    ensures
        ({
            let (next, rest) = pop_front(m.queue);
            &&& next == Some(paths[i + 1])
            &&& rest == playlist_rest(paths, i + 1)
            &&& next_track_model(PlayerModel { queue: rest, ..m }, paths[i + 1], sample_rate).queue
                == playlist_rest(paths, i + 1)
            &&& next_track_model(PlayerModel { queue: rest, ..m }, paths[i + 1], sample_rate).file_path
                == Some(paths[i + 1])
        }),
{
    assert(playlist_rest(paths, i).drop_first() =~= playlist_rest(paths, i + 1));
}

/// A shuffled queue never holds the current track, and holds every other
/// track of the playlist as often as the playlist does.
pub proof fn law_shuffle_pool_counts(
    original: Seq<Seq<char>>,
    current: Option<Seq<char>>,
    track: Seq<char>,
)
    ensures
        shuffle_pool(original, current).to_multiset().count(track) == (if current == Some(track) {
            0
        } else {
            original.to_multiset().count(track)
        }),
{
    if let Some(c) = current {
        lemma_without_count(original, c, track);
    }
}

/// In LoopAll mode a non-empty playlist never runs out of tracks.
pub proof fn law_loop_all_never_runs_dry(queue: Seq<Seq<char>>, original: Seq<Seq<char>>)
    requires
        original.len() > 0,
    ensures
        (pop_front(if queue.len() == 0 {
            original
        } else {
            queue
        }).0 is Some),
{
}

/// Pausing a playing player reports Paused, and resuming restores the
/// state it had before the pause.
pub proof fn law_pause_resume_round_trip(m: PlayerModel)
    requires
        m.has_sink,
        !m.paused,
    ensures
        state_of(m) == PlaybackState::Playing,
        state_of(paused_model(m)) == PlaybackState::Paused,
        resumed_model(paused_model(m)) == m,
{
}

/// A stopped player reports Stopped, has no current file and an empty
/// queue, and keeps its playlist, mode and device.
pub proof fn law_stop_reports_stopped(m: PlayerModel)
    ensures
        ({
            let n = stopped_model(m);
            &&& state_of(n) == PlaybackState::Stopped
            &&& n.file_path is None
            &&& n.queue.len() == 0
            &&& n.original_queue == m.original_queue
            &&& n.mode == m.mode
            &&& n.output_device == m.output_device
            &&& stopped_model(n) == n
        }),
{
}

/// Folding the pause under way into the finished pauses, as resuming does,
/// leaves the played time unchanged.
pub proof fn law_resume_keeps_played_time(elapsed: u128, total_paused: u128, pause: u128)
    requires
        total_paused + pause <= u128::MAX,
    ensures
        net_played(elapsed, total_paused, true, Some(pause)) == net_played(
            elapsed,
            (total_paused + pause) as u128,
            false,
            None,
        ),
{
}

} // verus!
