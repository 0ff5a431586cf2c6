use musicplayer::backend::{from_player_state, PlaybackState as BackendState};
use musicplayer::dsd_decoder::DsdDecoder;
use musicplayer::error::{DecoderError, DeviceError, PlaybackError};
use musicplayer::filter::{profile_from_index, FilterProfile};
use musicplayer::pipeline::{current_frame_len, skip_step};
use musicplayer::playback::{
    advance_action, is_bluetooth_device, net_played_nanos, next_play_mode, played_out, AdvanceAction, AdvanceAttempt,
    PlaybackMode, PlaybackState, Player, MAX_ADVANCE_TRIES,
};
use musicplayer::spectrum::{SpectrumOutput, BAND_COUNT};
use musicplayer::wasapi_backend::WasapiBackend;
use musicplayer::wasapi_control::AudioControl;

fn paths(names: &[&str]) -> Vec<String> {
    names.iter().map(|n| n.to_string()).collect()
}

fn playing_player(current: &str) -> Player {
    let mut p = Player::new();
    assert!(!p.play(current.to_string()));
    p.start_playback_inner(48000);
    p
}

#[test]
fn transport_states() {
    let mut p = Player::new();
    assert_eq!(p.state(), PlaybackState::Stopped);
    assert!(!p.pause());
    p.play("a.flac".to_string());
    assert_eq!(p.sample_rate(), 44100);
    p.start_playback_inner(96000);
    assert_eq!(p.state(), PlaybackState::Playing);
    assert_eq!(p.sample_rate(), 96000);
    assert!(p.pause());
    assert!(!p.pause());
    assert_eq!(p.state(), PlaybackState::Paused);
    assert!(p.resume());
    assert!(!p.resume());
    assert_eq!(p.state(), PlaybackState::Playing);
    assert!(p.play("b.flac".to_string()));
    assert_eq!(p.state(), PlaybackState::Stopped);
    p.stop();
    assert_eq!(p.current_file_path(), None);
    assert_eq!(p.sample_rate(), 0);
    assert_eq!(from_player_state(PlaybackState::Paused), BackendState::Paused);
}

#[test]
fn playlist_sequential() {
    let mut p = playing_player("a");
    p.set_playlist(paths(&["a", "b", "c"]), 0);
    assert_eq!(p.get_queue(), paths(&["b", "c"]));
    assert_eq!(p.advance_queue_internal(), Some("b".to_string()));
    assert_eq!(p.advance_queue_internal(), Some("c".to_string()));
    assert_eq!(p.advance_queue_internal(), None);
    p.set_playlist(paths(&["a", "b"]), 1);
    assert!(p.get_queue().is_empty());
}

#[test]
fn loop_modes() {
    let mut p = playing_player("a");
    p.set_playlist(paths(&["a", "b"]), 1);
    p.set_playback_mode(PlaybackMode::LoopOne);
    assert_eq!(p.playback_mode(), PlaybackMode::LoopOne);
    assert_eq!(p.advance_queue_internal(), Some("a".to_string()));
    p.set_playback_mode(PlaybackMode::LoopAll);
    assert_eq!(p.advance_queue_internal(), Some("a".to_string()));
    assert_eq!(p.get_queue(), paths(&["b"]));
    assert!(p.pause());
    assert_eq!(p.advance_queue_internal(), None);
}

#[test]
fn shuffle_excludes_current() {
    let mut p = playing_player("b");
    p.set_playlist(paths(&["a", "b", "c", "d"]), 1);
    p.set_playback_mode(PlaybackMode::Shuffle);
    let mut q = p.get_queue();
    q.sort();
    assert_eq!(q, paths(&["a", "c", "d"]));
    let mut seen = Vec::new();
    for _ in 0..3 {
        seen.push(p.advance_queue_internal().unwrap());
    }
    seen.sort();
    assert_eq!(seen, paths(&["a", "c", "d"]));
    let next = p.advance_queue_internal().unwrap();
    assert_ne!(next, "b");
}

#[test]
fn queue_edits() {
    let mut p = Player::new();
    p.set_queue(paths(&["x", "y"]));
    assert_eq!(p.get_queue(), paths(&["x", "y"]));
    p.enqueue("z".to_string());
    assert_eq!(p.get_queue(), paths(&["x", "y", "z"]));
    p.clear_queue();
    assert!(p.get_queue().is_empty());
    let mut q = playing_player("x");
    q.set_queue(paths(&["x", "y"]));
    assert_eq!(q.get_queue(), paths(&["x", "y"]));
    q.set_output_device(Some("JBL Go".to_string()));
    assert_eq!(q.output_device(), Some("JBL Go".to_string()));
    assert!(q.begin_next_track("y".to_string(), 44100));
    assert_eq!(q.current_file_path(), Some("y".to_string()));
    assert_eq!(q.get_queue(), paths(&["x", "y"]));
}

#[test]
fn gapless_advance_keeps_the_rest() {
    // Rodio: take the next track, switch to it, start it; the rest stays queued.
    let mut p = playing_player("a");
    p.set_playlist(paths(&["a", "b", "c"]), 0);
    for expected in ["b", "c"] {
        let next = p.advance_queue_internal().unwrap();
        assert_eq!(next, expected);
        assert!(p.begin_next_track(next, 44100));
        p.start_playback_inner(44100);
        assert_eq!(p.current_file_path(), Some(expected.to_string()));
    }
    assert_eq!(p.advance_queue_internal(), None);
    // WASAPI: advance, load the taken track, start it; the rest stays queued.
    let mut b = WasapiBackend::new(44100, 2);
    let mut c = AudioControl::new();
    b.load("a".to_string());
    b.stream_started(44100, 2, &mut c);
    b.set_playlist(paths(&["a", "b", "c"]), 0);
    let next = b.advance_queue(&mut c).unwrap();
    assert_eq!(next, "b");
    b.load_next(next);
    assert_eq!(b.take_start_offset(), 0);
    b.stream_started(44100, 2, &mut c);
    assert_eq!(b.current_file_path(), Some("b".to_string()));
    assert_eq!(b.get_queue(), paths(&["c"]));
    assert_eq!(b.advance_queue(&mut c), Some("c".to_string()));
}

#[test]
fn bluetooth_names() {
    assert!(is_bluetooth_device("JBL Flip 5"));
    assert!(is_bluetooth_device("WH-1000XM4 (Sony)"));
    assert!(is_bluetooth_device("小米蓝牙音箱"));
    assert!(is_bluetooth_device("AirPods Pro"));
    assert!(is_bluetooth_device("Galaxy Buds2"));
    assert!(!is_bluetooth_device("Realtek High Definition Audio"));
    assert!(!is_bluetooth_device("Galaxy  Buds"));
}

#[test]
fn control_block_encodings() {
    let mut c = AudioControl::new();
    assert!(c.is_stopped());
    assert_eq!(c.volume_factor_scaled(), 1000);
    c.set_state(BackendState::Playing);
    assert!(c.is_playing() && !c.is_paused() && !c.is_stopped());
    c.set_state(BackendState::Paused);
    assert!(c.is_paused() && !c.is_playing());
    c.set_filter(FilterProfile::MinimumPhase);
    assert_eq!(c.filter_index(), 3);
    assert_eq!(profile_from_index(c.filter_index()), FilterProfile::MinimumPhase);
    assert_eq!(profile_from_index(17), FilterProfile::NOS);
    c.add_samples(u64::MAX);
    c.add_samples(2);
    assert_eq!(c.samples_played(), 1);
    c.clear_samples();
    assert_eq!(c.samples_played(), 0);
    c.set_eof();
    assert!(c.is_eof());
    c.clear_eof();
    assert!(!c.is_eof());
    c.store_volume_factor(500);
    assert_eq!(c.volume_factor_scaled(), 500);
}

#[test]
fn wasapi_advance_and_stop() {
    let mut b = WasapiBackend::new(44100, 2);
    let mut c = AudioControl::new();
    assert!(b.load("a".to_string()));
    b.stream_started(44100, 2, &mut c);
    assert_eq!(b.state(), BackendState::Playing);
    assert!(!b.load("q".to_string()));
    assert_eq!(b.get_queue(), paths(&["q"]));
    b.set_playlist(paths(&["a", "b"]), 0);
    assert!(!b.sink_empty(&c));
    c.set_eof();
    assert!(b.sink_empty(&c));
    assert_eq!(b.advance_queue(&mut c), Some("b".to_string()));
    assert_eq!(b.state(), BackendState::Stopped);
    assert!(c.is_stopped());
    assert_eq!(b.advance_queue(&mut c), None);
}

#[test]
fn wasapi_end_of_queue_resets() {
    let mut b = WasapiBackend::new(48000, 2);
    let mut c = AudioControl::new();
    b.load("a".to_string());
    b.stream_started(48000, 2, &mut c);
    assert_eq!(b.advance_queue(&mut c), None);
    assert_eq!(b.sample_rate(), 0);
    assert_eq!(b.current_file_path(), None);
}

#[test]
fn wasapi_play_pause_seek() {
    let mut b = WasapiBackend::new(44100, 2);
    let mut c = AudioControl::new();
    assert_eq!(b.play(&mut c), Err(PlaybackError::Other("No file to play".to_string())));
    assert_eq!(b.seek(10), Err(PlaybackError::Other("No file loaded for seek".to_string())));
    b.load("a".to_string());
    b.stream_started(44100, 2, &mut c);
    assert!(b.pause(&mut c));
    assert!(c.is_paused());
    assert_eq!(b.play(&mut c), Ok(None));
    assert!(c.is_playing());
    assert_eq!(b.seek(4410), Ok(("a".to_string(), true)));
    assert_eq!(b.take_start_offset(), 4410);
    assert_eq!(b.take_start_offset(), 0);
    b.stop(&mut c);
    assert_eq!(b.play(&mut c), Err(PlaybackError::Other("No file to play".to_string())));
    assert_eq!(b.validate_sample_rate(48000), Err(PlaybackError::Device(DeviceError::UnsupportedFormat)));
    assert_eq!(b.validate_sample_rate(44100), Ok(()));
    b.set_filter(FilterProfile::LinearPhaseFast);
    assert_eq!(b.reset_control().filter_index(), 2);
}

#[test]
fn error_messages() {
    assert_eq!(PlaybackError::Decoder(DecoderError::NoAudioTrack).message(), "解码错误: 未找到音频轨道");
    assert_eq!(PlaybackError::Device(DeviceError::Play("x".to_string())).message(), "设备错误: 播放错误: x");
    assert_eq!(PlaybackError::NoDevice.message(), "未找到音频设备");
    assert_eq!(PlaybackError::Io(std::io::ErrorKind::NotFound).message(), "IO 错误: NotFound");
    assert_eq!(DecoderError::IoError("gone".to_string()).message(), "IO 错误: gone");
    assert_eq!(PlaybackError::from(DeviceError::NoDefaultDevice), PlaybackError::Device(DeviceError::NoDefaultDevice));
    assert_eq!(PlaybackError::from(DecoderError::SeekNotSupported), PlaybackError::Decoder(DecoderError::SeekNotSupported));
}

#[test]
fn dsd_not_supported() {
    assert!(matches!(DsdDecoder::open("a.dsf"), Err(DecoderError::UnsupportedSampleFormat)));
}

#[test]
fn spectrum_slots() {
    let mut o = SpectrumOutput::new();
    assert_eq!(o.band_bits(), vec![0u32; BAND_COUNT]);
    o.set_band_bits(3, 0.5f32.to_bits());
    o.set_band_bits(64, 7);
    let bands = o.band_bits();
    assert_eq!(f32::from_bits(bands[3]), 0.5);
    assert_eq!(bands.len(), 64);
}

#[test]
fn played_time_excludes_pauses() {
    let sec: u128 = 1_000_000_000;
    // 10 s since start, 3 s of finished pauses, 2 s into the current pause
    assert_eq!(net_played_nanos(10 * sec, 3 * sec, true, Some(2 * sec)), 5 * sec);
    assert_eq!(net_played_nanos(10 * sec, 3 * sec, false, Some(2 * sec)), 7 * sec);
    // resuming folds the pause into the total: same played time
    assert_eq!(net_played_nanos(10 * sec, 5 * sec, false, None), 5 * sec);
}

#[test]
fn track_played_out_after_a_second() {
    let sec: u128 = 1_000_000_000;
    assert!(played_out(true, Some(3 * sec), sec, false, None));
    assert!(!played_out(true, Some(2 * sec), sec, false, None));
    assert!(!played_out(false, Some(30 * sec), 0, false, None));
    assert!(!played_out(true, None, 0, false, None));
    assert!(!played_out(true, Some(3 * sec), 0, true, Some(2 * sec + 1)));
}

#[test]
fn skip_steps_through_buffers() {
    // 10 frames wanted, stereo buffer of 8 samples: 4 frames skipped
    assert_eq!(skip_step(10, 0, 8, 0, 2), (8, 4));
    // the rest fits in the next buffer: 6 frames are 12 samples
    assert_eq!(skip_step(10, 4, 100, 0, 2), (12, 10));
    // one frame of a stereo buffer is two samples
    assert_eq!(skip_step(1, 0, 4, 0, 2), (2, 1));
    // a trailing half frame is never skipped
    assert_eq!(skip_step(10, 0, 5, 2, 2), (4, 1));
    assert_eq!(current_frame_len(0, 2), None);
    assert_eq!(current_frame_len(4096, 2), Some(2048));
}

#[test]
fn play_mode_button_cycles() {
    let mut m = PlaybackMode::Sequential;
    let mut seen = Vec::new();
    for _ in 0..4 {
        m = next_play_mode(m);
        seen.push(m);
    }
    assert_eq!(seen, vec![PlaybackMode::LoopOne, PlaybackMode::LoopAll, PlaybackMode::Shuffle, PlaybackMode::Sequential]);
}

#[test]
fn advance_gives_up_after_twenty_tries() {
    assert_eq!(MAX_ADVANCE_TRIES, 20);
    assert_eq!(advance_action(0, AdvanceAttempt::NoNextTrack), AdvanceAction::Stop);
    assert_eq!(advance_action(0, AdvanceAttempt::Unreadable), AdvanceAction::TryNext);
    assert_eq!(advance_action(18, AdvanceAttempt::Unreadable), AdvanceAction::TryNext);
    assert_eq!(advance_action(19, AdvanceAttempt::Unreadable), AdvanceAction::Stop);
    assert_eq!(advance_action(19, AdvanceAttempt::Opened), AdvanceAction::Done);
}

#[test]
fn seek_reloads_and_drops_the_queue() {
    // WASAPI: a seek drops the stream and reloads the file through `load`.
    let mut b = WasapiBackend::new(44100, 2);
    let mut c = AudioControl::new();
    b.load("a".to_string());
    b.stream_started(44100, 2, &mut c);
    b.enqueue("b".to_string());
    assert_eq!(b.seek(4410), Ok(("a".to_string(), true)));
    assert!(b.load("a".to_string()));
    assert!(b.get_queue().is_empty());
    assert_eq!(b.take_start_offset(), 4410);
    // Rodio: a seek tears the output down the same way as a stop of the output.
    let mut p = playing_player("a");
    p.enqueue("b".to_string());
    p.stop_inner();
    p.start_playback_inner(44100);
    assert!(p.get_queue().is_empty());
    assert_eq!(p.current_file_path(), Some("a".to_string()));
}
