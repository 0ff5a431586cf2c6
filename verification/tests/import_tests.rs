use musicplayer::decoder::is_dsd_path;
use musicplayer::device::unique_names;
use musicplayer::dropped_files::dropped_paths;
use musicplayer::import::{
    extract_song_fields, import_step, is_audio_file, parse_filename, record_insert, ImportResult, ImportStep, SongLookup,
    TagFields,
};
use musicplayer::lyrics_parser::{choose_lyrics_source, LyricsSource};
use musicplayer::symphonia_decoder::format_hint;
use musicplayer::time_format::format_time_secs;

fn s(x: &str) -> Option<String> {
    Some(x.to_string())
}

#[test]
fn audio_extensions() {
    assert!(is_audio_file("/music/a.flac"));
    assert!(is_audio_file("C:/music/B.MP3"));
    assert!(is_audio_file("x.M4a"));
    assert!(!is_audio_file("cover.jpg"));
    assert!(!is_audio_file("noext"));
    assert!(!is_audio_file("/music/.flac"));
}

#[test]
fn filename_title_artist_album() {
    assert_eq!(parse_filename("/m/Song - Singer[Album].flac"), (s("Song"), s("Singer"), s("Album")));
    assert_eq!(parse_filename("/m/Song - Singer.mp3"), (s("Song"), s("Singer"), None));
    assert_eq!(parse_filename("/m/Just a title.wav"), (s("Just a title"), None, None));
    assert_eq!(parse_filename("/m/ Song  -  Singer [ Best Of ] .ogg"), (s("Song"), s("Singer"), s("Best Of")));
}

#[test]
fn filename_edge_cases() {
    assert_eq!(parse_filename("/m/ - Singer.mp3"), (s("- Singer"), None, None));
    assert_eq!(parse_filename("/m/x  - Singer.mp3"), (s("x"), s("Singer"), None));
    assert_eq!(parse_filename("/m/[A] - Singer.mp3"), (None, None, s("A")));
    assert_eq!(parse_filename("/m/[Album].mp3"), (None, None, s("Album")));
    assert_eq!(parse_filename("/m/a]b[c.mp3"), (s("a]b[c"), None, None));
    assert_eq!(parse_filename("/m/x[].mp3"), (s("x"), None, s("")));
    assert_eq!(parse_filename("/m/A - B - C.mp3"), (s("A"), s("B - C"), None));
    assert_eq!(parse_filename("/"), (None, None, None));
}

#[test]
fn song_fields_prefer_file_name() {
    let tags = Some(TagFields {
        title: s("Tag Title"),
        artist: s("Tag Artist"),
        album: s("Tag Album"),
        cover_mime: s("image/png"),
        cover_data: Some(b"abc".to_vec()),
    });
    let (t, a, b, c) = extract_song_fields("/m/Song - Singer.mp3", &tags);
    assert_eq!(t, "Song");
    assert_eq!(a, "Singer");
    assert_eq!(b, "Tag Album");
    assert_eq!(c, s("data:image/png;base64,YWJj"));
}

#[test]
fn song_fields_defaults() {
    let (t, a, b, c) = extract_song_fields("/m/[Live].mp3", &None);
    assert_eq!(t, "未知标题");
    assert_eq!(a, "未知艺术家");
    assert_eq!(b, "Live");
    assert_eq!(c, None);
    let tags = Some(TagFields { title: None, artist: None, album: None, cover_mime: None, cover_data: Some(vec![1]) });
    let (_, _, album, cover) = extract_song_fields("/m/x.mp3", &tags);
    assert_eq!(album, "未知专辑");
    assert_eq!(cover, None);
}

#[test]
fn decoder_choice_and_hints() {
    assert!(is_dsd_path("a.DSF"));
    assert!(is_dsd_path("b.dff"));
    assert!(!is_dsd_path("c.flac"));
    assert_eq!(format_hint("song.AIF"), Some("aiff"));
    assert_eq!(format_hint("song.flac"), Some("flac"));
    assert_eq!(format_hint("song.opus"), None);
    assert_eq!(format_hint("song"), None);
}

#[test]
fn device_names_deduplicated() {
    let names = vec!["Speakers".to_string(), "JBL".to_string(), "Speakers".to_string(), "HDMI".to_string()];
    assert_eq!(unique_names(names), vec!["Speakers".to_string(), "JBL".to_string(), "HDMI".to_string()]);
}

#[test]
fn clock_format() {
    assert_eq!(format_time_secs(0), "0:00");
    assert_eq!(format_time_secs(61), "1:01");
    assert_eq!(format_time_secs(3599), "59:59");
    assert_eq!(format_time_secs(3600), "60:00");
    assert_eq!(format_time_secs(125), "2:05");
}

fn empty_result() -> ImportResult {
    ImportResult { total_found: 3, total_imported: 0, total_skipped: 0, errors: Vec::new() }
}

#[test]
fn import_steps_per_lookup() {
    let mut r = empty_result();
    let cover = Some("data:image/png;base64,AA==".to_string());
    // stored without cover: the new cover is set, the duration only when stale
    let s = import_step(&mut r, SongLookup::Found { has_cover: false, duration_stale: false }, cover.clone(), true);
    assert!(matches!(s, ImportStep::Refresh { cover: Some(ref c), refresh_duration: false } if c.starts_with("data:")));
    // stored with cover but stale duration: only the duration is refreshed
    let s = import_step(&mut r, SongLookup::Found { has_cover: true, duration_stale: true }, cover.clone(), true);
    assert!(matches!(s, ImportStep::Refresh { cover: None, refresh_duration: true }));
    let s = import_step(&mut r, SongLookup::Found { has_cover: true, duration_stale: true }, None, false);
    assert!(matches!(s, ImportStep::Refresh { cover: None, refresh_duration: false }));
    let s = import_step(&mut r, SongLookup::Found { has_cover: true, duration_stale: false }, cover.clone(), true);
    assert!(matches!(s, ImportStep::UpToDate));
    assert_eq!(r.total_skipped, 4);
    let s = import_step(&mut r, SongLookup::Missing, cover.clone(), true);
    assert!(matches!(s, ImportStep::Insert));
    assert_eq!(r.total_skipped, 4);
    let s = import_step(&mut r, SongLookup::Failed("locked".to_string()), None, false);
    assert!(matches!(s, ImportStep::Report));
    assert_eq!(r.errors, vec!["µƒÑΦ»óµò░µì«σ║ôσñ▒Φ┤Ñ: locked".to_string()]);
    record_insert(&mut r, Ok(()));
    record_insert(&mut r, Err("disk full".to_string()));
    assert_eq!(r.total_imported, 1);
    assert_eq!(r.errors[1], "µ╖╗σèáσê░µò░µì«σ║ôσñ▒Φ┤Ñ: disk full");
    assert_eq!(r.total_found, 3);
}

#[test]
fn lyrics_source_order() {
    let text = Some("[00:01]la".to_string());
    let plain = Some("just words".to_string());
    assert_eq!(choose_lyrics_source(Some(true), Some(true), &text, true), LyricsSource::StemLrc);
    assert_eq!(choose_lyrics_source(Some(false), Some(true), &text, true), LyricsSource::NameLrc);
    assert_eq!(choose_lyrics_source(None, Some(false), &text, true), LyricsSource::EmbeddedLrc);
    assert_eq!(choose_lyrics_source(None, None, &text, false), LyricsSource::EmbeddedText);
    assert_eq!(choose_lyrics_source(None, None, &plain, true), LyricsSource::EmbeddedText);
    assert_eq!(choose_lyrics_source(Some(false), None, &None, false), LyricsSource::NoLyrics);
}

#[test]
fn dropped_list_parsing() {
    assert_eq!(
        dropped_paths("C:/m/a.flac\n  C:/m/b.mp3 \r\n\n   \nC:/m/c.wav\n"),
        vec!["C:/m/a.flac".to_string(), "C:/m/b.mp3".to_string(), "C:/m/c.wav".to_string()]
    );
    assert!(dropped_paths("").is_empty());
    assert!(dropped_paths(" \n\t").is_empty());
}

#[test]
fn each_file_counted_once() {
    let count = |r: &ImportResult| r.total_imported + r.total_skipped + r.errors.len();
    let mut r = empty_result();
    import_step(&mut r, SongLookup::Found { has_cover: true, duration_stale: false }, None, false);
    assert_eq!(count(&r), 1);
    import_step(&mut r, SongLookup::Failed("x".to_string()), None, false);
    assert_eq!(count(&r), 2);
    let s = import_step(&mut r, SongLookup::Missing, None, false);
    assert!(matches!(s, ImportStep::Insert));
    assert_eq!(count(&r), 2);
    record_insert(&mut r, Ok(()));
    assert_eq!(count(&r), 3);
}
