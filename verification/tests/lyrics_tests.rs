use musicplayer::lyrics_parser::{looks_like_lrc, split_lrc_lines};
use musicplayer::metadata::{cover_mime_or_default, embedded_lyrics};

fn seconds_of(minutes: &str, seconds: &str) -> Option<f64> {
    Some(minutes.parse::<f64>().ok()? * 60.0 + seconds.parse::<f64>().ok()?)
}

#[test]
fn test_parse_lrc() {
    let lrc = r#"[00:12.34]Hello world
[00:15.00]This is a test
[00:10.00]Earlier line
"#;
    let parts = split_lrc_lines(lrc);
    let mut lines: Vec<(f64, String)> = parts
        .iter()
        .filter_map(|p| seconds_of(&p.minutes, &p.seconds).map(|t| (t, p.text.clone())))
        .collect();
    lines.sort_by(|a, b| a.0.partial_cmp(&b.0).unwrap());
    assert_eq!(lines.len(), 3);
    assert_eq!(lines[0].0, 10.0);
    assert_eq!(lines[1].0, 12.34);
    assert_eq!(lines[2].0, 15.0);
}

#[test]
fn lrc_parts_in_text_order() {
    let parts = split_lrc_lines("[01:02.5]  first  \r\n\n   \n[00:01]second");
    assert_eq!(parts.len(), 2);
    assert_eq!(parts[0].minutes, "01");
    assert_eq!(parts[0].seconds, "02.5");
    assert_eq!(parts[0].text, "first");
    assert_eq!(parts[1].text, "second");
}

#[test]
fn lrc_skips_lines_without_usable_tag() {
    // no text, two colons, no colon, no closing bracket
    let parts = split_lrc_lines("[00:01]\n[00:01:02]x\n[ti]title\n[00:03 broken\nplain words");
    assert_eq!(parts.len(), 0);
}

#[test]
fn lrc_tag_need_not_start_with_bracket() {
    let parts = split_lrc_lines("x1:2]words");
    assert_eq!(parts.len(), 1);
    assert_eq!(parts[0].minutes, "1");
    assert_eq!(parts[0].seconds, "2");
}

#[test]
fn lrc_detection() {
    assert!(looks_like_lrc("[00:01]a"));
    assert!(!looks_like_lrc("just words: no brackets"));
    assert!(!looks_like_lrc("[verse]"));
}

#[test]
fn embedded_lyrics_trimmed() {
    assert_eq!(embedded_lyrics("  la la \n"), Some("la la".to_string()));
    assert_eq!(embedded_lyrics(" \t\n"), None);
    assert_eq!(cover_mime_or_default(None), "image/jpeg");
    assert_eq!(cover_mime_or_default(Some("image/png".to_string())), "image/png");
}
