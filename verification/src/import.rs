//! Music-folder import: which files count as audio, what a file name says
//! about title, artist and album, and how the fields of a song record are
//! chosen from the file name and the embedded tags.

use base64::engine::general_purpose::STANDARD;
use base64::Engine;
use vstd::prelude::*;

use crate::paths::{extension_of, file_stem_of, path_extension, path_file_stem};
use crate::text::{
    chars_of, find, find_exec, is_ws, lemma_find_first, lemma_find_in_range, lemma_rfind_in_range,
    lemma_rfind_last, lemma_rfind_none, lemma_trim_fixed, lemma_trim_nonempty_first,
    lemma_trim_nonempty_last, lowercase, rfind_char, rfind_char_exec, same_text, string_of_range,
    to_lowercase, trim, trim_bounds,
};

verus! {

broadcast use vstd::string::group_string_axioms;

/// The extensions of supported audio files, lowercase.
pub open spec fn is_audio_extension(ext: Seq<char>) -> bool {
    ||| ext == "mp3"@
    ||| ext == "flac"@
    ||| ext == "wav"@
    ||| ext == "ogg"@
    ||| ext == "m4a"@
    ||| ext == "aac"@
}

/// Whether a path names a supported audio file: its extension, lowercased,
/// is one of the supported ones.
pub open spec fn spec_is_audio_file(path: Seq<char>) -> bool {
    match path_extension(path) {
        Some(e) => is_audio_extension(lowercase(e)),
        None => false,
    }
}

/// Whether `path` names a supported audio file (mp3, flac, wav, ogg, m4a,
/// aac; the extension compared case-insensitively).
pub fn is_audio_file(path: &str) -> (b: bool)
    ensures
        b == spec_is_audio_file(path@),
{
    match extension_of(path) {
        Some(ext) => {
            let lower = to_lowercase(ext.as_str());
            let l = lower.as_str();
            same_text(l, "mp3") || same_text(l, "flac") || same_text(l, "wav") || same_text(
                l,
                "ogg",
            ) || same_text(l, "m4a") || same_text(l, "aac")
        },
        None => false,
    }
}

/// `Some(s)` unless `s` is empty.
pub open spec fn non_empty(s: Seq<char>) -> Option<Seq<char>> {
    if s.len() == 0 {
        None
    } else {
        Some(s)
    }
}

/// A trimmed stem split into its main part and the album in the last
/// `[...]` (when a `]` follows the last `[`).
pub open spec fn split_album(s: Seq<char>) -> (Seq<char>, Option<Seq<char>>) {
    match rfind_char(s, '[') {
        Some(b0) => match rfind_char(s, ']') {
            Some(b1) => if b1 > b0 {
                (trim(s.subrange(0, b0)), Some(trim(s.subrange(b0 + 1, b1))))
            } else {
                (s, None)
            },
            None => (s, None),
        },
        None => (s, None),
    }
}

/// Title, artist and album read from a file stem of the forms
/// `title - artist[album]`, `title - artist` and `title`.
pub open spec fn parse_stem(stem: Seq<char>) -> (
    Option<Seq<char>>,
    Option<Seq<char>>,
    Option<Seq<char>>,
) {
    let s = trim(stem);
    if s.len() == 0 {
        (None, None, None)
    } else {
        let (main, album) = split_album(s);
        match find(main, " - "@) {
            Some(d) => (
                non_empty(trim(main.subrange(0, d))),
                non_empty(trim(main.subrange(d + 3, main.len() as int))),
                album,
            ),
            None => if main.len() > 0 {
                (Some(main), None, album)
            } else {
                (None, None, album)
            },
        }
    }
}

/// Title, artist and album read from the file name of `path`.
pub open spec fn spec_parse_filename(path: Seq<char>) -> (
    Option<Seq<char>>,
    Option<Seq<char>>,
    Option<Seq<char>>,
) {
    match path_file_stem(path) {
        Some(stem) => parse_stem(stem),
        None => (None, None, None),
    }
}

/// A copy of `v[lo..hi]`.
fn sub_chars(v: &Vec<char>, lo: usize, hi: usize) -> (r: Vec<char>)
    requires
        lo <= hi <= v.len(),
    ensures
        r@ == v@.subrange(lo as int, hi as int),
{
    let mut r: Vec<char> = Vec::new();
    let mut i: usize = lo;
    while i < hi
        invariant
            lo <= i <= hi <= v.len(),
            r@ == v@.subrange(lo as int, i as int),
        decreases hi - i,
    {
        r.push(v[i]);
        i = i + 1;
    }
    r
}

/// `v` trimmed, as a new vector.
fn trimmed(v: &Vec<char>) -> (r: Vec<char>)
    ensures
        r@ == trim(v@),
{
    let (lo, hi) = trim_bounds(v, 0, v.len());
    proof {
        assert(v@.subrange(0, v@.len() as int) =~= v@);
    }
    sub_chars(v, lo, hi)
}

/// `Some` of the text of `v` unless it is empty.
fn non_empty_string(v: &Vec<char>) -> (r: Option<String>)
    ensures
        r.deep_view() == non_empty(v@),
{
    if v.len() == 0 {
        None
    } else {
        Some(string_of_range(v, 0, v.len()))
    }
}

/// Title, artist and album from a file stem.
pub fn parse_stem_exec(stem: &str) -> (r: (Option<String>, Option<String>, Option<String>))
    ensures
        (r.0.deep_view(), r.1.deep_view(), r.2.deep_view()) == parse_stem(stem@),
{
    let raw = chars_of(stem);
    let s = trimmed(&raw);
    if s.len() == 0 {
        return (None, None, None);
    }
    let mut main: Vec<char> = sub_chars(&s, 0, s.len());
    let mut album: Option<String> = None;
    proof {
        assert(main@ =~= s@);
    }
    match rfind_char_exec(&s, '[') {
        Some(b0) => {
            match rfind_char_exec(&s, ']') {
                Some(b1) => {
                    if b1 > b0 {
                        proof {
                            lemma_rfind_in_range(s@, '[');
                            lemma_rfind_in_range(s@, ']');
                        }
                        let name = sub_chars(&s, b0 + 1, b1);
                        let name_t = trimmed(&name);
                        album = Some(string_of_range(&name_t, 0, name_t.len()));
                        let head = sub_chars(&s, 0, b0);
                        main = trimmed(&head);
                        proof {
                            assert(name_t@.subrange(0, name_t@.len() as int) =~= name_t@);
                        }
                    }
                },
                None => {},
            }
        },
        None => {},
    }
    proof {
        assert(main@ == split_album(s@).0);
        assert(album.deep_view() == split_album(s@).1);
    }
    let dash = chars_of(" - ");
    proof {
        reveal_strlit(" - ");
    }
    match find_exec(&main, &dash) {
        Some(d) => {
            proof {
                lemma_find_in_range(main@, dash@);
            }
            let t = sub_chars(&main, 0, d);
            let a = sub_chars(&main, d + 3, main.len());
            let t2 = trimmed(&t);
            let a2 = trimmed(&a);
            (non_empty_string(&t2), non_empty_string(&a2), album)
        },
        None => {
            if main.len() > 0 {
                (Some(string_of_range(&main, 0, main.len())), None, album)
            } else {
                (None, None, album)
            }
        },
    }
}

/// Title, artist and album read from the file name of `path`:
/// `"title - artist[album].ext"`, `"title - artist.ext"` or `"title.ext"`.
pub fn parse_filename(path: &str) -> (r: (Option<String>, Option<String>, Option<String>))
    ensures
        (r.0.deep_view(), r.1.deep_view(), r.2.deep_view()) == spec_parse_filename(path@),
{
    match file_stem_of(path) {
        Some(stem) => parse_stem_exec(stem.as_str()),
        None => (None, None, None),
    }
}

/// The base64 digit for a value below 64: `A-Z`, `a-z`, `0-9`, `+`, `/`.
pub open spec fn b64_digit(v: int) -> char {
    if v < 26 {
        (65 + v) as char
    } else if v < 52 {
        (97 + v - 26) as char
    } else if v < 62 {
        (48 + v - 52) as char
    } else if v == 62 {
        '+'
    } else {
        '/'
    }
}

/// The standard, padded base64 encoding of `data` (RFC 4648): each group of
/// three bytes gives four digits of six bits; a last group of one or two
/// bytes is padded with `=`.
pub open spec fn base64_standard(data: Seq<u8>) -> Seq<char>
    decreases data.len(),
{
    if data.len() == 0 {
        Seq::empty()
    } else if data.len() == 1 {
        let a = data[0] as int;
        seq![b64_digit(a / 4), b64_digit((a % 4) * 16), '=', '=']
    } else if data.len() == 2 {
        let a = data[0] as int;
        let b = data[1] as int;
        seq![b64_digit(a / 4), b64_digit((a % 4) * 16 + b / 16), b64_digit((b % 16) * 4), '=']
    } else {
        let a = data[0] as int;
        let b = data[1] as int;
        let c = data[2] as int;
        seq![
            b64_digit(a / 4),
            b64_digit((a % 4) * 16 + b / 16),
            b64_digit((b % 16) * 4 + c / 64),
            b64_digit(c % 64),
        ] + base64_standard(data.subrange(3, data.len() as int))
    }
}

/// base64's `STANDARD.encode` (alphabet `A-Z a-z 0-9 + /`, `=` padding): the
/// result is `base64_standard` of the bytes, four characters per started
/// group of three bytes. It panics only when that length overflows `usize`,
/// which the bound on the input excludes.
#[verifier::external_body]
fn encode_base64(data: &[u8]) -> (s: String)
    requires
        data@.len() <= usize::MAX / 4 * 3,
    ensures
        s@ == base64_standard(data@),
        s@.len() == 4 * ((data@.len() + 2) / 3),
{
    STANDARD.encode(data)
}

/// The tag fields of an audio file that the import uses.
pub struct TagFields {
    pub title: Option<String>,
    pub artist: Option<String>,
    pub album: Option<String>,
    pub cover_mime: Option<String>,
    pub cover_data: Option<Vec<u8>>,
}

/// The first present value, else the default.
pub open spec fn first_or(a: Option<Seq<char>>, b: Option<Seq<char>>, d: Seq<char>) -> Seq<char> {
    match a {
        Some(x) => x,
        None => match b {
            Some(y) => y,
            None => d,
        },
    }
}

/// The tag value picked by `field` when tags were read.
pub open spec fn tag_value(tags: Option<TagFields>, field: int) -> Option<Seq<char>> {
    match tags {
        Some(t) => if field == 0 {
            t.title.deep_view()
        } else if field == 1 {
            t.artist.deep_view()
        } else {
            t.album.deep_view()
        },
        None => None,
    }
}

/// The cover as a `data:` URL, when the tags hold both picture and type.
pub open spec fn cover_url(tags: Option<TagFields>) -> Option<Seq<char>> {
    match tags {
        Some(t) => match (t.cover_data, t.cover_mime) {
            (Some(data), Some(mime)) => Some(
                "data:"@ + mime@ + ";base64,"@ + base64_standard(data@),
            ),
            _ => None,
        },
        None => None,
    }
}

/// Whether the cover picture, if any, is small enough to encode.
pub open spec fn cover_encodable(tags: Option<TagFields>) -> bool {
    tags matches Some(t) && t.cover_data matches Some(d) ==> d@.len() <= usize::MAX / 4 * 3
}

/// A copy of an optional string.
fn copy_opt(o: &Option<String>) -> (r: Option<String>)
    ensures
        r.deep_view() == o.deep_view(),
{
    match o {
        Some(s) => Some(s.clone()),
        None => None,
    }
}

/// `a` if present, else `b`, else the literal `d`.
fn pick(a: Option<String>, b: Option<String>, d: &str) -> (r: String)
    ensures
        r@ == first_or(a.deep_view(), b.deep_view(), d@),
{
    match a {
        Some(x) => x,
        None => match b {
            Some(y) => y,
            None => String::from_str(d),
        },
    }
}

/// Title, artist, album and cover URL of a song to import from `path`.
/// Title, artist and album come from the file name first, then from the
/// tags (`None` when they could not be read), then a default; the cover is
/// the tag picture as a base64 `data:` URL.
pub fn extract_song_fields(path: &str, tags: &Option<TagFields>) -> (r: (
    String,
    String,
    String,
    Option<String>,
))
    requires
        cover_encodable(*tags),
    ensures
        ({
            let (pt, pa, pb) = spec_parse_filename(path@);
            &&& r.0@ == first_or(pt, tag_value(*tags, 0), "未知标题"@)
            &&& r.1@ == first_or(pa, tag_value(*tags, 1), "未知艺术家"@)
            &&& r.2@ == first_or(pb, tag_value(*tags, 2), "未知专辑"@)
            &&& r.3.deep_view() == cover_url(*tags)
        }),
{
    let (pt, pa, pb) = parse_filename(path);
    let (tt, ta, tb) = match tags {
        Some(t) => (copy_opt(&t.title), copy_opt(&t.artist), copy_opt(&t.album)),
        None => (None, None, None),
    };
    let title = pick(pt, tt, "未知标题");
    let artist = pick(pa, ta, "未知艺术家");
    let album = pick(pb, tb, "未知专辑");
    let cover = match tags {
        Some(t) => match (&t.cover_data, &t.cover_mime) {
            (Some(data), Some(mime)) => {
                let encoded = encode_base64(data.as_slice());
                let url = String::from_str("data:").concat(mime.as_str()).concat(
                    ";base64,",
                ).concat(encoded.as_str());
                Some(url)
            },
            _ => None,
        },
        None => None,
    };
    (title, artist, album, cover)
}

/// Counts of a folder import.
#[derive(Debug, Clone)]
pub struct ImportResult {
    pub total_found: usize,
    pub total_imported: usize,
    pub total_skipped: usize,
    pub errors: Vec<String>,
}

/// What the library database holds for a file being imported.
pub enum SongLookup {
    /// The song is there: whether it has a cover, and whether its stored
    /// duration is unusable (zero, or so long it must have been stored in
    /// milliseconds).
    Found { has_cover: bool, duration_stale: bool },
    /// The song is not there yet.
    Missing,
    /// The lookup failed with this message.
    Failed(String),
}

/// What the import does with one file.
pub enum ImportStep {
    /// Update the stored song: the cover to set, if any, and whether to set
    /// the newly read duration.
    Refresh { cover: Option<String>, refresh_duration: bool },
    /// The stored song is complete; nothing to write.
    UpToDate,
    /// Add the song to the database.
    Insert,
    /// Nothing to write; the lookup error was recorded.
    Report,
}

/// The step for a song already in the library: refresh what is missing or
/// stale, else leave it.
pub open spec fn refresh_step(
    has_cover: bool,
    duration_stale: bool,
    new_cover: Option<String>,
    new_duration_positive: bool,
) -> ImportStep {
    if !has_cover || duration_stale {
        ImportStep::Refresh {
            cover: if has_cover {
                None
            } else {
                new_cover
            },
            refresh_duration: duration_stale && new_duration_positive,
        }
    } else {
        ImportStep::UpToDate
    }
}

/// What `import_step` does: the step for the lookup, and the counts: a song
/// already there is skipped, a failed lookup is recorded as an error.
pub open spec fn import_step_done(
    o: ImportResult,
    lookup: SongLookup,
    new_cover: Option<String>,
    new_duration_positive: bool,
    s: ImportStep,
    n: ImportResult,
) -> bool {
    &&& n.total_found == o.total_found
    &&& n.total_imported == o.total_imported
    &&& match lookup {
        SongLookup::Found { has_cover, duration_stale } => {
            &&& s == refresh_step(has_cover, duration_stale, new_cover, new_duration_positive)
            &&& n.total_skipped == o.total_skipped + 1
            &&& n.errors.deep_view() == o.errors.deep_view()
        },
        SongLookup::Missing => {
            &&& s == ImportStep::Insert
            &&& n.total_skipped == o.total_skipped
            &&& n.errors.deep_view() == o.errors.deep_view()
        },
        SongLookup::Failed(e) => {
            &&& s == ImportStep::Report
            &&& n.total_skipped == o.total_skipped
            &&& n.errors.deep_view() == o.errors.deep_view().push("µƒÑΦ»óµò░µì«σ║ôσñ▒Φ┤Ñ: "@ + e@)
        },
    }
}

/// What `record_insert` does: one more imported song, or the database error
/// recorded.
pub open spec fn record_insert_done(o: ImportResult, res: Result<(), String>, n: ImportResult) -> bool {
    &&& n.total_found == o.total_found
    &&& n.total_skipped == o.total_skipped
    &&& match res {
        Ok(()) => {
            &&& n.total_imported == o.total_imported + 1
            &&& n.errors.deep_view() == o.errors.deep_view()
        },
        Err(e) => {
            &&& n.total_imported == o.total_imported
            &&& n.errors.deep_view() == o.errors.deep_view().push("µ╖╗σèáσê░µò░µì«σ║ôσñ▒Φ┤Ñ: "@ + e@)
        },
    }
}

/// The files an import has accounted for: imported, skipped, or with an
/// error recorded.
pub open spec fn files_counted(r: ImportResult) -> int {
    r.total_imported + r.total_skipped + r.errors.deep_view().len()
}

/// Each file of an import is counted exactly once: as skipped or with an
/// error by `import_step`, or, when it is to be inserted, as imported or with
/// an error by the `record_insert` that follows.
pub proof fn law_each_file_counted_once(
    r0: ImportResult,
    lookup: SongLookup,
    new_cover: Option<String>,
    new_duration_positive: bool,
    s: ImportStep,
    r1: ImportResult,
    res: Result<(), String>,
    r2: ImportResult,
)
    requires
        import_step_done(r0, lookup, new_cover, new_duration_positive, s, r1),
        s is Insert ==> record_insert_done(r1, res, r2),
        !(s is Insert) ==> r2 == r1,
    ensures
        files_counted(r2) == files_counted(r0) + 1,
{
}

/// Decides what to do with one scanned file, given what the database holds
/// for it, the cover read from the file and whether the duration read from
/// it is positive, and counts it: a song already there counts as skipped, a
/// failed lookup is recorded as an error.
pub fn import_step(
    r: &mut ImportResult,
    lookup: SongLookup,
    new_cover: Option<String>,
    new_duration_positive: bool,
) -> (s: ImportStep)
    requires
        old(r).total_skipped < usize::MAX,
    ensures
        import_step_done(*old(r), lookup, new_cover, new_duration_positive, s, *final(r)),
{
    match lookup {
        SongLookup::Found { has_cover, duration_stale } => {
            r.total_skipped = r.total_skipped + 1;
            if !has_cover || duration_stale {
                let cover = if has_cover {
                    None
                } else {
                    new_cover
                };
                ImportStep::Refresh { cover, refresh_duration: duration_stale && new_duration_positive }
            } else {
                ImportStep::UpToDate
            }
        },
        SongLookup::Missing => ImportStep::Insert,
        SongLookup::Failed(e) => {
            let msg = String::from_str("µƒÑΦ»óµò░µì«σ║ôσñ▒Φ┤Ñ: ").concat(e.as_str());
            let ghost before = r.errors.deep_view();
            r.errors.push(msg);
            proof {
                assert(r.errors.deep_view() =~= before.push("µƒÑΦ»óµò░µì«σ║ôσñ▒Φ┤Ñ: "@ + e@));
            }
            ImportStep::Report
        },
    }
}

/// Counts the outcome of adding a song: one more imported song, or the
/// database error recorded.
pub fn record_insert(r: &mut ImportResult, res: Result<(), String>)
    requires
        old(r).total_imported < usize::MAX,
    ensures
        record_insert_done(*old(r), res, *final(r)),
{
    match res {
        Ok(()) => {
            r.total_imported = r.total_imported + 1;
        },
        Err(e) => {
            let msg = String::from_str("µ╖╗σèáσê░µò░µì«σ║ôσñ▒Φ┤Ñ: ").concat(e.as_str());
            let ghost before = r.errors.deep_view();
            r.errors.push(msg);
            proof {
                assert(r.errors.deep_view() =~= before.push("µ╖╗σèáσê░µò░µì«σ║ôσñ▒Φ┤Ñ: "@ + e@));
            }
        },
    }
}

// ---------------------------------------------------------------------------
// Laws of the file-name format and the import rules
// ---------------------------------------------------------------------------

/// The stem `title - artist` (no album brackets): the title is the trimmed
/// text before the first ` - ` and the artist the trimmed text after it.
/// Hyphens inside the title that are not ` - ` (as in `Re-Wind`) never split
/// the name; the artist may itself hold ` - `.
pub proof fn law_stem_title_artist(title: Seq<char>, artist: Seq<char>)
    requires
        title.len() > 0,
        artist.len() > 0,
        !is_ws(title[0]),
        !is_ws(artist.last()),
        forall|i: int| 0 <= i < title.len() ==> title[i] != '[',
        forall|i: int| 0 <= i < artist.len() ==> artist[i] != '[',
        forall|k: int|
            0 <= k < title.len() ==> #[trigger] (title + " - "@ + artist).subrange(k, k + 3)
                != " - "@,
    ensures
        parse_stem(title + " - "@ + artist) == (
            Some(trim(title)),
            Some(trim(artist)),
            None::<Seq<char>>,
        ),
{
    reveal_strlit(" - ");
    let s = title + " - "@ + artist;
    assert(s[0] == title[0]);
    assert(s.last() == artist.last());
    lemma_trim_fixed(s);
    assert forall|i: int| 0 <= i < s.len() implies s[i] != '[' by {
        if i < title.len() {
            assert(s[i] == title[i]);
        } else if i >= title.len() + 3 {
            assert(s[i] == artist[i - title.len() - 3]);
        }
    }
    lemma_rfind_none(s, '[');
    assert(s.subrange(title.len() as int, title.len() + 3 as int) =~= " - "@);
    lemma_find_first(s, " - "@, title.len() as int);
    assert(s.subrange(0, title.len() as int) =~= title);
    assert(s.subrange(title.len() + 3 as int, s.len() as int) =~= artist);
    lemma_trim_nonempty_first(title);
    lemma_trim_nonempty_last(artist);
}

/// The stem `title - artist[album]`: the album is the trimmed text in the
/// last brackets, title and artist are read from what comes before them as
/// without an album.
pub proof fn law_stem_album(title: Seq<char>, artist: Seq<char>, album: Seq<char>)
    requires
        title.len() > 0,
        artist.len() > 0,
        !is_ws(title[0]),
        !is_ws(artist.last()),
        forall|i: int| 0 <= i < album.len() ==> album[i] != '[',
        forall|k: int|
            0 <= k < title.len() ==> #[trigger] (title + " - "@ + artist).subrange(k, k + 3)
                != " - "@,
    ensures
        parse_stem(title + " - "@ + artist + "["@ + album + "]"@) == (
            Some(trim(title)),
            Some(trim(artist)),
            Some(trim(album)),
        ),
{
    reveal_strlit(" - ");
    reveal_strlit("[");
    reveal_strlit("]");
    let m = title + " - "@ + artist;
    let s = m + "["@ + album + "]"@;
    assert(m[0] == title[0]);
    assert(m.last() == artist.last());
    assert(s[0] == m[0]);
    assert(s.last() == ']');
    lemma_trim_fixed(s);
    lemma_trim_fixed(m);
    let b0 = m.len() as int;
    assert(s[b0] == '[');
    assert forall|j: int| b0 < j < s.len() implies s[j] != '[' by {
        if j < s.len() - 1 {
            assert(s[j] == album[j - b0 - 1]);
        }
    }
    lemma_rfind_last(s, '[', b0);
    lemma_rfind_last(s, ']', s.len() - 1);
    assert(s.subrange(0, b0) =~= m);
    assert(s.subrange(b0 + 1, s.len() - 1) =~= album);
    assert(m.subrange(title.len() as int, title.len() + 3 as int) =~= " - "@);
    lemma_find_first(m, " - "@, title.len() as int);
    assert(m.subrange(0, title.len() as int) =~= title);
    assert(m.subrange(title.len() + 3 as int, m.len() as int) =~= artist);
    lemma_trim_nonempty_first(title);
    lemma_trim_nonempty_last(artist);
}

/// The six supported extensions, compared case-insensitively: a path counts
/// as an audio file exactly when its extension, lowercased, is one of mp3,
/// flac, wav, ogg, m4a and aac; each of the six is accepted.
pub proof fn law_audio_extensions(path: Seq<char>)
    ensures
        spec_is_audio_file(path) <==> (path_extension(path) matches Some(e) && {
            let l = lowercase(e);
            l == "mp3"@ || l == "flac"@ || l == "wav"@ || l == "ogg"@ || l == "m4a"@ || l == "aac"@
        }),
        path_extension(path) matches Some(e) && lowercase(e) == "ogg"@ ==> spec_is_audio_file(path),
        path_extension(path) matches Some(e) && lowercase(e) == "mp3"@ ==> spec_is_audio_file(path),
        path_extension(path) matches Some(e) && lowercase(e) == "flac"@ ==> spec_is_audio_file(path),
        path_extension(path) matches Some(e) && lowercase(e) == "wav"@ ==> spec_is_audio_file(path),
        path_extension(path) matches Some(e) && lowercase(e) == "m4a"@ ==> spec_is_audio_file(path),
        path_extension(path) matches Some(e) && lowercase(e) == "aac"@ ==> spec_is_audio_file(path),
        path_extension(path) is None ==> !spec_is_audio_file(path),
{
}

/// For a song already in the library, the import refreshes it exactly when
/// it lacks a cover or its stored duration is stale; the new duration is
/// written exactly when the stored one is stale and the new one is positive,
/// whatever the cover; the new cover is written only when none was stored.
/// Otherwise the song is up to date.
pub proof fn law_refresh_rule(
    o: ImportResult,
    has_cover: bool,
    duration_stale: bool,
    new_cover: Option<String>,
    new_duration_positive: bool,
    s: ImportStep,
    n: ImportResult,
)
    requires
        import_step_done(
            o,
            SongLookup::Found { has_cover, duration_stale },
            new_cover,
            new_duration_positive,
            s,
            n,
        ),
    ensures
        (s is Refresh) <==> (!has_cover || duration_stale),
        (s is UpToDate) <==> (has_cover && !duration_stale),
        s matches ImportStep::Refresh { refresh_duration, .. } ==> refresh_duration == (
        duration_stale && new_duration_positive),
        s matches ImportStep::Refresh { cover, .. } ==> (has_cover ==> cover is None) && (!has_cover
            ==> cover == new_cover),
        n.total_skipped == o.total_skipped + 1,
{
}

} // verus!
