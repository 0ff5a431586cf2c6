//! Structure of LRC lyrics: which lines carry a `[mm:ss.xx]` time tag and
//! text, and how the tag splits into minutes and seconds. Reading the two
//! numbers as floating point and ordering the lines by time is left to the
//! caller.

use vstd::prelude::*;

use crate::text::{
    chars_of, contains, contains_str, find, find_exec, is_ws, lemma_find_char, lemma_find_char_none,
    lemma_find_in_range, lemma_trim_fixed, lemma_trim_nonempty_last, string_of_range, trim, trim_bounds,
};

verus! {

broadcast use vstd::string::group_string_axioms;

/// `s` split at every `'\n'` (a text without newlines is one line).
pub open spec fn split_lines(s: Seq<char>) -> Seq<Seq<char>>
    decreases s.len(),
{
    if s.len() == 0 {
        seq![Seq::empty()]
    } else {
        let r = split_lines(s.drop_last());
        if s.last() == '\n' {
            r.push(Seq::empty())
        } else {
            r.update(r.len() - 1, r.last().push(s.last()))
        }
    }
}

/// Slicing a trimmed line after its first character stays on a character
/// boundary: a line with a `]` starts with a one-byte character other
/// than `]`.
pub open spec fn line_sliceable(line: Seq<char>) -> bool {
    let t = trim(line);
    t.len() == 0 || match find(t, "]"@) {
        Some(e) => e >= 1 && (t[0] as u32) < 0x80,
        None => true,
    }
}

/// Every line of the text can be sliced as the parser does.
pub open spec fn lrc_sliceable(content: Seq<char>) -> bool {
    forall|i: int| 0 <= i < split_lines(content).len() ==> line_sliceable(#[trigger] split_lines(content)[i])
}

/// Minutes text, seconds text and lyric text of one tagged line.
pub struct LrcParts {
    pub minutes: String,
    pub seconds: String,
    pub text: String,
}

impl View for LrcParts {
    type V = (Seq<char>, Seq<char>, Seq<char>);

    open spec fn view(&self) -> (Seq<char>, Seq<char>, Seq<char>) {
        (self.minutes@, self.seconds@, self.text@)
    }
}

/// What one line contributes: after trimming, a line `[tag]text` whose tag
/// has exactly one `:` and whose trimmed text is not empty gives the two
/// halves of the tag and the text; other lines give nothing.
pub open spec fn line_parts(line: Seq<char>) -> Option<(Seq<char>, Seq<char>, Seq<char>)> {
    let t = trim(line);
    if t.len() == 0 {
        None
    } else {
        match find(t, "]"@) {
            Some(e) => {
                let tag = t.subrange(1, e);
                let text = trim(t.subrange(e + 1, t.len() as int));
                match find(tag, ":"@) {
                    Some(c) => {
                        let rest = tag.subrange(c + 1, tag.len() as int);
                        if find(rest, ":"@) is None && text.len() > 0 {
                            Some((tag.subrange(0, c), rest, text))
                        } else {
                            None
                        }
                    },
                    None => None,
                }
            },
            None => None,
        }
    }
}

/// The parts of all tagged lines, in text order.
pub open spec fn collect_parts(lines: Seq<Seq<char>>) -> Seq<(Seq<char>, Seq<char>, Seq<char>)>
    decreases lines.len(),
{
    if lines.len() == 0 {
        Seq::empty()
    } else {
        let r = collect_parts(lines.drop_last());
        match line_parts(lines.last()) {
            Some(p) => r.push(p),
            None => r,
        }
    }
}

/// A copy of `v[lo..hi]`.
fn slice_chars(v: &Vec<char>, lo: usize, hi: usize) -> (r: Vec<char>)
    requires
        lo <= hi <= v.len(),
    ensures
        r@ == v@.subrange(lo as int, hi as int),
{
    let mut r: Vec<char> = Vec::new();
    let mut i: usize = lo;
    while i < hi
        invariant
            lo <= i <= hi <= v.len(),
            r@ == v@.subrange(lo as int, i as int),
        decreases hi - i,
    {
        r.push(v[i]);
        i = i + 1;
    }
    r
}

/// The parts of one line.
fn parts_of_line(line: &Vec<char>) -> (r: Option<LrcParts>)
    requires
        line_sliceable(line@),
    ensures
        match r {
            Some(p) => line_parts(line@) == Some(p@),
            None => line_parts(line@) is None,
        },
{
    let (lo, hi) = trim_bounds(line, 0, line.len());
    proof {
        assert(line@.subrange(0, line@.len() as int) =~= line@);
    }
    let t = slice_chars(line, lo, hi);
    if t.len() == 0 {
        return None;
    }
    let close = chars_of("]");
    let colon = chars_of(":");
    proof {
        reveal_strlit("]");
        reveal_strlit(":");
    }
    match find_exec(&t, &close) {
        Some(e) => {
            proof {
                lemma_find_in_range(t@, close@);
            }
            let tag = slice_chars(&t, 1, e);
            let (tlo, thi) = trim_bounds(&t, e + 1, t.len());
            match find_exec(&tag, &colon) {
                Some(c) => {
                    proof {
                        lemma_find_in_range(tag@, colon@);
                    }
                    let rest = slice_chars(&tag, c + 1, tag.len());
                    if find_exec(&rest, &colon).is_none() && tlo < thi {
                        let minutes = string_of_range(&tag, 0, c);
                        let seconds = string_of_range(&rest, 0, rest.len());
                        let text = string_of_range(&t, tlo, thi);
                        proof {
                            assert(rest@.subrange(0, rest@.len() as int) =~= rest@);
                        }
                        Some(LrcParts { minutes, seconds, text })
                    } else {
                        None
                    }
                },
                None => None,
            }
        },
        None => None,
    }
}

pub(crate) proof fn lemma_split_lines_nonempty(s: Seq<char>)
    ensures
        split_lines(s).len() >= 1,
    decreases s.len(),
{
    if s.len() > 0 {
        lemma_split_lines_nonempty(s.drop_last());
    }
}

/// The time-tagged lines of LRC text with their tag halves and text, in
/// text order. Lines are split at `'\n'` and trimmed; a line counts when it
/// is `[minutes:seconds]text` with exactly one `:` in the tag and non-empty
/// text.
pub fn split_lrc_lines(content: &str) -> (out: Vec<LrcParts>)
    requires
        lrc_sliceable(content@),
    ensures
        out@.map_values(|p: LrcParts| p@) == collect_parts(split_lines(content@)),
{
    let s = chars_of(content);
    let mut out: Vec<LrcParts> = Vec::new();
    let mut cur: Vec<char> = Vec::new();
    let ghost mut done: Seq<Seq<char>> = Seq::empty();
    let mut i: usize = 0;
    proof {
        assert(s@.take(0) =~= Seq::<char>::empty());
        assert(cur@ =~= Seq::<char>::empty());
        assert(split_lines(s@.take(0)) =~= done.push(cur@));
    }
    while i < s.len()
        invariant
            i <= s.len(),
            s@ == content@,
            lrc_sliceable(content@),
            split_lines(s@.take(i as int)) == done.push(cur@),
            out@.map_values(|p: LrcParts| p@) == collect_parts(done),
        decreases s.len() - i,
    {
        let c = s[i];
        proof {
            assert(s@.take(i + 1).drop_last() =~= s@.take(i as int));
            assert(s@.take(i + 1).last() == c);
        }
        if c == '\n' {
            proof {
                lemma_split_lines_nonempty(s@.take(i as int));
                assert(split_lines(s@.take(i + 1)) == done.push(cur@).push(Seq::empty()));
                lemma_line_kept(s@, i + 1, s.len() as int, done.len() as int);
                assert(s@.take(s.len() as int) =~= s@);
                assert(line_sliceable(split_lines(s@)[done.len() as int]));
            }
            let ghost old_out = out@.map_values(|p: LrcParts| p@);
            match parts_of_line(&cur) {
                Some(p) => {
                    out.push(p);
                    proof {
                        assert(out@.map_values(|p: LrcParts| p@) =~= old_out.push(p@));
                    }
                },
                None => {},
            }
            proof {
                assert(done.push(cur@).drop_last() =~= done);
                done = done.push(cur@);
            }
            cur = Vec::new();
            proof {
                assert(cur@ =~= Seq::<char>::empty());
            }
        } else {
            let ghost old_cur = cur@;
            cur.push(c);
            proof {
                assert(done.push(old_cur).update(done.len() as int, old_cur.push(c)) =~= done.push(
                    cur@,
                ));
            }
        }
        i = i + 1;
    }
    proof {
        assert(s@.take(s.len() as int) =~= s@);
        assert(line_sliceable(split_lines(s@)[done.len() as int]));
    }
    let ghost old_out = out@.map_values(|p: LrcParts| p@);
    match parts_of_line(&cur) {
        Some(p) => {
            out.push(p);
            proof {
                assert(out@.map_values(|p: LrcParts| p@) =~= old_out.push(p@));
            }
        },
        None => {},
    }
    proof {
        assert(done.push(cur@).drop_last() =~= done);
    }
    out
}

/// Growing the text only extends its last line or adds lines: the lines
/// before the last one of a prefix are lines of any longer prefix.
pub(crate) proof fn lemma_line_kept(s: Seq<char>, i: int, j: int, k: int)
    requires
        0 <= i <= j <= s.len(),
        0 <= k < split_lines(s.take(i)).len() - 1,
    ensures
        split_lines(s.take(j)).len() >= split_lines(s.take(i)).len(),
        split_lines(s.take(j))[k] == split_lines(s.take(i))[k],
    decreases j - i,
{
    if j > i {
        lemma_line_kept(s, i, j - 1, k);
        assert(s.take(j).drop_last() =~= s.take(j - 1));
        lemma_split_lines_nonempty(s.take(j - 1));
    }
}

/// Whether embedded lyrics text looks like LRC: it holds `[`, `]` and `:`.
pub open spec fn spec_looks_like_lrc(text: Seq<char>) -> bool {
    contains(text, "["@) && contains(text, "]"@) && contains(text, ":"@)
}

/// Whether embedded lyrics are parsed as LRC rather than shown as plain text.
pub fn looks_like_lrc(text: &str) -> (b: bool)
    ensures
        b == spec_looks_like_lrc(text@),
{
    let v = chars_of(text);
    contains_str(&v, "[") && contains_str(&v, "]") && contains_str(&v, ":")
}

/// Where a song's lyrics come from.
#[derive(Debug, Clone, Copy, PartialEq, Eq, Structural)]
pub enum LyricsSource {
    /// `<stem>.lrc` beside the audio file.
    StemLrc,
    /// `<file name>.lrc` beside the audio file.
    NameLrc,
    /// The embedded lyrics, parsed as LRC.
    EmbeddedLrc,
    /// The embedded lyrics, shown as one plain-text line.
    EmbeddedText,
    /// No lyrics.
    NoLyrics,
}

/// The lyrics source picked from what was found: `<stem>.lrc` when it gave
/// lines, else `<file name>.lrc` when it gave lines, else the embedded
/// lyrics, as LRC when they look like LRC and gave lines, else as plain
/// text; without embedded lyrics, none.
pub open spec fn spec_lyrics_source(
    stem_lrc_has_lines: Option<bool>,
    name_lrc_has_lines: Option<bool>,
    embedded: Option<Seq<char>>,
    embedded_lrc_has_lines: bool,
) -> LyricsSource {
    if stem_lrc_has_lines == Some(true) {
        LyricsSource::StemLrc
    } else if name_lrc_has_lines == Some(true) {
        LyricsSource::NameLrc
    } else {
        match embedded {
            None => LyricsSource::NoLyrics,
            Some(t) => if spec_looks_like_lrc(t) && embedded_lrc_has_lines {
                LyricsSource::EmbeddedLrc
            } else {
                LyricsSource::EmbeddedText
            },
        }
    }
}

/// Picks where a song's lyrics come from. For each `.lrc` file, `None`
/// means it is missing or unreadable and `Some(b)` whether parsing it gave
/// any line; `embedded` are the lyrics from the tags, and
/// `embedded_lrc_has_lines` whether parsing them as LRC gave any line.
pub fn choose_lyrics_source(
    stem_lrc_has_lines: Option<bool>,
    name_lrc_has_lines: Option<bool>,
    embedded: &Option<String>,
    embedded_lrc_has_lines: bool,
) -> (s: LyricsSource)
    ensures
        s == spec_lyrics_source(
            stem_lrc_has_lines,
            name_lrc_has_lines,
            embedded.deep_view(),
            embedded_lrc_has_lines,
        ),
{
    if stem_lrc_has_lines == Some(true) {
        LyricsSource::StemLrc
    } else if name_lrc_has_lines == Some(true) {
        LyricsSource::NameLrc
    } else {
        match embedded {
            None => LyricsSource::NoLyrics,
            Some(t) => if looks_like_lrc(t.as_str()) && embedded_lrc_has_lines {
                LyricsSource::EmbeddedLrc
            } else {
                LyricsSource::EmbeddedText
            },
        }
    }
}

// ---------------------------------------------------------------------------
// Laws
// ---------------------------------------------------------------------------

/// A line `[minutes:seconds]text` gives its two tag halves and its trimmed
/// text. Only the tag decides whether the line counts: the text is kept as
/// it is, whatever it holds (`:` and `]` included).
pub proof fn law_lrc_tagged_line(minutes: Seq<char>, seconds: Seq<char>, text: Seq<char>)
    requires
        forall|i: int| 0 <= i < minutes.len() ==> minutes[i] != ':' && minutes[i] != ']',
        forall|i: int| 0 <= i < seconds.len() ==> seconds[i] != ':' && seconds[i] != ']',
        text.len() > 0,
        !is_ws(text.last()),
    ensures
        line_parts("["@ + minutes + ":"@ + seconds + "]"@ + text) == Some(
            (minutes, seconds, trim(text)),
        ),
{
    reveal_strlit("[");
    reveal_strlit(":");
    reveal_strlit("]");
    assert("]"@ =~= seq![']']);
    assert(":"@ =~= seq![':']);
    let tag = minutes + ":"@ + seconds;
    let l = "["@ + tag + "]"@ + text;
    assert(l =~= "["@ + minutes + ":"@ + seconds + "]"@ + text);
    assert(l[0] == '[');
    assert(l.last() == text.last());
    lemma_trim_fixed(l);
    let e: int = tag.len() as int + 1;
    assert(l[e] == ']');
    assert forall|k: int| 0 <= k < e implies l[k] != ']' by {
        if k > 0 {
            assert(l[k] == tag[k - 1]);
            if k - 1 < minutes.len() {
                assert(tag[k - 1] == minutes[k - 1]);
            } else if k - 1 > minutes.len() {
                assert(tag[k - 1] == seconds[k - 1 - minutes.len() - 1]);
            }
        }
    }
    lemma_find_char(l, ']', e);
    assert(l.subrange(1, e) =~= tag);
    assert(tag[minutes.len() as int] == ':');
    assert forall|k: int| 0 <= k < minutes.len() implies tag[k] != ':' by {
        assert(tag[k] == minutes[k]);
    }
    lemma_find_char(tag, ':', minutes.len() as int);
    assert(tag.subrange(0, minutes.len() as int) =~= minutes);
    assert(tag.subrange(minutes.len() + 1 as int, tag.len() as int) =~= seconds);
    lemma_find_char_none(seconds, ':');
    assert(l.subrange(e + 1, l.len() as int) =~= text);
    lemma_trim_nonempty_last(text);
}

/// The order in which lyrics sources are taken: the stem `.lrc` when it gave
/// lines; else the file-name `.lrc` when it gave lines (whether the stem
/// `.lrc` was missing, unreadable or empty); else the embedded lyrics, as LRC
/// exactly when they hold `[`, `]` and `:` and gave lines, otherwise as plain
/// text; with no embedded lyrics, none.
pub proof fn law_lyrics_source_order(
    stem_lrc_has_lines: Option<bool>,
    name_lrc_has_lines: Option<bool>,
    embedded: Option<Seq<char>>,
    embedded_lrc_has_lines: bool,
)
    ensures
        ({
            let r = spec_lyrics_source(
                stem_lrc_has_lines,
                name_lrc_has_lines,
                embedded,
                embedded_lrc_has_lines,
            );
            &&& stem_lrc_has_lines == Some(true) ==> r == LyricsSource::StemLrc
            &&& stem_lrc_has_lines != Some(true) && name_lrc_has_lines == Some(true) ==> r
                == LyricsSource::NameLrc
            &&& stem_lrc_has_lines != Some(true) && name_lrc_has_lines != Some(true) && embedded is None
                ==> r == LyricsSource::NoLyrics
            &&& (stem_lrc_has_lines != Some(true) && name_lrc_has_lines != Some(true) && embedded
                is Some) ==> {
                let t = embedded->0;
                &&& (r == LyricsSource::EmbeddedLrc || r == LyricsSource::EmbeddedText)
                &&& (r == LyricsSource::EmbeddedLrc <==> (contains(t, "["@) && contains(t, "]"@)
                    && contains(t, ":"@) && embedded_lrc_has_lines))
            }
            &&& r == LyricsSource::StemLrc ==> stem_lrc_has_lines == Some(true)
            &&& r == LyricsSource::NameLrc ==> name_lrc_has_lines == Some(true)
        }),
{
}

} // verus!
