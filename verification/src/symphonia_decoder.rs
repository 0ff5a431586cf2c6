//! Format hint that the Symphonia decoder gives its probe, from the file
//! extension.

use vstd::prelude::*;

use crate::paths::{extension_of, path_extension};
use crate::text::{lowercase, same_text, to_lowercase};

verus! {

broadcast use vstd::string::group_string_axioms;

/// The probe hint for a lowercase extension.
pub open spec fn hint_for(ext: Seq<char>) -> Option<Seq<char>> {
    if ext == "flac"@ {
        Some("flac"@)
    } else if ext == "mp3"@ {
        Some("mp3"@)
    } else if ext == "wav"@ {
        Some("wav"@)
    } else if ext == "ogg"@ {
        Some("ogg"@)
    } else if ext == "m4a"@ {
        Some("m4a"@)
    } else if ext == "aac"@ {
        Some("aac"@)
    } else if ext == "aiff"@ || ext == "aif"@ {
        Some("aiff"@)
    } else if ext == "wma"@ {
        Some("wma"@)
    } else {
        None
    }
}

/// The probe hint for `path`: from its extension, lowercased.
pub open spec fn spec_format_hint(path: Seq<char>) -> Option<Seq<char>> {
    match path_extension(path) {
        Some(e) => hint_for(lowercase(e)),
        None => None,
    }
}

/// The extension hint given to the format probe when opening `path`.
pub fn format_hint(path: &str) -> (r: Option<&'static str>)
    ensures
        match r {
            Some(h) => spec_format_hint(path@) == Some(h@),
            None => spec_format_hint(path@) is None,
        },
{
    match extension_of(path) {
        Some(ext) => {
            let lower = to_lowercase(ext.as_str());
            let e = lower.as_str();
            if same_text(e, "flac") {
                Some("flac")
            } else if same_text(e, "mp3") {
                Some("mp3")
            } else if same_text(e, "wav") {
                Some("wav")
            } else if same_text(e, "ogg") {
                Some("ogg")
            } else if same_text(e, "m4a") {
                Some("m4a")
            } else if same_text(e, "aac") {
                Some("aac")
            } else if same_text(e, "aiff") || same_text(e, "aif") {
                Some("aiff")
            } else if same_text(e, "wma") {
                Some("wma")
            } else {
                None
            }
        },
        None => None,
    }
}

} // verus!
