//! Choices made when reading an audio file's tags: how embedded lyrics are
//! kept and which media type a cover picture gets.

use vstd::prelude::*;

use crate::import::non_empty;
use crate::text::{trim, trim_str};

verus! {

broadcast use vstd::string::group_string_axioms;

/// Embedded lyrics as kept: trimmed, and only when something remains.
pub fn embedded_lyrics(raw: &str) -> (r: Option<String>)
    ensures
        r.deep_view() == non_empty(trim(raw@)),
{
    let t = trim_str(raw);
    if t.as_str().unicode_len() == 0 {
        None
    } else {
        Some(t)
    }
}

/// The media type of a cover picture: the one the tag gives, else JPEG.
pub fn cover_mime_or_default(mime: Option<String>) -> (r: String)
    ensures
        r@ == (match mime {
            Some(m) => m@,
            None => "image/jpeg"@,
        }),
{
    match mime {
        Some(m) => m,
        None => String::from_str("image/jpeg"),
    }
}

} // verus!
