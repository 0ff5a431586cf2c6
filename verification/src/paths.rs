//! Parts of file paths, as std's `Path` splits them.

use vstd::prelude::*;

verus! {

/// What `Path::extension` gives for a path written as this string
/// (the text after the last `.` of the file name, when there is one). It
/// is fixed per build target: `\` separates path components on Windows
/// only.
pub uninterp spec fn path_extension(path: Seq<char>) -> Option<Seq<char>>;

/// What `Path::file_stem` gives for a path written as this string
/// (the file name without its extension). It is fixed per build target:
/// `\` separates path components on Windows only.
pub uninterp spec fn path_file_stem(path: Seq<char>) -> Option<Seq<char>>;

/// std's `Path::extension`: the result is `path_extension` of the path; the
/// rules for splitting a path into components are not restated here.
#[verifier::external_body]
pub(crate) fn extension_of(path: &str) -> (r: Option<String>)
    ensures
        r.deep_view() == path_extension(path@),
{
    match std::path::Path::new(path).extension() {
        Some(e) => Some(e.to_string_lossy().into_owned()),
        None => None,
    }
}

/// std's `Path::file_stem`: the result is `path_file_stem` of the path; the
/// rules for splitting a path into components are not restated here.
#[verifier::external_body]
pub(crate) fn file_stem_of(path: &str) -> (r: Option<String>)
    ensures
        r.deep_view() == path_file_stem(path@),
{
    match std::path::Path::new(path).file_stem() {
        Some(s) => Some(s.to_string_lossy().into_owned()),
        None => None,
    }
}

} // verus!
