//! Choice of decoder for a file: DSD files go to the DSD decoder first.

use vstd::prelude::*;

use crate::paths::{extension_of, path_extension};
use crate::text::{lowercase, to_lowercase};

verus! {

broadcast use vstd::string::group_string_axioms;

/// Whether the extension of `path`, lowercased, is `dsf` or `dff`.
pub open spec fn spec_is_dsd_path(path: Seq<char>) -> bool {
    match path_extension(path) {
        Some(e) => lowercase(e) == "dsf"@ || lowercase(e) == "dff"@,
        None => false,
    }
}

/// Whether `open_decoder` tries the DSD decoder for `path` before the
/// general decoders.
pub fn is_dsd_path(path: &str) -> (b: bool)
    ensures
        b == spec_is_dsd_path(path@),
{
    match extension_of(path) {
        Some(ext) => {
            let lower = to_lowercase(ext.as_str());
            crate::text::same_text(lower.as_str(), "dsf") || crate::text::same_text(
                lower.as_str(),
                "dff",
            )
        },
        None => false,
    }
}

} // verus!
