//! Light and dark themes of the compact player UI.

use vstd::prelude::*;

verus! {

/// Colour theme.
#[derive(Clone, Copy, Debug, PartialEq, Eq, Structural)]
pub enum Theme {
    Light,
    Dark,
}

/// The CSS class of a theme.
pub open spec fn css_class(t: Theme) -> Seq<char> {
    match t {
        Theme::Light => "theme-light"@,
        Theme::Dark => "theme-dark"@,
    }
}

impl Theme {
    /// The CSS class of the theme.
    pub fn to_css(&self) -> (s: &'static str)
        ensures
            s@ == css_class(*self),
    {
        match self {
            Theme::Light => "theme-light",
            Theme::Dark => "theme-dark",
        }
    }
}

} // verus!
