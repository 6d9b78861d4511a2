//! The visual theme selector: a fixed, ordered, cyclic enumeration.

use vstd::prelude::*;

verus! {

/// A named visual palette.  The user cycles through the four themes in a
/// fixed order; the active theme is owned by the application root and pushed
/// by value to every screen.
#[derive(Clone, Copy, Debug, PartialEq, Eq, Structural)]
pub enum AppTheme {
    Dark,
    Blue,
    Serene,
    Dream,
}

impl AppTheme {
    /// The successor of a theme in the cycle
    /// Dark -> Blue -> Serene -> Dream -> Dark.
    pub open spec fn spec_next(self) -> AppTheme {
        match self {
            AppTheme::Dark => AppTheme::Blue,
            AppTheme::Blue => AppTheme::Serene,
            AppTheme::Serene => AppTheme::Dream,
            AppTheme::Dream => AppTheme::Dark,
        }
    }

    /// Advance to the next theme of the cycle, wrapping from the last back
    /// to the first.
    pub fn get_next_theme(&self) -> (r: AppTheme)
        ensures
            r == self.spec_next(),
    {
        match self {
            AppTheme::Dark => AppTheme::Blue,
            AppTheme::Blue => AppTheme::Serene,
            AppTheme::Serene => AppTheme::Dream,
            AppTheme::Dream => AppTheme::Dark,
        }
    }

    /// The display name of a theme.
    pub open spec fn spec_name(self) -> Seq<char> {
        match self {
            AppTheme::Dark => "Dark"@,
            AppTheme::Blue => "Blue"@,
            AppTheme::Serene => "Serene"@,
            AppTheme::Dream => "Dream"@,
        }
    }

    /// The display name of a theme, used both as a label and as the prefix
    /// of the style names handed to the renderer.
    pub fn name(&self) -> (r: &'static str)
        ensures
            r@ == self.spec_name(),
    {
        match self {
            AppTheme::Dark => "Dark",
            AppTheme::Blue => "Blue",
            AppTheme::Serene => "Serene",
            AppTheme::Dream => "Dream",
        }
    }
}

/// Cycling four times returns to the starting theme, whichever it was: the
/// four themes form one full cycle.
pub proof fn lemma_theme_cycle_round_trip(t: AppTheme)
    ensures
        t.spec_next().spec_next().spec_next().spec_next() == t,
{
}

} // verus!
