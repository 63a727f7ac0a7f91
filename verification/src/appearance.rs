//! How the window is painted.
//!
//! A theme changes no event's text: every colour is resolved live by the
//! interface, so this stands apart from the display settings, whose every field
//! the renderer reads.

pub mod group_label;

use vstd::prelude::*;

verus! {

/// Which palette the window is painted in.
#[derive(Debug, Clone, Copy, PartialEq, Eq, Structural, Hash)]
pub enum Theme {
    /// The light appearance the window starts in.
    Default,
    /// The application icon's palette: neon pink through orange over deep plum.
    Raver,
}

/// A theme's radio button label.
pub open spec fn theme_label(t: Theme) -> Seq<char> {
    match t {
        Theme::Default => "Default"@,
        Theme::Raver => "Raver"@,
    }
}

impl Theme {
    /// Every option, in the order the tab lists them.
    pub const ALL: [Theme; 2] = [Theme::Default, Theme::Raver];

    /// The radio button's label.
    pub fn label(self) -> (s: &'static str)
        ensures
            s@ == theme_label(self),
    {
        match self {
            Theme::Default => "Default",
            Theme::Raver => "Raver",
        }
    }
}

impl Default for Theme {
    /// The palette the window starts in.
    fn default() -> (t: Self)
        ensures
            t == Theme::Default,
    {
        Theme::Default
    }
}

/// Every appearance choice, as one value.
#[derive(Debug, Clone, Copy, PartialEq, Eq, Structural, Hash)]
pub struct AppearanceSettings {
    /// Which palette the window is painted in.
    pub theme: Theme,
}

impl AppearanceSettings {
    /// The appearance a first launch starts with.
    pub open spec fn default_spec() -> Self {
        AppearanceSettings { theme: Theme::Default }
    }
}

impl Default for AppearanceSettings {
    /// The default palette.
    fn default() -> (a: Self)
        ensures
            a == AppearanceSettings::default_spec(),
    {
        AppearanceSettings { theme: Theme::Default }
    }
}

} // verus!
