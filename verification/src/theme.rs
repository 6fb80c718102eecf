use vstd::prelude::*;

verus! {

/// The visual parameters that travel down the controller tree. Colors are
/// packed `0xRRGGBB` values; the font size is in whole points. Font assets
/// themselves are loaded by the rendering collaborator, not here.
#[derive(Clone, Copy, Debug, PartialEq, Eq, Structural)]
pub struct Theme {
    pub font_size: u32,
    pub bg_color: u32,
    pub fg_color: u32,
}

/// Builds the stock themes used by the shell.
pub struct ThemeManager {}

impl ThemeManager {
    /// The theme for body content: dark-on-cream.
    pub fn default_theme() -> (t: Theme)
        ensures
            t == (Theme { font_size: 18, bg_color: 0xFFFFEE, fg_color: 0xFFFFFF }),
    {
        Theme { font_size: 18, bg_color: 0xFFFFEE, fg_color: 0xFFFFFF }
    }

    /// The theme for navigation bars: white text on a dark band.
    pub fn nav_theme() -> (t: Theme)
        ensures
            t == (Theme { font_size: 18, bg_color: 0x333333, fg_color: 0xFFFFFF }),
    {
        Theme { font_size: 18, bg_color: 0x333333, fg_color: 0xFFFFFF }
    }
}

} // verus!
