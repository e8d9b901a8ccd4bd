use vstd::prelude::*;

verus! {

/// A colour as red, green and blue levels.
#[derive(Clone, Copy, Debug, PartialEq, Eq, Structural)]
pub struct Rgb {
    pub r: u8,
    pub g: u8,
    pub b: u8,
}

pub open spec fn rgb(r: u8, g: u8, b: u8) -> Rgb {
    Rgb { r, g, b }
}

/// The colour of a card's title: white on the dark theme, black on the light one.
pub fn title_color(dark_mode: bool) -> (c: Rgb)
    ensures
        c == (if dark_mode { rgb(255, 255, 255) } else { rgb(0, 0, 0) }),
{
    if dark_mode {
        Rgb { r: 255, g: 255, b: 255 }
    } else {
        Rgb { r: 0, g: 0, b: 0 }
    }
}

/// The colour of a card's link: cyan on the dark theme, red on the light one.
pub fn link_color(dark_mode: bool) -> (c: Rgb)
    ensures
        c == (if dark_mode { rgb(0, 255, 255) } else { rgb(255, 0, 0) }),
{
    if dark_mode {
        Rgb { r: 0, g: 255, b: 255 }
    } else {
        Rgb { r: 255, g: 0, b: 0 }
    }
}

/// The label of the theme button: a sun to leave the dark theme, a moon to
/// leave the light one.
pub fn theme_icon(dark_mode: bool) -> (s: &'static str)
    ensures
        s@ == (if dark_mode { "\u{1F31E}"@ } else { "\u{1F319}"@ }),
{
    if dark_mode {
        "\u{1F31E}"
    } else {
        "\u{1F319}"
    }
}

} // verus!
