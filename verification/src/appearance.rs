//! The appearance of a program: the colors it is drawn with when the
//! program does not choose its own.
use vstd::prelude::*;

verus! {

/// A color in the sRGB color space, with eight bits per channel.
#[derive(Clone, Copy, Debug, PartialEq, Eq, Structural)]
pub struct Color {
    pub r: u8,
    pub g: u8,
    pub b: u8,
    pub a: u8,
}

/// A color together with the color of text drawn on it.
#[derive(Clone, Copy, Debug, PartialEq, Eq, Structural)]
pub struct Pair {
    /// The color.
    pub color: Color,
    /// The color of text drawn on [`Pair::color`].
    pub text: Color,
}

/// The background colors of an extended palette.
#[derive(Clone, Copy, Debug, PartialEq, Eq, Structural)]
pub struct Background {
    /// The base background color and the text on it.
    pub base: Pair,
}

/// The extended palette of a theme, as far as the default appearance reads it.
#[derive(Clone, Copy, Debug, PartialEq, Eq, Structural)]
pub struct Extended {
    /// The background colors.
    pub background: Background,
}

/// A theme, known by its extended palette.
#[derive(Clone, Copy, Debug)]
pub struct Theme {
    extended: Extended,
}

impl View for Theme {
    type V = Extended;

    closed spec fn view(&self) -> Extended {
        self.extended
    }
}

impl Theme {
    /// The theme whose extended palette is `extended`.
    pub fn new(extended: Extended) -> (t: Theme)
        ensures
            t@ == extended,
    {
        Theme { extended }
    }

    /// The extended palette of the theme.
    pub fn extended_palette(&self) -> (p: &Extended)
        ensures
            *p == self@,
    {
        &self.extended
    }
}

/// The appearance of a program.
#[derive(Clone, Copy, Debug, PartialEq, Eq, Structural)]
pub struct Appearance {
    /// The background [`Color`] of the application.
    pub background_color: Color,
    /// The default text [`Color`] of the application.
    pub text_color: Color,
}

/// The default appearance with a theme whose extended palette is `palette`:
/// its base background, and the text color that goes with it.
pub open spec fn default_appearance(palette: Extended) -> Appearance {
    Appearance {
        background_color: palette.background.base.color,
        text_color: palette.background.base.text,
    }
}

/// The default style of a program.
pub trait DefaultStyle {
    /// Returns the default style of a program.
    fn default_style(&self) -> Appearance;
}

impl DefaultStyle for Theme {
    fn default_style(&self) -> (a: Appearance)
        ensures
            a == default_appearance(self@),
            a.background_color == self@.background.base.color,
            a.text_color == self@.background.base.text,
    {
        default(self)
    }
}

/// The default [`Appearance`] of a program with the given [`Theme`].
pub fn default(theme: &Theme) -> (a: Appearance)
    ensures
        a == default_appearance(theme@),
        a.background_color == theme@.background.base.color,
        a.text_color == theme@.background.base.text,
{
    let palette = theme.extended_palette();
    Appearance {
        background_color: palette.background.base.color,
        text_color: palette.background.base.text,
    }
}

/// The default appearance draws on the theme's base background and writes
/// text in the color that the palette pairs with that background: both
/// colors come from the base pair, and nothing else of the palette matters.
pub proof fn lemma_default_takes_base_pair(palette: Extended, other: Extended)
    ensures
        default_appearance(palette).background_color == palette.background.base.color,
        default_appearance(palette).text_color == palette.background.base.text,
        palette.background.base == other.background.base ==> default_appearance(palette)
            == default_appearance(other),
        palette.background.base.color != palette.background.base.text ==> default_appearance(
            palette,
        ).background_color != default_appearance(palette).text_color,
{
}

} // verus!
