use vstd::prelude::*;

verus! {

/// An RGBA color with 8-bit channels.
#[derive(Clone, Copy, Debug, PartialEq, Eq, Structural)]
pub struct Color {
    pub r: u8,
    pub g: u8,
    pub b: u8,
    pub a: u8,
}

/// Alpha of `a` scaled by `factor / 255`, rounded to the nearest integer
/// (halves round up).
pub open spec fn scaled_alpha(a: u8, factor: u8) -> int {
    (2 * a as int * factor as int + 255) / 510
}

/// `c` with its alpha channel multiplied by `factor / 255`.
pub open spec fn with_alpha(c: Color, factor: u8) -> Color {
    Color { r: c.r, g: c.g, b: c.b, a: scaled_alpha(c.a, factor) as u8 }
}

/// A factor of 0 clears the alpha channel; a factor of 255 keeps it.
pub proof fn lemma_alpha_extremes(a: u8)
    ensures
        scaled_alpha(a, 0) == 0,
        scaled_alpha(a, 255) == a,
{
    assert((2 * a as int * 0 + 255) / 510 == 0) by (nonlinear_arith);
    assert((2 * a as int * 255 + 255) / 510 == a) by (nonlinear_arith);
}

impl Color {
    /// Multiplies the alpha channel by `factor / 255` (255 stands for 1.0),
    /// keeping the color channels.
    pub fn multiply_alpha(self, factor: u8) -> (r: Color)
        ensures
            r.r == self.r,
            r.g == self.g,
            r.b == self.b,
            r.a as int == scaled_alpha(self.a, factor),
            r == with_alpha(self, factor),
            factor == 0 ==> r.a == 0,
            factor == 255 ==> r == self,
    {
        assert(2 * (self.a as u32) * (factor as u32) <= 2 * 255 * 255) by (nonlinear_arith)
            requires
                self.a <= 255,
                factor <= 255,
        ;
        let twice: u32 = 2 * (self.a as u32) * (factor as u32);
        proof {
            lemma_alpha_extremes(self.a);
        }
        assert((twice + 255) / 510 <= 255);
        Color { r: self.r, g: self.g, b: self.b, a: ((twice + 255) / 510) as u8 }
    }
}

} // verus!

verus! {

/// The color that stands in for names that no theme declares.
pub open spec fn spec_fallback_color() -> Color {
    Color { r: 0, g: 0, b: 0, a: 255 }
}

/// The color that stands in for names that no theme declares.
pub fn fallback_color() -> (r: Color)
    ensures
        r == spec_fallback_color(),
{
    Color { r: 0, g: 0, b: 0, a: 255 }
}

/// The named ANSI colors of a terminal.
#[derive(Clone, Copy, Debug, PartialEq, Eq, Structural)]
pub enum NamedColor {
    Black,
    Red,
    Green,
    Yellow,
    Blue,
    Magenta,
    Cyan,
    White,
    BrightBlack,
    BrightRed,
    BrightGreen,
    BrightYellow,
    BrightBlue,
    BrightMagenta,
    BrightCyan,
    BrightWhite,
    Foreground,
    Background,
    Cursor,
    DimBlack,
    DimRed,
    DimGreen,
    DimYellow,
    DimBlue,
    DimMagenta,
    DimCyan,
    DimWhite,
    BrightForeground,
    DimForeground,
}

/// The alpha factor (out of 255) that dims a terminal color: two thirds.
pub const DIM_ALPHA: u8 = 170;

impl NamedColor {
    pub open spec fn spec_theme_key(self) -> Seq<char> {
        match self {
            NamedColor::Black => "terminal.black"@,
            NamedColor::Red => "terminal.red"@,
            NamedColor::Green => "terminal.green"@,
            NamedColor::Yellow => "terminal.yellow"@,
            NamedColor::Blue => "terminal.blue"@,
            NamedColor::Magenta => "terminal.magenta"@,
            NamedColor::Cyan => "terminal.cyan"@,
            NamedColor::White => "terminal.white"@,
            NamedColor::BrightBlack => "terminal.bright_black"@,
            NamedColor::BrightRed => "terminal.bright_red"@,
            NamedColor::BrightGreen => "terminal.bright_green"@,
            NamedColor::BrightYellow => "terminal.bright_yellow"@,
            NamedColor::BrightBlue => "terminal.bright_blue"@,
            NamedColor::BrightMagenta => "terminal.bright_magenta"@,
            NamedColor::BrightCyan => "terminal.bright_cyan"@,
            NamedColor::BrightWhite => "terminal.bright_white"@,
            NamedColor::Foreground => "terminal.foreground"@,
            NamedColor::Background => "terminal.background"@,
            NamedColor::Cursor => "terminal.cursor"@,
            NamedColor::DimBlack => "terminal.black"@,
            NamedColor::DimRed => "terminal.red"@,
            NamedColor::DimGreen => "terminal.green"@,
            NamedColor::DimYellow => "terminal.yellow"@,
            NamedColor::DimBlue => "terminal.blue"@,
            NamedColor::DimMagenta => "terminal.magenta"@,
            NamedColor::DimCyan => "terminal.cyan"@,
            NamedColor::DimWhite => "terminal.white"@,
            NamedColor::BrightForeground => "terminal.foreground"@,
            NamedColor::DimForeground => "terminal.foreground"@,
        }
    }

    /// The alpha factor applied to the theme's color: dim colors are drawn
    /// at two thirds of its alpha, the others as declared.
    pub open spec fn spec_alpha(self) -> u8 {
        match self {
            NamedColor::DimBlack | NamedColor::DimRed | NamedColor::DimGreen | NamedColor::DimYellow | NamedColor::DimBlue | NamedColor::DimMagenta | NamedColor::DimCyan | NamedColor::DimWhite | NamedColor::DimForeground => DIM_ALPHA,
            _ => 255,
        }
    }

    /// The alpha factor applied to the theme's color.
    pub fn alpha(&self) -> (r: u8)
        ensures
            r == self.spec_alpha(),
    {
        match self {
            NamedColor::DimBlack | NamedColor::DimRed | NamedColor::DimGreen | NamedColor::DimYellow | NamedColor::DimBlue | NamedColor::DimMagenta | NamedColor::DimCyan | NamedColor::DimWhite | NamedColor::DimForeground => DIM_ALPHA,
            _ => 255,
        }
    }

    /// The name under which a color theme declares this color.
    pub fn theme_key(&self) -> (r: &'static str)
        ensures
            r@ == self.spec_theme_key(),
    {
        match self {
            NamedColor::Black => "terminal.black",
            NamedColor::Red => "terminal.red",
            NamedColor::Green => "terminal.green",
            NamedColor::Yellow => "terminal.yellow",
            NamedColor::Blue => "terminal.blue",
            NamedColor::Magenta => "terminal.magenta",
            NamedColor::Cyan => "terminal.cyan",
            NamedColor::White => "terminal.white",
            NamedColor::BrightBlack => "terminal.bright_black",
            NamedColor::BrightRed => "terminal.bright_red",
            NamedColor::BrightGreen => "terminal.bright_green",
            NamedColor::BrightYellow => "terminal.bright_yellow",
            NamedColor::BrightBlue => "terminal.bright_blue",
            NamedColor::BrightMagenta => "terminal.bright_magenta",
            NamedColor::BrightCyan => "terminal.bright_cyan",
            NamedColor::BrightWhite => "terminal.bright_white",
            NamedColor::Foreground => "terminal.foreground",
            NamedColor::Background => "terminal.background",
            NamedColor::Cursor => "terminal.cursor",
            NamedColor::DimBlack => "terminal.black",
            NamedColor::DimRed => "terminal.red",
            NamedColor::DimGreen => "terminal.green",
            NamedColor::DimYellow => "terminal.yellow",
            NamedColor::DimBlue => "terminal.blue",
            NamedColor::DimMagenta => "terminal.magenta",
            NamedColor::DimCyan => "terminal.cyan",
            NamedColor::DimWhite => "terminal.white",
            NamedColor::BrightForeground => "terminal.foreground",
            NamedColor::DimForeground => "terminal.foreground",
        }
    }
}

} // verus!
