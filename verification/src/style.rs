//! Colors, effects and the other small enumerations shared by every layer.

use vstd::prelude::*;

verus! {

/// A terminal color: the terminal's default, one of sixteen named colors, an
/// index into the 256-color palette, or a 24-bit value.
#[derive(Clone, Copy, Debug, PartialEq, Eq, Structural)]
pub enum Color {
    Reset,
    Black,
    DarkGrey,
    Red,
    DarkRed,
    Green,
    DarkGreen,
    Yellow,
    DarkYellow,
    Blue,
    DarkBlue,
    Magenta,
    DarkMagenta,
    Cyan,
    DarkCyan,
    White,
    Grey,
    AnsiValue(u8),
    Rgb { r: u8, g: u8, b: u8 },
}

/// One text effect. A set of effects is a `u32` with the bit of each member.
#[derive(Clone, Copy, Debug, PartialEq, Eq, Structural)]
pub enum Effect {
    Reset,
    Bold,
    Dim,
    Underline,
    Reverse,
    Hide,
}

/// The bit that stands for "no effect".
pub const FX_RESET: u32 = 0x200;

impl Effect {
    /// The bit of this effect in an effect set.
    pub open spec fn spec_bits(self) -> u32 {
        match self {
            Effect::Reset => 0x200u32,
            Effect::Bold => 0x400u32,
            Effect::Dim => 0x800u32,
            Effect::Underline => 0x2000u32,
            Effect::Reverse => 0x1_0000u32,
            Effect::Hide => 0x2_0000u32,
        }
    }

    #[verifier::when_used_as_spec(spec_bits)]
    pub fn bits(self) -> (r: u32)
        ensures
            r == self.spec_bits(),
    {
        match self {
            Effect::Reset => 0x200u32,
            Effect::Bold => 0x400u32,
            Effect::Dim => 0x800u32,
            Effect::Underline => 0x2000u32,
            Effect::Reverse => 0x1_0000u32,
            Effect::Hide => 0x2_0000u32,
        }
    }
}

/// The region that a clear command empties.
#[derive(Clone, Copy, Debug, PartialEq, Eq, Structural)]
pub enum Clear {
    All,
    NewLn,
    CurrentLn,
    CursorUp,
    CursorDn,
}

/// A change to one component of the active style.
#[derive(Clone, Copy, Debug, PartialEq, Eq, Structural)]
pub enum Style {
    Fg(Color),
    Bg(Color),
    Fx(u32),
}

/// Foreground, background and effect set of a cell.
#[derive(Clone, Copy, Debug, PartialEq, Eq, Structural)]
pub struct Styles {
    pub fg: Color,
    pub bg: Color,
    pub fx: u32,
}

impl Styles {
    /// The style of an unstyled terminal.
    pub open spec fn spec_plain() -> Styles {
        Styles { fg: Color::Reset, bg: Color::Reset, fx: 0x200u32 }
    }

    #[verifier::when_used_as_spec(spec_plain)]
    pub fn plain() -> (r: Styles)
        ensures
            r == Styles::spec_plain(),
    {
        Styles { fg: Color::Reset, bg: Color::Reset, fx: FX_RESET }
    }

    /// This style with one component replaced.
    pub open spec fn spec_with(self, style: Style) -> Styles {
        match style {
            Style::Fg(c) => Styles { fg: c, ..self },
            Style::Bg(c) => Styles { bg: c, ..self },
            Style::Fx(f) => Styles { fx: f, ..self },
        }
    }

    #[verifier::when_used_as_spec(spec_with)]
    pub fn with(self, style: Style) -> (r: Styles)
        ensures
            r == self.spec_with(style),
    {
        match style {
            Style::Fg(c) => Styles { fg: c, bg: self.bg, fx: self.fx },
            Style::Bg(c) => Styles { fg: self.fg, bg: c, fx: self.fx },
            Style::Fx(f) => Styles { fg: self.fg, bg: self.bg, fx: f },
        }
    }

    pub fn is_plain(self) -> (r: bool)
        ensures
            r == (self == Styles::spec_plain()),
    {
        self == Styles::plain()
    }
}

} // verus!
