//! Style values that hold no lengths.
use vstd::prelude::*;

verus! {

#[derive(Clone, Copy, Debug, PartialEq, Eq, Structural)]
pub enum ThemedColor {
    LightWhite,
    White,
    DarkWhite,
    LightBlack,
    Black,
    DarkBlack,
    LightRed,
    Red,
    DarkRed,
    LightBlue,
    Blue,
    DarkBlue,
    LightGreen,
    Green,
    DarkGreen,
    LightYellow,
    Yellow,
    DarkYellow,
    LightPurple,
    Purple,
    DarkPurple,
    LightPink,
    Pink,
    DarkPink,
    LightOrange,
    Orange,
    DarkOrange,
}

#[derive(Clone, Copy, Debug, PartialEq, Eq, Structural)]
pub enum Color {
    Themed { color: ThemedColor, alpha: u8 },
    Rgba { r: u8, g: u8, b: u8, a: u8 },
    Hsva { h: u8, s: u8, v: u8, a: u8 },
}

#[derive(Clone, Copy, Debug, PartialEq, Eq, Structural)]
pub enum Direction {
    TopLeft,
    Top,
    TopRight,
    Left,
    Center,
    Right,
    BottomLeft,
    Bottom,
    BottomRight,
}

#[derive(Clone, Copy, Debug, PartialEq, Eq, Structural)]
pub enum GradientType {
    Linear(Direction),
    Radial,
    Conic,
}

#[derive(Clone, Copy, Debug, PartialEq, Eq, Structural)]
pub struct Gradient {
    pub from: Color,
    pub to: Color,
    pub gradient_type: GradientType,
}

#[derive(Clone, Debug)]
pub enum Graphic {
    Color(Color),
    Image(String),
    Gradient(Gradient),
    /// No graphic.
    Empty,
}

#[derive(Clone, Copy, Debug, PartialEq, Eq, Structural)]
pub enum CardinalDirection {
    Top,
    Left,
    Right,
    Bottom,
}

#[derive(Clone, Copy, Debug, PartialEq, Eq, Structural)]
pub enum FlexDirection {
    RowLeft,
    RowRight,
    ColumnUp,
    ColumnDown,
}

#[derive(Clone, Copy, Debug, PartialEq, Eq, Structural)]
pub enum FontWeight {
    ExtraLight,
    Light,
    Normal,
    Bold,
    ExtraBold,
    Black,
    Custom(u16),
}

#[derive(Clone, Debug)]
pub enum StyleString {
    Static(&'static str),
    Dynamic(String),
}

} // verus!
