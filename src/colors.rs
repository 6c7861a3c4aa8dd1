use vstd::prelude::*;

use crate::board::GameBoardSpaceType;
use crate::units::PlayerColor;

verus! {

/// A color as red, green and blue intensities.
#[derive(Clone, Copy, Debug, PartialEq, Eq, Structural)]
pub struct ColorSpec {
    pub r: u8,
    pub g: u8,
    pub b: u8,
}

/// A value that is drawn in a color of its own.
pub trait Color {
    spec fn color_spec(&self) -> ColorSpec;

    fn color(&self) -> (r: ColorSpec)
        ensures
            r == self.color_spec(),
    ;
}

impl Color for GameBoardSpaceType {
    /// Each terrain's color; `Void` is black.
    open spec fn color_spec(&self) -> ColorSpec {
        match self {
            GameBoardSpaceType::Void => ColorSpec { r: 0x00, g: 0x00, b: 0x00 },
            GameBoardSpaceType::Water => ColorSpec { r: 0x20, g: 0x20, b: 0x80 },
            GameBoardSpaceType::Mountain => ColorSpec { r: 0x40, g: 0x40, b: 0x40 },
            GameBoardSpaceType::Forest => ColorSpec { r: 0x11, g: 0x46, b: 0x11 },
            GameBoardSpaceType::Plains => ColorSpec { r: 0x00, g: 0x80, b: 0x40 },
            GameBoardSpaceType::Field => ColorSpec { r: 0x80, g: 0x70, b: 0x00 },
        }
    }

    fn color(&self) -> (r: ColorSpec) {
        match self {
            GameBoardSpaceType::Void => ColorSpec { r: 0x00, g: 0x00, b: 0x00 },
            GameBoardSpaceType::Water => ColorSpec { r: 0x20, g: 0x20, b: 0x80 },
            GameBoardSpaceType::Mountain => ColorSpec { r: 0x40, g: 0x40, b: 0x40 },
            GameBoardSpaceType::Forest => ColorSpec { r: 0x11, g: 0x46, b: 0x11 },
            GameBoardSpaceType::Plains => ColorSpec { r: 0x00, g: 0x80, b: 0x40 },
            GameBoardSpaceType::Field => ColorSpec { r: 0x80, g: 0x70, b: 0x00 },
        }
    }
}

impl Color for PlayerColor {
    /// Each player's color.
    open spec fn color_spec(&self) -> ColorSpec {
        match self {
            PlayerColor::Red => ColorSpec { r: 0xC0, g: 0x00, b: 0x00 },
            PlayerColor::Blue => ColorSpec { r: 0x00, g: 0x00, b: 0xFF },
            PlayerColor::Green => ColorSpec { r: 0x00, g: 0xD0, b: 0x00 },
            PlayerColor::Yellow => ColorSpec { r: 0xFF, g: 0xD7, b: 0x00 },
        }
    }

    fn color(&self) -> (r: ColorSpec) {
        match self {
            PlayerColor::Red => ColorSpec { r: 0xC0, g: 0x00, b: 0x00 },
            PlayerColor::Blue => ColorSpec { r: 0x00, g: 0x00, b: 0xFF },
            PlayerColor::Green => ColorSpec { r: 0x00, g: 0xD0, b: 0x00 },
            PlayerColor::Yellow => ColorSpec { r: 0xFF, g: 0xD7, b: 0x00 },
        }
    }
}

} // verus!
