//! Glyph sprites cut from a 16 by 16 ASCII sheet.

use vstd::prelude::*;
use crate::geometry::{Pos3, TILE_SIZE};

verus! {

/// Number of glyph cells on each side of the sheet.
pub const SHEET_CELLS: u32 = 16;

/// A colour; each channel in thousandths, from 0 to 1000.
#[derive(Clone, Copy, Debug, PartialEq, Eq, Structural)]
pub struct Color {
    pub r: u16,
    pub g: u16,
    pub b: u16,
    pub a: u16,
}

impl Color {
    pub open spec fn wf(&self) -> bool {
        self.r <= 1000 && self.g <= 1000 && self.b <= 1000 && self.a <= 1000
    }

    /// An opaque colour.
    pub fn rgb(r: u16, g: u16, b: u16) -> (c: Color)
        requires
            r <= 1000,
            g <= 1000,
            b <= 1000,
        ensures
            c == (Color { r, g, b, a: 1000 }),
            c.wf(),
    {
        Color { r, g, b, a: 1000 }
    }
}

/// What is drawn for one entity: a glyph of the sheet, tinted, placed and
/// sized in world units, shown or hidden.
#[derive(Clone, Copy, Debug, PartialEq, Eq, Structural)]
pub struct Sprite {
    pub index: u32,
    pub color: Color,
    pub translation: Pos3,
    pub size: u32,
    pub visible: bool,
}

/// A visible glyph sprite, one cell in size, at `translation`.
pub fn spawn_ascii_sprite(index: u32, color: Color, translation: Pos3) -> (s: Sprite)
    ensures
        s == (Sprite { index, color, translation, size: TILE_SIZE, visible: true }),
{
    Sprite { index, color, translation, size: TILE_SIZE, visible: true }
}

} // verus!
