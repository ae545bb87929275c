//! Tile kinds and their display mapping.

use vstd::prelude::*;

verus! {

/// The colors the dungeon view uses: terrain is drawn in blue, the
/// character in green.
#[derive(Clone, Copy, Debug, PartialEq, Eq, Structural)]
pub enum Color {
    Blue,
    Green,
}

/// One grid cell's kind. A cell always holds exactly one of these; a fresh
/// grid is filled with `Empty` and carving overwrites cells with `Wall` or
/// `Floor`.
#[derive(Clone, Copy, Debug, PartialEq, Eq, Structural)]
pub enum Tile {
    Empty,
    Floor,
    Wall,
}

/// The glyph a tile is displayed as: space for `Empty`, `.` for `Floor`,
/// `#` for `Wall`.
pub open spec fn tile_glyph(t: Tile) -> char {
    match t {
        Tile::Empty => ' ',
        Tile::Floor => '.',
        Tile::Wall => '#',
    }
}

impl Tile {
    /// The pure display mapping: every tile kind maps to its glyph, and all
    /// terrain shares one color, distinct from the character's.
    pub fn draw(&self) -> (r: (char, Color))
        ensures
            r.0 == tile_glyph(*self),
            r.1 == Color::Blue,
    {
        match self {
            Tile::Empty => (' ', Color::Blue),
            Tile::Floor => ('.', Color::Blue),
            Tile::Wall => ('#', Color::Blue),
        }
    }
}

impl Default for Tile {
    /// The default tile kind is `Wall`.
    fn default() -> (r: Self)
        ensures
            r == Tile::Wall,
    {
        Tile::Wall
    }
}

} // verus!
