//! The single controllable entity: a grid position, a glyph and a color.

use vstd::prelude::*;
use crate::tile::Color;

verus! {

/// A movement direction, one grid cell at a time.
#[derive(Clone, Copy, Debug, PartialEq, Eq, Structural)]
pub enum Direction {
    Up,
    Down,
    Left,
    Right,
}

/// Where a step in `dir` from `(x, y)` lands: `Up` decrements `y`, `Down`
/// increments `y`, `Left` decrements `x`, `Right` increments `x`.
pub open spec fn moved(x: int, y: int, dir: Direction) -> (int, int) {
    match dir {
        Direction::Up => (x, y - 1),
        Direction::Down => (x, y + 1),
        Direction::Left => (x - 1, y),
        Direction::Right => (x + 1, y),
    }
}

/// A step in `dir` from `(x, y)` stays inside a `width` by `height` grid.
pub open spec fn can_move(x: int, y: int, dir: Direction, width: int, height: int) -> bool {
    match dir {
        Direction::Up => y > 0,
        Direction::Down => y + 1 < height,
        Direction::Left => x > 0,
        Direction::Right => x + 1 < width,
    }
}

/// The controllable entity. It carries no reference to any level: bounds
/// are the caller's concern for `go`, or checked against given dimensions
/// by `try_go`.
#[derive(Clone, Copy, Debug, PartialEq, Eq, Structural)]
pub struct Character {
    pub x: usize,
    pub y: usize,
    pub symbol: char,
    pub color: Color,
}

impl Character {
    pub fn new(x: usize, y: usize, symbol: char, color: Color) -> (r: Self)
        ensures
            r == (Character { x, y, symbol, color }),
    {
        Character { x, y, symbol, color }
    }

    /// The display mapping: the character's own glyph and color.
    pub fn draw(&self) -> (r: (char, Color))
        ensures
            r == (self.symbol, self.color),
    {
        (self.symbol, self.color)
    }

    /// Unconditional movement by one cell. The caller must rule out the
    /// steps that would leave the representable range.
    pub fn go(&mut self, dir: Direction)
        requires
            dir == Direction::Up ==> old(self).y > 0,
            dir == Direction::Left ==> old(self).x > 0,
            dir == Direction::Down ==> old(self).y < usize::MAX,
            dir == Direction::Right ==> old(self).x < usize::MAX,
        ensures
            (final(self).x as int, final(self).y as int) == moved(
                old(self).x as int,
                old(self).y as int,
                dir,
            ),
            final(self).symbol == old(self).symbol,
            final(self).color == old(self).color,
    {
        match dir {
            Direction::Up => self.y = self.y - 1,
            Direction::Down => self.y = self.y + 1,
            Direction::Left => self.x = self.x - 1,
            Direction::Right => self.x = self.x + 1,
        }
    }

    /// Bounds-checked movement inside a `width` by `height` grid: steps
    /// that would leave the grid are refused and reported as blocked.
    pub fn try_go(&mut self, dir: Direction, width: usize, height: usize) -> (r: bool)
        requires
            old(self).x < width,
            old(self).y < height,
        ensures
            r == can_move(old(self).x as int, old(self).y as int, dir, width as int, height as int),
            r ==> (final(self).x as int, final(self).y as int) == moved(
                old(self).x as int,
                old(self).y as int,
                dir,
            ),
            !r ==> *final(self) == *old(self),
            final(self).symbol == old(self).symbol,
            final(self).color == old(self).color,
            final(self).x < width,
            final(self).y < height,
    {
        match dir {
            Direction::Up => {
                if self.y > 0 {
                    self.y = self.y - 1;
                    true
                } else {
                    false
                }
            },
            Direction::Down => {
                if self.y + 1 < height {
                    self.y = self.y + 1;
                    true
                } else {
                    false
                }
            },
            Direction::Left => {
                if self.x > 0 {
                    self.x = self.x - 1;
                    true
                } else {
                    false
                }
            },
            Direction::Right => {
                if self.x + 1 < width {
                    self.x = self.x + 1;
                    true
                } else {
                    false
                }
            },
        }
    }
}

/// A vertical step and its opposite cancel: stepping `Up` and then `Down`
/// (or `Down` then `Up`) from any position returns to that position.
pub proof fn lemma_vertical_moves_invert(x: int, y: int)
    ensures
        moved(moved(x, y, Direction::Up).0, moved(x, y, Direction::Up).1, Direction::Down) == (
        x,
        y,
        ),
        moved(moved(x, y, Direction::Down).0, moved(x, y, Direction::Down).1, Direction::Up) == (
        x,
        y,
        ),
{
}

/// A horizontal step and its opposite cancel: stepping `Left` and then
/// `Right` (or `Right` then `Left`) from any position returns to that
/// position.
pub proof fn lemma_horizontal_moves_invert(x: int, y: int)
    ensures
        moved(moved(x, y, Direction::Left).0, moved(x, y, Direction::Left).1, Direction::Right) == (
        x,
        y,
        ),
        moved(moved(x, y, Direction::Right).0, moved(x, y, Direction::Right).1, Direction::Left) == (
        x,
        y,
        ),
{
}

} // verus!
