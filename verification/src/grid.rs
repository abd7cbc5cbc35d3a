//! Grid model: cells, directions and bounds of the playing field.

use vstd::prelude::*;

verus! {

/// One cell of the grid, identified by its integer coordinates.
///
/// During a movement step the head may briefly take a coordinate outside the
/// grid (which is what the bounds check detects), so the fields are signed and
/// unconstrained; `in_grid` says when a cell lies on the field.
#[derive(Clone, Copy, PartialEq, Eq, Structural, Hash, Debug)]
pub struct Cell {
    pub x: i32,
    pub y: i32,
}

/// A heading of the snake. Vertical motion follows the Cartesian convention:
/// `Up` increases `y`, `Down` decreases it.
#[derive(Clone, Copy, PartialEq, Eq, Structural, Debug)]
pub enum Direction {
    Left,
    Up,
    Right,
    Down,
}

impl Direction {
    /// The 180-degree reverse of a heading.
    pub open spec fn opposite_spec(self) -> Direction {
        match self {
            Direction::Left => Direction::Right,
            Direction::Right => Direction::Left,
            Direction::Up => Direction::Down,
            Direction::Down => Direction::Up,
        }
    }

    pub fn opposite(self) -> (r: Direction)
        ensures
            r == self.opposite_spec(),
    {
        match self {
            Direction::Left => Direction::Right,
            Direction::Right => Direction::Left,
            Direction::Up => Direction::Down,
            Direction::Down => Direction::Up,
        }
    }
}

impl Cell {
    /// The cell one unit away in the given direction.
    pub open spec fn step_spec(self, d: Direction) -> Cell {
        match d {
            Direction::Left => Cell { x: (self.x - 1) as i32, y: self.y },
            Direction::Right => Cell { x: (self.x + 1) as i32, y: self.y },
            Direction::Up => Cell { x: self.x, y: (self.y + 1) as i32 },
            Direction::Down => Cell { x: self.x, y: (self.y - 1) as i32 },
        }
    }

    /// Whether the cell lies on a `width` by `height` field.
    pub open spec fn in_grid(self, width: i32, height: i32) -> bool {
        0 <= self.x < width && 0 <= self.y < height
    }

    /// Moves the cell one unit in direction `d`.
    pub fn step(self, d: Direction) -> (r: Cell)
        requires
            i32::MIN < self.x < i32::MAX,
            i32::MIN < self.y < i32::MAX,
        ensures
            r == self.step_spec(d),
    {
        match d {
            Direction::Left => Cell { x: self.x - 1, y: self.y },
            Direction::Right => Cell { x: self.x + 1, y: self.y },
            Direction::Up => Cell { x: self.x, y: self.y + 1 },
            Direction::Down => Cell { x: self.x, y: self.y - 1 },
        }
    }

    /// Bounds check against a `width` by `height` field.
    pub fn is_in_grid(self, width: i32, height: i32) -> (r: bool)
        ensures
            r == self.in_grid(width, height),
    {
        0 <= self.x && self.x < width && 0 <= self.y && self.y < height
    }
}

/// Stepping in a direction always changes exactly one coordinate by one, so a
/// cell never steps onto itself.
pub proof fn lemma_step_moves(c: Cell, d: Direction)
    requires
        i32::MIN < c.x < i32::MAX,
        i32::MIN < c.y < i32::MAX,
    ensures
        c.step_spec(d) != c,
{
}

} // verus!
