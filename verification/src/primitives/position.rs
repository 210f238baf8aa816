use vstd::prelude::*;

verus! {

/// A tile of the grid world.
#[derive(Clone, Copy, Debug, Default, PartialEq, Eq, PartialOrd, Ord, Hash, Structural)]
pub struct Position {
    pub x: i32,
    pub y: i32,
}

/// The absolute difference of two integers.
pub open spec fn abs_diff(a: int, b: int) -> int {
    if a >= b {
        a - b
    } else {
        b - a
    }
}

/// The grid path length between two tiles: horizontal plus vertical difference.
pub open spec fn manhattan(a: Position, b: Position) -> int {
    abs_diff(a.x as int, b.x as int) + abs_diff(a.y as int, b.y as int)
}

/// Tiles one step apart.
pub open spec fn adjacent(a: Position, b: Position) -> bool {
    manhattan(a, b) == 1
}

/// The same tile or tiles one step apart.
pub open spec fn same_or_adjacent(a: Position, b: Position) -> bool {
    manhattan(a, b) <= 1
}

fn axis_distance(a: i32, b: i32) -> (r: u64)
    ensures
        r == abs_diff(a as int, b as int),
{
    if a >= b {
        ((a as i64) - (b as i64)) as u64
    } else {
        ((b as i64) - (a as i64)) as u64
    }
}

impl Position {
    /// The tile at `(x, y)`.
    pub fn new(x: i32, y: i32) -> (r: Self)
        ensures
            r.x == x,
            r.y == y,
    {
        Position { x, y }
    }

    /// Measures the total grid path between two points by adding the horizontal and
    /// vertical differences.
    pub fn manhattan_distance(self, other: Self) -> (r: u64)
        ensures
            r == manhattan(self, other),
    {
        axis_distance(self.x, other.x) + axis_distance(self.y, other.y)
    }

    /// Whether the two tiles are one step apart.
    pub fn is_adjacent(self, other: Self) -> (r: bool)
        ensures
            r == adjacent(self, other),
    {
        self.manhattan_distance(other) == 1
    }

    /// Whether the two tiles are the same or one step apart.
    pub fn is_same_or_adjacent(self, other: Self) -> (r: bool)
        ensures
            r == same_or_adjacent(self, other),
    {
        self.manhattan_distance(other) <= 1
    }
}

} // verus!
