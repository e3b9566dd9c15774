//! Integer grid cells (x to the right, y upwards) and their arithmetic.
use vstd::prelude::*;

verus! {

/// One square of the level grid.
#[derive(Clone, Copy, Debug, PartialEq, Eq, Structural, Hash)]
pub struct Cell {
    pub x: i32,
    pub y: i32,
}

/// Whether an integer is an `i32`.
pub open spec fn in_i32(v: int) -> bool {
    i32::MIN <= v <= i32::MAX
}

/// Whether a point of the integer plane is a cell of the grid.
pub open spec fn in_grid(p: (int, int)) -> bool {
    in_i32(p.0) && in_i32(p.1)
}

/// A facing is one of the two horizontal directions.
pub open spec fn is_facing(x_dir: i32) -> bool {
    x_dir == 1 || x_dir == -1
}

impl Cell {
    /// The cell as a point of the integer plane.
    pub open spec fn pt(self) -> (int, int) {
        (self.x as int, self.y as int)
    }

    /// Whether the cell can be mirrored horizontally without leaving `i32`.
    pub open spec fn mirrorable(self) -> bool {
        self.x > i32::MIN
    }

    /// The cell with its x-component multiplied by the facing.
    pub open spec fn mirrored(self, x_dir: int) -> (int, int) {
        (x_dir * self.x, self.y as int)
    }

    /// One cell upwards.
    pub fn up() -> (r: Cell)
        ensures
            r.pt() == (0int, 1int),
    {
        Cell { x: 0, y: 1 }
    }

    /// One cell downwards.
    pub fn down() -> (r: Cell)
        ensures
            r.pt() == (0int, -1int),
    {
        Cell { x: 0, y: -1 }
    }

    /// One cell to the right.
    pub fn right() -> (r: Cell)
        ensures
            r.pt() == (1int, 0int),
    {
        Cell { x: 1, y: 0 }
    }

    /// The origin, also the displacement of a stationary gesture.
    pub fn zero() -> (r: Cell)
        ensures
            r.pt() == (0int, 0int),
    {
        Cell { x: 0, y: 0 }
    }

    pub fn new(x: i32, y: i32) -> (r: Cell)
        ensures
            r.x == x,
            r.y == y,
    {
        Cell { x, y }
    }

    /// The cell with its x-component multiplied by `x_dir`.
    pub fn mirror(self, x_dir: i32) -> (r: Cell)
        requires
            is_facing(x_dir),
            self.mirrorable(),
        ensures
            r.pt() == self.mirrored(x_dir as int),
    {
        if x_dir == 1 {
            self
        } else {
            Cell { x: -self.x, y: self.y }
        }
    }

    /// Component-wise sum; both components must stay `i32`.
    pub fn plus(self, d: Cell) -> (r: Cell)
        requires
            in_grid((self.x + d.x, self.y + d.y)),
        ensures
            r.pt() == (self.x + d.x, self.y + d.y),
    {
        Cell { x: self.x + d.x, y: self.y + d.y }
    }

    /// Component-wise difference; both components must stay `i32`.
    pub fn minus(self, d: Cell) -> (r: Cell)
        requires
            in_grid((self.x - d.x, self.y - d.y)),
        ensures
            r.pt() == (self.x - d.x, self.y - d.y),
    {
        Cell { x: self.x - d.x, y: self.y - d.y }
    }
}

} // verus!
