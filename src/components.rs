use vstd::prelude::*;

verus! {

/// Where an entity stands on the grid.
#[derive(Clone, Copy, Debug, PartialEq, Eq, Structural)]
pub struct Position {
    pub x: i32,
    pub y: i32,
}

/// Hit points of an entity and the entity that last hurt it.
#[derive(Clone, Copy, Debug, PartialEq, Eq, Structural)]
pub struct Health {
    pub hp: i32,
    pub last_damaged_by: i32,
}

/// Tag shared by entities that are grouped as static.
#[derive(Clone, Copy, Debug, PartialEq, Eq, Structural)]
pub struct Static;

impl Position {
    pub open spec fn can_advance(self) -> bool {
        self.x < i32::MAX && self.y < i32::MAX
    }

    /// The position after one frame of movement: one step along each axis.
    pub fn advanced(self) -> (r: Position)
        requires
            self.can_advance(),
        ensures
            r.x == self.x + 1,
            r.y == self.y + 1,
    {
        Position { x: self.x + 1, y: self.y + 1 }
    }
}

} // verus!
