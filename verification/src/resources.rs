//! Shared world resources the gameplay systems read: the ambient wind and
//! the rectangular bounds of the playable world.

use vstd::prelude::*;

verus! {

use crate::vectors::Vec2;

/// The ambient wind, a horizontal velocity in fixed-point units per second.
#[derive(Clone, Copy, Debug, PartialEq, Eq, Structural)]
pub struct Wind {
    pub wind: Vec2,
}

impl Wind {
    pub open spec fn wf(self) -> bool {
        self.wind.wf()
    }
}

impl Default for Wind {
    /// A calm world: no wind at all.
    fn default() -> (r: Self)
        ensures
            r.wind == (Vec2 { x: 0, y: 0 }),
            r.wf(),
    {
        Wind { wind: Vec2 { x: 0, y: 0 } }
    }
}

/// The rectangular bounds of the world, in fixed-point coordinates.
/// `left < right` and `bottom < top`, so every border has positive extent.
#[derive(Clone, Copy, Debug, PartialEq, Eq, Structural)]
pub struct WorldBounds {
    pub left: i64,
    pub right: i64,
    pub bottom: i64,
    pub top: i64,
}

impl WorldBounds {
    pub open spec fn wf(self) -> bool {
        &&& -1_000_000_000 <= self.left < self.right <= 1_000_000_000
        &&& -1_000_000_000 <= self.bottom < self.top <= 1_000_000_000
    }
}

} // verus!
