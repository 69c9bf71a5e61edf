//! `House`: a world object an agent can own, and the place on the grid
//! Rest requires its owner to be at.
use vstd::prelude::*;

verus! {

/// A world object an agent can own, and a place on the grid Rest requires
/// the owning agent to actually be at. A built house is positioned wherever
/// its builder stood at the time.
pub struct House {
    position: (i32, i32),
}

impl View for House {
    type V = (i32, i32);

    /// A house is fully described by where it stands.
    closed spec fn view(&self) -> (i32, i32) {
        self.position
    }
}

impl House {
    pub fn new(position: (i32, i32)) -> (house: House)
        ensures
            house@ == position,
    {
        House { position }
    }

    pub fn position(&self) -> (position: (i32, i32))
        ensures
            position == self@,
    {
        self.position
    }
}

} // verus!
