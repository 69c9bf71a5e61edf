//! `Restaurant`: a shared world object where any agent can Eat. It is
//! never owned or claimed; it is just a fixed grid position that Eat
//! requires an agent to be at.
use vstd::prelude::*;

verus! {

pub struct Restaurant {
    position: (i32, i32),
}

impl View for Restaurant {
    type V = (i32, i32);

    closed spec fn view(&self) -> (i32, i32) {
        self.position
    }
}

impl Restaurant {
    pub fn new(position: (i32, i32)) -> (restaurant: Restaurant)
        ensures
            restaurant@ == position,
    {
        Restaurant { position }
    }

    pub fn position(&self) -> (position: (i32, i32))
        ensures
            position == self@,
    {
        self.position
    }
}

} // verus!
