//! `Workplace`: where Produce actually happens. Never owned or claimed: any
//! agent whose career unlocks the matching `ProductionAction` can use it.
use vstd::prelude::*;
use crate::career::ProductionAction;

verus! {

pub struct Workplace {
    position: (i32, i32),
    action: ProductionAction,
}

impl View for Workplace {
    /// Where the workplace stands, and the production action it offers.
    type V = ((i32, i32), ProductionAction);

    closed spec fn view(&self) -> ((i32, i32), ProductionAction) {
        (self.position, self.action)
    }
}

impl Workplace {
    pub fn new(position: (i32, i32), action: ProductionAction) -> (workplace: Workplace)
        ensures
            workplace@ == (position, action),
    {
        Workplace { position, action }
    }

    pub fn position(&self) -> (position: (i32, i32))
        ensures
            position == self@.0,
    {
        self.position
    }

    pub fn action(&self) -> (action: ProductionAction)
        ensures
            action == self@.1,
    {
        self.action
    }
}

} // verus!
