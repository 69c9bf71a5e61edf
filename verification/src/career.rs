//! `Career`: an agent's job, which gates which production action (if any)
//! is available to it.
use vstd::prelude::*;

verus! {

/// An agent's job. Determines which `ProductionAction`, if any, is
/// available via `production_action`.
#[derive(Debug, Clone, Copy, PartialEq, Eq, Structural)]
pub enum Career {
    /// No job yet: no production action available. The default.
    Unemployed,
    Farmer,
    Builder,
}

/// A production action a `Career` unlocks.
#[derive(Debug, Clone, Copy, PartialEq, Eq, Structural)]
pub enum ProductionAction {
    Farm,
    Build,
}

impl Career {
    /// The production action each career unlocks, as a mathematical function.
    pub open spec fn production_action_spec(self) -> Option<ProductionAction> {
        match self {
            Career::Unemployed => None,
            Career::Farmer => Some(ProductionAction::Farm),
            Career::Builder => Some(ProductionAction::Build),
        }
    }

    /// Which production action this career gates access to, if any.
    #[verifier::when_used_as_spec(production_action_spec)]
    pub fn production_action(self) -> (result: Option<ProductionAction>)
        ensures
            result == self.production_action_spec(),
    {
        match self {
            Career::Unemployed => None,
            Career::Farmer => Some(ProductionAction::Farm),
            Career::Builder => Some(ProductionAction::Build),
        }
    }
}

impl Default for Career {
    /// Nothing currently grants an agent a career at construction.
    fn default() -> (result: Career)
        ensures
            result == Career::Unemployed,
    {
        Career::Unemployed
    }
}

} // verus!
