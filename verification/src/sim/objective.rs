use vstd::prelude::*;

use crate::primitives::ids::ObjectiveId;
use crate::primitives::quantity::Quantity;
use crate::sim::entity::ResourceKind;

verus! {

/// An accepted goal.
#[derive(Clone, Copy, Debug, PartialEq, Eq, Hash, Structural)]
pub struct Objective {
    pub id: ObjectiveId,
    pub kind: ObjectiveKind,
}

/// What an objective asks for.
#[derive(Clone, Copy, Debug, PartialEq, Eq, Hash, Structural)]
pub enum ObjectiveKind {
    MaintainStockpile { resource: ResourceKind, minimum: Quantity },
}

} // verus!
