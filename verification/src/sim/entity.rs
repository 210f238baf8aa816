use vstd::prelude::*;

use crate::ordered_map::MapValue;
use crate::primitives::ids::{ResourceNodeId, StorageId, WorkerId};
use crate::primitives::position::Position;
use crate::primitives::quantity::Quantity;

verus! {

/// A kind of resource.
#[derive(Clone, Copy, Debug, PartialEq, Eq, PartialOrd, Ord, Hash, Structural)]
pub enum ResourceKind {
    Iron,
}

/// What a worker is built for.
#[derive(Clone, Copy, Debug, PartialEq, Eq, Hash, Structural)]
pub enum WorkerRole {
    Miner,
    Hauler,
}

/// Whether a worker may act.
#[derive(Clone, Copy, Debug, PartialEq, Eq, Hash, Structural)]
pub enum WorkerStatus {
    Active,
    Disabled,
}

/// A resource a worker carries.
#[derive(Clone, Copy, Debug, PartialEq, Eq, Hash, Structural)]
pub struct CarriedResource {
    pub kind: ResourceKind,
    pub quantity: Quantity,
}

/// A worker of the grid world.
#[derive(Clone, Copy, Debug, PartialEq, Eq, Hash, Structural)]
pub struct Worker {
    pub id: WorkerId,
    pub role: WorkerRole,
    pub position: Position,
    pub battery: Quantity,
    pub carried: Option<CarriedResource>,
    pub status: WorkerStatus,
}

/// A tile that holds a minable resource.
#[derive(Clone, Copy, Debug, PartialEq, Eq, Hash, Structural)]
pub struct ResourceNode {
    pub id: ResourceNodeId,
    pub kind: ResourceKind,
    pub position: Position,
    pub remaining: Quantity,
}

/// The quantity stored per resource kind: a map from [`ResourceKind`] to [`Quantity`] with
/// one slot for each kind.
#[derive(Clone, Copy, Debug, Default, PartialEq, Eq, Hash, Structural)]
pub struct Inventory {
    pub iron: Option<Quantity>,
}

/// The quantity stored under `kind`, if any.
pub open spec fn inventory_get(inv: Inventory, kind: ResourceKind) -> Option<Quantity> {
    match kind {
        ResourceKind::Iron => inv.iron,
    }
}

/// The inventory after storing `q` under `kind`.
pub open spec fn inventory_put(inv: Inventory, kind: ResourceKind, q: Quantity) -> Inventory {
    match kind {
        ResourceKind::Iron => Inventory { iron: Some(q), ..inv },
    }
}

/// The number of kinds with a stored quantity.
pub open spec fn inventory_len(inv: Inventory) -> nat {
    if inv.iron is Some {
        1
    } else {
        0
    }
}

impl Inventory {
    /// An inventory with no kind stored.
    pub fn new() -> (r: Self)
        ensures
            r.iron is None,
    {
        Inventory { iron: None }
    }

    /// The quantity stored under `kind`, if any.
    pub fn get(&self, kind: &ResourceKind) -> (r: Option<Quantity>)
        ensures
            r == inventory_get(*self, *kind),
    {
        match kind {
            ResourceKind::Iron => self.iron,
        }
    }

    /// Stores `q` under `kind` and returns the quantity it replaced.
    pub fn insert(&mut self, kind: ResourceKind, q: Quantity) -> (r: Option<Quantity>)
        ensures
            *final(self) == inventory_put(*old(self), kind, q),
            r == inventory_get(*old(self), kind),
    {
        match kind {
            ResourceKind::Iron => {
                let previous = self.iron;
                self.iron = Some(q);
                previous
            },
        }
    }

    /// The number of kinds with a stored quantity.
    pub fn len(&self) -> (r: usize)
        ensures
            r == inventory_len(*self),
    {
        if self.iron.is_some() {
            1
        } else {
            0
        }
    }

    /// Whether no kind is stored.
    pub fn is_empty(&self) -> (r: bool)
        ensures
            r == (inventory_len(*self) == 0),
    {
        self.iron.is_none()
    }
}

/// A storage depot.
#[derive(Clone, Copy, Debug, PartialEq, Eq, Hash, Structural)]
pub struct Storage {
    pub id: StorageId,
    pub position: Position,
    pub inventory: Inventory,
}

impl MapValue for Worker {
    fn same_value(&self, other: &Self) -> (r: bool) {
        *self == *other
    }
}

impl MapValue for ResourceNode {
    fn same_value(&self, other: &Self) -> (r: bool) {
        *self == *other
    }
}

impl MapValue for Storage {
    fn same_value(&self, other: &Self) -> (r: bool) {
        *self == *other
    }
}

} // verus!
