use vstd::prelude::*;

use crate::ordered_map::{lookup, OrderedMap};
use crate::primitives::ids::{ResourceNodeId, StorageId, WorkerId};
use crate::primitives::tick::Tick;
use crate::sim::entity::{ResourceNode, Storage, Worker};

verus! {

/// The whole simulated world at one tick.
#[derive(Debug, PartialEq, Eq)]
pub struct WorldState {
    pub tick: Tick,
    pub workers: OrderedMap<WorkerId, Worker>,
    pub resource_nodes: OrderedMap<ResourceNodeId, ResourceNode>,
    pub storage: OrderedMap<StorageId, Storage>,
}

/// The mathematical value of a world: its tick and its entries ordered by identifier.
pub struct WorldStateView {
    pub tick: Tick,
    pub workers: Seq<(WorkerId, Worker)>,
    pub resource_nodes: Seq<(ResourceNodeId, ResourceNode)>,
    pub storage: Seq<(StorageId, Storage)>,
}

impl WorldStateView {
    /// The worker stored under `id`.
    pub open spec fn worker(self, id: WorkerId) -> Option<Worker> {
        lookup(self.workers, id)
    }

    /// The resource node stored under `id`.
    pub open spec fn node(self, id: ResourceNodeId) -> Option<ResourceNode> {
        lookup(self.resource_nodes, id)
    }

    /// The storage depot stored under `id`.
    pub open spec fn depot(self, id: StorageId) -> Option<Storage> {
        lookup(self.storage, id)
    }
}

impl View for WorldState {
    type V = WorldStateView;

    open spec fn view(&self) -> WorldStateView {
        WorldStateView {
            tick: self.tick,
            workers: self.workers@,
            resource_nodes: self.resource_nodes@,
            storage: self.storage@,
        }
    }
}

impl WorldState {
    /// An empty world at tick zero.
    pub fn new() -> (r: Self)
        ensures
            r@.tick.0 == 0,
            r@.workers.len() == 0,
            r@.resource_nodes.len() == 0,
            r@.storage.len() == 0,
    {
        WorldState {
            tick: Tick::zero(),
            workers: OrderedMap::new(),
            resource_nodes: OrderedMap::new(),
            storage: OrderedMap::new(),
        }
    }

    /// A copy of the world.
    pub fn duplicate(&self) -> (r: Self)
        ensures
            r@ == self@,
    {
        WorldState {
            tick: self.tick,
            workers: self.workers.duplicate(),
            resource_nodes: self.resource_nodes.duplicate(),
            storage: self.storage.duplicate(),
        }
    }

    /// Whether two worlds are equal.
    pub fn same_as(&self, other: &WorldState) -> (r: bool)
        ensures
            r == (self@ == other@),
    {
        let r = self.tick == other.tick && self.workers.same_entries(&other.workers)
            && self.resource_nodes.same_entries(&other.resource_nodes)
            && self.storage.same_entries(&other.storage);
        r
    }
}

impl Default for WorldState {
    fn default() -> (r: Self)
        ensures
            r@.tick.0 == 0,
            r@.workers.len() == 0,
            r@.resource_nodes.len() == 0,
            r@.storage.len() == 0,
    {
        WorldState::new()
    }
}

} // verus!
