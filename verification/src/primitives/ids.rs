use vstd::prelude::*;

use crate::ordered_map::MapKey;

verus! {

/// Identifier of a worker.
#[derive(Clone, Copy, Debug, PartialEq, Eq, PartialOrd, Ord, Hash, Structural)]
pub struct WorkerId(pub u64);

impl WorkerId {
    /// The identifier with the given value.
    pub fn new(value: u64) -> (r: Self)
        ensures
            r.0 == value,
    {
        WorkerId(value)
    }

    /// The value of the identifier.
    pub fn value(self) -> (r: u64)
        ensures
            r == self.0,
    {
        self.0
    }

}

impl MapKey for WorkerId {
    open spec fn rank(&self) -> u64 {
        self.0
    }

    fn key_rank(&self) -> (r: u64) {
        self.0
    }

    proof fn lemma_rank_injective(a: Self, b: Self) {
    }
}

/// Identifier of a resource node.
#[derive(Clone, Copy, Debug, PartialEq, Eq, PartialOrd, Ord, Hash, Structural)]
pub struct ResourceNodeId(pub u64);

impl ResourceNodeId {
    /// The identifier with the given value.
    pub fn new(value: u64) -> (r: Self)
        ensures
            r.0 == value,
    {
        ResourceNodeId(value)
    }

    /// The value of the identifier.
    pub fn value(self) -> (r: u64)
        ensures
            r == self.0,
    {
        self.0
    }

}

impl MapKey for ResourceNodeId {
    open spec fn rank(&self) -> u64 {
        self.0
    }

    fn key_rank(&self) -> (r: u64) {
        self.0
    }

    proof fn lemma_rank_injective(a: Self, b: Self) {
    }
}

/// Identifier of a storage depot.
#[derive(Clone, Copy, Debug, PartialEq, Eq, PartialOrd, Ord, Hash, Structural)]
pub struct StorageId(pub u64);

impl StorageId {
    /// The identifier with the given value.
    pub fn new(value: u64) -> (r: Self)
        ensures
            r.0 == value,
    {
        StorageId(value)
    }

    /// The value of the identifier.
    pub fn value(self) -> (r: u64)
        ensures
            r == self.0,
    {
        self.0
    }

}

impl MapKey for StorageId {
    open spec fn rank(&self) -> u64 {
        self.0
    }

    fn key_rank(&self) -> (r: u64) {
        self.0
    }

    proof fn lemma_rank_injective(a: Self, b: Self) {
    }
}

/// Identifier of an objective.
#[derive(Clone, Copy, Debug, PartialEq, Eq, PartialOrd, Ord, Hash, Structural)]
pub struct ObjectiveId(pub u64);

impl ObjectiveId {
    /// The identifier with the given value.
    pub fn new(value: u64) -> (r: Self)
        ensures
            r.0 == value,
    {
        ObjectiveId(value)
    }

    /// The value of the identifier.
    pub fn value(self) -> (r: u64)
        ensures
            r == self.0,
    {
        self.0
    }

}

impl MapKey for ObjectiveId {
    open spec fn rank(&self) -> u64 {
        self.0
    }

    fn key_rank(&self) -> (r: u64) {
        self.0
    }

    proof fn lemma_rank_injective(a: Self, b: Self) {
    }
}

/// Identifier of a decision.
#[derive(Clone, Copy, Debug, PartialEq, Eq, PartialOrd, Ord, Hash, Structural)]
pub struct DecisionId(pub u64);

impl DecisionId {
    /// The identifier with the given value.
    pub fn new(value: u64) -> (r: Self)
        ensures
            r.0 == value,
    {
        DecisionId(value)
    }

    /// The value of the identifier.
    pub fn value(self) -> (r: u64)
        ensures
            r == self.0,
    {
        self.0
    }

}

impl MapKey for DecisionId {
    open spec fn rank(&self) -> u64 {
        self.0
    }

    fn key_rank(&self) -> (r: u64) {
        self.0
    }

    proof fn lemma_rank_injective(a: Self, b: Self) {
    }
}

/// Identifier of a task.
#[derive(Clone, Copy, Debug, PartialEq, Eq, PartialOrd, Ord, Hash, Structural)]
pub struct TaskId(pub u64);

impl TaskId {
    /// The identifier with the given value.
    pub fn new(value: u64) -> (r: Self)
        ensures
            r.0 == value,
    {
        TaskId(value)
    }

    /// The value of the identifier.
    pub fn value(self) -> (r: u64)
        ensures
            r == self.0,
    {
        self.0
    }

}

impl MapKey for TaskId {
    open spec fn rank(&self) -> u64 {
        self.0
    }

    fn key_rank(&self) -> (r: u64) {
        self.0
    }

    proof fn lemma_rank_injective(a: Self, b: Self) {
    }
}

/// Identifier of an assignment.
#[derive(Clone, Copy, Debug, PartialEq, Eq, PartialOrd, Ord, Hash, Structural)]
pub struct AssignmentId(pub u64);

impl AssignmentId {
    /// The identifier with the given value.
    pub fn new(value: u64) -> (r: Self)
        ensures
            r.0 == value,
    {
        AssignmentId(value)
    }

    /// The value of the identifier.
    pub fn value(self) -> (r: u64)
        ensures
            r == self.0,
    {
        self.0
    }

}

impl MapKey for AssignmentId {
    open spec fn rank(&self) -> u64 {
        self.0
    }

    fn key_rank(&self) -> (r: u64) {
        self.0
    }

    proof fn lemma_rank_injective(a: Self, b: Self) {
    }
}

/// Identifier of an event in an event log.
#[derive(Clone, Copy, Debug, PartialEq, Eq, PartialOrd, Ord, Hash, Structural)]
pub struct EventId(pub u64);

impl EventId {
    /// The identifier with the given value.
    pub fn new(value: u64) -> (r: Self)
        ensures
            r.0 == value,
    {
        EventId(value)
    }

    /// The value of the identifier.
    pub fn value(self) -> (r: u64)
        ensures
            r == self.0,
    {
        self.0
    }

    /// The next identifier, or `None` when the value would overflow.
    pub fn checked_next(self) -> (r: Option<Self>)
        ensures
            match r {
                Some(next) => self.0 < u64::MAX && next.0 == self.0 + 1,
                None => self.0 == u64::MAX,
            },
    {
        if self.0 < u64::MAX {
            Some(EventId(self.0 + 1))
        } else {
            None
        }
    }

}

impl MapKey for EventId {
    open spec fn rank(&self) -> u64 {
        self.0
    }

    fn key_rank(&self) -> (r: u64) {
        self.0
    }

    proof fn lemma_rank_injective(a: Self, b: Self) {
    }
}

} // verus!
