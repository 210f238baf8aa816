use vstd::prelude::*;
use vstd::string::StringExecFns;

use crate::primitives::ids::{ResourceNodeId, StorageId, WorkerId};
use crate::primitives::position::Position;
use crate::primitives::quantity::Quantity;
use crate::text::{dec, push_i32, push_u64, signed_dec};

verus! {

/// Why the world reducer refused an action.
#[derive(Clone, Copy, Debug, PartialEq, Eq)]
pub enum SimError {
    UnknownWorker(WorkerId),
    UnknownResourceNode(ResourceNodeId),
    UnknownStorage(StorageId),
    InvalidAction(&'static str),
    WorkerDisabled(WorkerId),
    InsufficientBattery { worker_id: WorkerId, required: Quantity, available: Quantity },
    InsufficientResource {
        resource_node_id: ResourceNodeId,
        requested: Quantity,
        available: Quantity,
    },
    NotAdjacent { from: Position, to: Position },
    CapacityExceeded { current: Quantity, added: Quantity },
    TickOverflow,
}

/// Two errors that are equal, the reasons of invalid actions compared by their text.
pub open spec fn same_sim_error(a: SimError, b: SimError) -> bool {
    match (a, b) {
        (SimError::InvalidAction(x), SimError::InvalidAction(y)) => x@ == y@,
        (SimError::InvalidAction(_), _) => false,
        (_, SimError::InvalidAction(_)) => false,
        _ => a == b,
    }
}

/// The text of `(x, y)`.
pub open spec fn position_text(p: Position) -> Seq<char> {
    "("@ + signed_dec(p.x as int) + ", "@ + signed_dec(p.y as int) + ")"@
}

/// The human-readable message of a reducer error.
pub open spec fn sim_error_text(e: SimError) -> Seq<char> {
    match e {
        SimError::UnknownWorker(id) => "unknown worker: "@ + dec(id.0 as nat),
        SimError::UnknownResourceNode(id) => "unknown resource node: "@ + dec(id.0 as nat),
        SimError::UnknownStorage(id) => "unknown storage: "@ + dec(id.0 as nat),
        SimError::InvalidAction(reason) => "invalid action: "@ + reason@,
        SimError::WorkerDisabled(id) => "worker "@ + dec(id.0 as nat) + " is disabled"@,
        SimError::InsufficientBattery { worker_id, required, available } => "worker "@ + dec(
            worker_id.0 as nat,
        ) + " has insufficient battery: required "@ + dec(required.0 as nat) + ", available "@
            + dec(available.0 as nat),
        SimError::InsufficientResource { resource_node_id, requested, available } =>
            "resource node "@ + dec(resource_node_id.0 as nat)
            + " has insufficient resource: requested "@ + dec(requested.0 as nat)
            + ", available "@ + dec(available.0 as nat),
        SimError::NotAdjacent { from, to } => "positions are not adjacent: "@ + position_text(from)
            + " -> "@ + position_text(to),
        SimError::CapacityExceeded { current, added } => "capacity exceeded: current "@ + dec(
            current.0 as nat,
        ) + ", attempted addition "@ + dec(added.0 as nat),
        SimError::TickOverflow => "tick overflow"@,
    }
}

/// Appends the text of `(x, y)`.
pub fn push_position(out: &mut String, p: Position)
    ensures
        final(out)@ == old(out)@ + position_text(p),
{
    out.append("(");
    push_i32(out, p.x);
    out.append(", ");
    push_i32(out, p.y);
    out.append(")");
    assert(final(out)@ =~= old(out)@ + position_text(p));
}

/// Compares two characters sequences of string slices.
pub fn same_str(a: &str, b: &str) -> (r: bool)
    ensures
        r == (a@ == b@),
{
    let n = a.unicode_len();
    if n != b.unicode_len() {
        return false;
    }
    let mut i: usize = 0;
    while i < n
        invariant
            n == a@.len(),
            n == b@.len(),
            0 <= i <= n,
            forall|j: int| 0 <= j < i ==> a@[j] == b@[j],
        decreases n - i,
    {
        if a.get_char(i) != b.get_char(i) {
            return false;
        }
        i = i + 1;
    }
    assert(a@ =~= b@);
    true
}

impl SimError {
    /// Appends the message of the error.
    pub fn push_message(&self, out: &mut String)
        ensures
            final(out)@ == old(out)@ + sim_error_text(*self),
    {
        match *self {
            SimError::UnknownWorker(id) => {
                out.append("unknown worker: ");
                push_u64(out, id.0);
            },
            SimError::UnknownResourceNode(id) => {
                out.append("unknown resource node: ");
                push_u64(out, id.0);
            },
            SimError::UnknownStorage(id) => {
                out.append("unknown storage: ");
                push_u64(out, id.0);
            },
            SimError::InvalidAction(reason) => {
                out.append("invalid action: ");
                out.append(reason);
            },
            SimError::WorkerDisabled(id) => {
                out.append("worker ");
                push_u64(out, id.0);
                out.append(" is disabled");
            },
            SimError::InsufficientBattery { worker_id, required, available } => {
                out.append("worker ");
                push_u64(out, worker_id.0);
                out.append(" has insufficient battery: required ");
                push_u64(out, required.0);
                out.append(", available ");
                push_u64(out, available.0);
            },
            SimError::InsufficientResource { resource_node_id, requested, available } => {
                out.append("resource node ");
                push_u64(out, resource_node_id.0);
                out.append(" has insufficient resource: requested ");
                push_u64(out, requested.0);
                out.append(", available ");
                push_u64(out, available.0);
            },
            SimError::NotAdjacent { from, to } => {
                out.append("positions are not adjacent: ");
                push_position(out, from);
                out.append(" -> ");
                push_position(out, to);
            },
            SimError::CapacityExceeded { current, added } => {
                out.append("capacity exceeded: current ");
                push_u64(out, current.0);
                out.append(", attempted addition ");
                push_u64(out, added.0);
            },
            SimError::TickOverflow => {
                out.append("tick overflow");
            },
        }
        assert(final(out)@ =~= old(out)@ + sim_error_text(*self));
    }

    /// The message of the error.
    pub fn message(&self) -> (r: String)
        ensures
            r@ == sim_error_text(*self),
    {
        let mut out = String::new();
        self.push_message(&mut out);
        assert(out@ =~= sim_error_text(*self));
        out
    }

    /// Whether two errors are the same, comparing invalid-action reasons by their text.
    pub fn same_as(&self, other: &SimError) -> (r: bool)
        ensures
            r == same_sim_error(*self, *other),
    {
        match (*self, *other) {
            (SimError::InvalidAction(x), SimError::InvalidAction(y)) => same_str(x, y),
            (SimError::InvalidAction(_), _) => false,
            (_, SimError::InvalidAction(_)) => false,
            (SimError::UnknownWorker(a), SimError::UnknownWorker(b)) => a == b,
            (SimError::UnknownResourceNode(a), SimError::UnknownResourceNode(b)) => a == b,
            (SimError::UnknownStorage(a), SimError::UnknownStorage(b)) => a == b,
            (SimError::WorkerDisabled(a), SimError::WorkerDisabled(b)) => a == b,
            (
                SimError::InsufficientBattery { worker_id: a, required: b, available: c },
                SimError::InsufficientBattery { worker_id: x, required: y, available: z },
            ) => a == x && b == y && c == z,
            (
                SimError::InsufficientResource { resource_node_id: a, requested: b, available: c },
                SimError::InsufficientResource { resource_node_id: x, requested: y, available: z },
            ) => a == x && b == y && c == z,
            (SimError::NotAdjacent { from: a, to: b }, SimError::NotAdjacent { from: x, to: y }) =>
                a == x && b == y,
            (
                SimError::CapacityExceeded { current: a, added: b },
                SimError::CapacityExceeded { current: x, added: y },
            ) => a == x && b == y,
            (SimError::TickOverflow, SimError::TickOverflow) => true,
            _ => false,
        }
    }
}

} // verus!
