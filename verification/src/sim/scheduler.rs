use vstd::prelude::*;

use crate::primitives::ids::AssignmentId;
use crate::primitives::position::{same_or_adjacent, Position};
use crate::sim::action::WorkerAction;
use crate::sim::assignment::Assignment;
use crate::sim::entity::WorkerStatus;
use crate::sim::task::{Task, TaskKind};
use crate::sim::world::{WorldState, WorldStateView};

verus! {

/// What the scheduler proposes for an assignment.
#[derive(Clone, Copy, Debug, PartialEq, Eq, Hash, Structural)]
pub enum ScheduleOutcome {
    Action { assignment_id: AssignmentId, action: WorkerAction },
    Complete { assignment_id: AssignmentId },
    Blocked { assignment_id: AssignmentId, reason: ScheduleBlockReason },
}

/// Why the scheduler cannot propose an action.
#[derive(Clone, Copy, Debug, PartialEq, Eq, Hash, Structural)]
pub enum ScheduleBlockReason {
    UnknownWorker,
    UnknownTask,
    UnknownResourceNode,
    UnknownStorage,
    WorkerDisabled,
    WorkerAlreadyCarrying,
    WorkerNotCarrying,
    UnsupportedTask,
}

/// The sign of `v`: -1, 0 or 1.
pub open spec fn sign(v: int) -> int {
    if v > 0 {
        1
    } else if v < 0 {
        -1
    } else {
        0
    }
}

/// One step from `from` toward `to`: along x while x differs, then along y.
pub open spec fn step_toward_spec(from: Position, to: Position) -> Position {
    if from.x != to.x {
        Position { x: (from.x + sign(to.x - from.x)) as i32, y: from.y }
    } else {
        Position { x: from.x, y: (from.y + sign(to.y - from.y)) as i32 }
    }
}

/// The coordinate difference that a step computes fits in an `i32`.
pub open spec fn step_in_range(from: Position, to: Position) -> bool {
    if from.x != to.x {
        i32::MIN <= to.x - from.x <= i32::MAX
    } else {
        i32::MIN <= to.y - from.y <= i32::MAX
    }
}

/// The outcome that blocks `assignment` for `reason`.
pub open spec fn blocked_spec(a: Assignment, reason: ScheduleBlockReason) -> ScheduleOutcome {
    ScheduleOutcome::Blocked { assignment_id: a.id, reason }
}

/// The scheduler's proposal for `assignment` of `task` in world `s`.
pub open spec fn spec_schedule_next_action(s: WorldStateView, task: Task, a: Assignment) -> ScheduleOutcome {
    if a.task_id != task.id {
        blocked_spec(a, ScheduleBlockReason::UnknownTask)
    } else {
        match s.worker(a.worker_id) {
            None => blocked_spec(a, ScheduleBlockReason::UnknownWorker),
            Some(w) => if w.status == WorkerStatus::Disabled {
                blocked_spec(a, ScheduleBlockReason::WorkerDisabled)
            } else {
                match task.kind {
                    TaskKind::MineResource { quantity, node_id, .. } => match s.node(node_id) {
                        None => blocked_spec(a, ScheduleBlockReason::UnknownResourceNode),
                        Some(node) => if w.carried is Some {
                            blocked_spec(a, ScheduleBlockReason::WorkerAlreadyCarrying)
                        } else if !same_or_adjacent(w.position, node.position) {
                            ScheduleOutcome::Action {
                                assignment_id: a.id,
                                action: WorkerAction::Move {
                                    worker_id: w.id,
                                    to: step_toward_spec(w.position, node.position),
                                },
                            }
                        } else {
                            ScheduleOutcome::Action {
                                assignment_id: a.id,
                                action: WorkerAction::Mine { worker_id: w.id, node_id, quantity },
                            }
                        },
                    },
                    TaskKind::DepositResource { storage_id } => match s.depot(storage_id) {
                        None => blocked_spec(a, ScheduleBlockReason::UnknownStorage),
                        Some(depot) => if w.carried is None {
                            blocked_spec(a, ScheduleBlockReason::WorkerNotCarrying)
                        } else if !same_or_adjacent(w.position, depot.position) {
                            ScheduleOutcome::Action {
                                assignment_id: a.id,
                                action: WorkerAction::Move {
                                    worker_id: w.id,
                                    to: step_toward_spec(w.position, depot.position),
                                },
                            }
                        } else {
                            ScheduleOutcome::Action {
                                assignment_id: a.id,
                                action: WorkerAction::Deposit { worker_id: w.id, storage_id },
                            }
                        },
                    },
                }
            },
        }
    }
}

/// The tiles between which the scheduler steps, when it proposes a move.
pub open spec fn scheduled_step_endpoints(s: WorldStateView, task: Task, a: Assignment) -> Option<
    (Position, Position),
> {
    if a.task_id != task.id {
        None
    } else {
        match s.worker(a.worker_id) {
            None => None,
            Some(w) => if w.status == WorkerStatus::Disabled {
                None
            } else {
                match task.kind {
                    TaskKind::MineResource { node_id, .. } => match s.node(node_id) {
                        Some(node) => if w.carried is None && !same_or_adjacent(
                            w.position,
                            node.position,
                        ) {
                            Some((w.position, node.position))
                        } else {
                            None
                        },
                        None => None,
                    },
                    TaskKind::DepositResource { storage_id } => match s.depot(storage_id) {
                        Some(depot) => if w.carried is Some && !same_or_adjacent(
                            w.position,
                            depot.position,
                        ) {
                            Some((w.position, depot.position))
                        } else {
                            None
                        },
                        None => None,
                    },
                }
            },
        }
    }
}

/// Any step the scheduler would take stays within `i32` coordinate differences.
pub open spec fn schedule_in_range(s: WorldStateView, task: Task, a: Assignment) -> bool {
    match scheduled_step_endpoints(s, task, a) {
        Some((from, to)) => step_in_range(from, to),
        None => true,
    }
}

fn blocked(assignment_id: AssignmentId, reason: ScheduleBlockReason) -> (r: ScheduleOutcome)
    ensures
        r == (ScheduleOutcome::Blocked { assignment_id, reason }),
{
    ScheduleOutcome::Blocked { assignment_id, reason }
}

fn step_toward(from: Position, to: Position) -> (r: Position)
    requires
        step_in_range(from, to),
    ensures
        r == step_toward_spec(from, to),
{
    if from.x != to.x {
        let x = if to.x > from.x {
            from.x + 1
        } else {
            from.x - 1
        };
        return Position::new(x, from.y);
    }
    let y = if to.y > from.y {
        from.y + 1
    } else if to.y < from.y {
        from.y - 1
    } else {
        from.y
    };
    Position::new(from.x, y)
}

/// Proposes the next action for `assignment` of `task`, without changing the world.
pub fn schedule_next_action(state: &WorldState, task: &Task, assignment: &Assignment) -> (r:
    ScheduleOutcome)
    requires
        schedule_in_range(state@, *task, *assignment),
    ensures
        r == spec_schedule_next_action(state@, *task, *assignment),
{
    if assignment.task_id != task.id {
        return blocked(assignment.id, ScheduleBlockReason::UnknownTask);
    }
    let worker = match state.workers.get(&assignment.worker_id) {
        Some(w) => *w,
        None => {
            return blocked(assignment.id, ScheduleBlockReason::UnknownWorker);
        },
    };
    if worker.status == WorkerStatus::Disabled {
        return blocked(assignment.id, ScheduleBlockReason::WorkerDisabled);
    }
    match task.kind {
        TaskKind::MineResource { quantity, node_id, .. } => {
            let node = match state.resource_nodes.get(&node_id) {
                Some(n) => *n,
                None => {
                    return blocked(assignment.id, ScheduleBlockReason::UnknownResourceNode);
                },
            };
            if worker.carried.is_some() {
                return blocked(assignment.id, ScheduleBlockReason::WorkerAlreadyCarrying);
            }
            if !worker.position.is_same_or_adjacent(node.position) {
                return ScheduleOutcome::Action {
                    assignment_id: assignment.id,
                    action: WorkerAction::Move {
                        worker_id: worker.id,
                        to: step_toward(worker.position, node.position),
                    },
                };
            }
            ScheduleOutcome::Action {
                assignment_id: assignment.id,
                action: WorkerAction::Mine { worker_id: worker.id, node_id, quantity },
            }
        },
        TaskKind::DepositResource { storage_id } => {
            let depot = match state.storage.get(&storage_id) {
                Some(d) => *d,
                None => {
                    return blocked(assignment.id, ScheduleBlockReason::UnknownStorage);
                },
            };
            if worker.carried.is_none() {
                return blocked(assignment.id, ScheduleBlockReason::WorkerNotCarrying);
            }
            if !worker.position.is_same_or_adjacent(depot.position) {
                return ScheduleOutcome::Action {
                    assignment_id: assignment.id,
                    action: WorkerAction::Move {
                        worker_id: worker.id,
                        to: step_toward(worker.position, depot.position),
                    },
                };
            }
            ScheduleOutcome::Action {
                assignment_id: assignment.id,
                action: WorkerAction::Deposit { worker_id: worker.id, storage_id },
            }
        },
    }
}

/// The grid path length between two tiles, counted by coordinates.
pub open spec fn grid_distance(a: Position, b: Position) -> int {
    (if a.x >= b.x {
        a.x - b.x
    } else {
        b.x - a.x
    }) + (if a.y >= b.y {
        a.y - b.y
    } else {
        b.y - a.y
    })
}

/// The tile the scheduler's task heads for: the node to mine or the depot to fill.
pub open spec fn task_target(s: WorldStateView, task: Task) -> Option<Position> {
    match task.kind {
        TaskKind::MineResource { node_id, .. } => match s.node(node_id) {
            Some(n) => Some(n.position),
            None => None,
        },
        TaskKind::DepositResource { storage_id } => match s.depot(storage_id) {
            Some(d) => Some(d.position),
            None => None,
        },
    }
}

/// Whenever the scheduler proposes a move, it is a move of the assigned worker, which is
/// active, onto a tile one step from where it stands and one step closer to the task's
/// node or depot, which the worker is not yet on or next to. Whenever it proposes mining or
/// depositing, the worker is already on or next to the target.
pub proof fn lemma_scheduled_move_approaches(s: WorldStateView, task: Task, a: Assignment)
    ensures
        ({
            let outcome = spec_schedule_next_action(s, task, a);
            &&& outcome matches ScheduleOutcome::Action { action: WorkerAction::Move { worker_id, to }, .. }
                ==> {
                &&& s.worker(a.worker_id) is Some
                &&& task_target(s, task) is Some
                &&& {
                    let w = s.worker(a.worker_id)->Some_0;
                    let t = task_target(s, task)->Some_0;
                    &&& worker_id == w.id
                    &&& w.status == WorkerStatus::Active
                    &&& grid_distance(w.position, to) == 1
                    &&& grid_distance(w.position, t) > 1
                    &&& grid_distance(to, t) == grid_distance(w.position, t) - 1
                }
            }
            &&& (outcome matches ScheduleOutcome::Action { action, .. } && (action is Mine
                || action is Deposit)) ==> {
                &&& s.worker(a.worker_id) is Some
                &&& task_target(s, task) is Some
                &&& grid_distance(s.worker(a.worker_id)->Some_0.position, task_target(s, task)->Some_0) <= 1
            }
        }),
{
}

} // verus!
