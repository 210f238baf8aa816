use vstd::prelude::*;
use vstd::string::StringExecFns;

use crate::primitives::ids::WorkerId;
use crate::primitives::quantity::Quantity;
use crate::sim::action::WorkerAction;
use crate::sim::world::{WorldState, WorldStateView};
use crate::text::{dec, push_u64};

verus! {

/// Limits checked before an action reaches the reducer.
#[derive(Clone, Copy, Debug, PartialEq, Eq, Hash, Structural)]
pub struct ActionPolicy {
    pub min_battery_reserve: Option<Quantity>,
    pub allow_disable_worker: bool,
    pub allow_repair_worker: bool,
    pub max_mine_quantity: Option<Quantity>,
}

/// The policy that imposes no limit.
pub open spec fn permissive_policy() -> ActionPolicy {
    ActionPolicy {
        min_battery_reserve: None,
        allow_disable_worker: true,
        allow_repair_worker: true,
        max_mine_quantity: None,
    }
}

impl ActionPolicy {
    /// The policy that imposes no limit.
    pub fn permissive() -> (r: Self)
        ensures
            r == permissive_policy(),
    {
        ActionPolicy {
            min_battery_reserve: None,
            allow_disable_worker: true,
            allow_repair_worker: true,
            max_mine_quantity: None,
        }
    }
}

impl Default for ActionPolicy {
    fn default() -> (r: Self)
        ensures
            r == permissive_policy(),
    {
        ActionPolicy::permissive()
    }
}

/// Why the policy refused an action.
#[derive(Clone, Copy, Debug, PartialEq, Eq, Hash, Structural)]
pub enum PolicyError {
    BatteryReserveViolation {
        worker_id: WorkerId,
        current: Quantity,
        required_reserve: Quantity,
        action_cost: Quantity,
    },
    DisableWorkerNotAllowed { worker_id: WorkerId },
    RepairWorkerNotAllowed { worker_id: WorkerId },
    MineQuantityLimitExceeded { requested: Quantity, maximum: Quantity },
    UnknownWorker { worker_id: WorkerId },
}

/// The human-readable message of a policy error.
pub open spec fn policy_error_text(e: PolicyError) -> Seq<char> {
    match e {
        PolicyError::BatteryReserveViolation { worker_id, current, required_reserve, action_cost } =>
            "worker "@ + dec(worker_id.0 as nat) + " would breach battery reserve: current "@
            + dec(current.0 as nat) + ", reserve "@ + dec(required_reserve.0 as nat)
            + ", action cost "@ + dec(action_cost.0 as nat),
        PolicyError::DisableWorkerNotAllowed { worker_id } => "policy does not allow disabling worker "@
            + dec(worker_id.0 as nat),
        PolicyError::RepairWorkerNotAllowed { worker_id } => "policy does not allow repairing worker "@
            + dec(worker_id.0 as nat),
        PolicyError::MineQuantityLimitExceeded { requested, maximum } =>
            "mine quantity exceeds policy maximum: requested "@ + dec(requested.0 as nat)
            + ", maximum "@ + dec(maximum.0 as nat),
        PolicyError::UnknownWorker { worker_id } => "policy validation found unknown worker "@
            + dec(worker_id.0 as nat),
    }
}

impl PolicyError {
    /// Appends the message of the error.
    pub fn push_message(&self, out: &mut String)
        ensures
            final(out)@ == old(out)@ + policy_error_text(*self),
    {
        match *self {
            PolicyError::BatteryReserveViolation {
                worker_id,
                current,
                required_reserve,
                action_cost,
            } => {
                out.append("worker ");
                push_u64(out, worker_id.0);
                out.append(" would breach battery reserve: current ");
                push_u64(out, current.0);
                out.append(", reserve ");
                push_u64(out, required_reserve.0);
                out.append(", action cost ");
                push_u64(out, action_cost.0);
            },
            PolicyError::DisableWorkerNotAllowed { worker_id } => {
                out.append("policy does not allow disabling worker ");
                push_u64(out, worker_id.0);
            },
            PolicyError::RepairWorkerNotAllowed { worker_id } => {
                out.append("policy does not allow repairing worker ");
                push_u64(out, worker_id.0);
            },
            PolicyError::MineQuantityLimitExceeded { requested, maximum } => {
                out.append("mine quantity exceeds policy maximum: requested ");
                push_u64(out, requested.0);
                out.append(", maximum ");
                push_u64(out, maximum.0);
            },
            PolicyError::UnknownWorker { worker_id } => {
                out.append("policy validation found unknown worker ");
                push_u64(out, worker_id.0);
            },
        }
        assert(final(out)@ =~= old(out)@ + policy_error_text(*self));
    }

    /// The message of the error.
    pub fn message(&self) -> (r: String)
        ensures
            r@ == policy_error_text(*self),
    {
        let mut out = String::new();
        self.push_message(&mut out);
        assert(out@ =~= policy_error_text(*self));
        out
    }
}

/// The worker an action charges, and by how much: moving, mining and depositing cost one.
pub open spec fn spec_battery_cost(action: WorkerAction) -> Option<(WorkerId, Quantity)> {
    match action {
        WorkerAction::Move { worker_id, .. } => Some((worker_id, Quantity(1))),
        WorkerAction::Mine { worker_id, .. } => Some((worker_id, Quantity(1))),
        WorkerAction::Deposit { worker_id, .. } => Some((worker_id, Quantity(1))),
        _ => None,
    }
}

/// The reserve check: the charged worker must keep at least the reserve after the action.
pub open spec fn spec_reserve_check(
    s: WorldStateView,
    action: WorkerAction,
    policy: ActionPolicy,
) -> Result<(), PolicyError> {
    match (policy.min_battery_reserve, spec_battery_cost(action)) {
        (Some(reserve), Some((worker_id, cost))) => match s.worker(worker_id) {
            None => Err(PolicyError::UnknownWorker { worker_id }),
            Some(w) => if w.battery.0 >= cost.0 && w.battery.0 - cost.0 >= reserve.0 {
                Ok(())
            } else {
                Err(
                    PolicyError::BatteryReserveViolation {
                        worker_id,
                        current: w.battery,
                        required_reserve: reserve,
                        action_cost: cost,
                    },
                )
            },
        },
        _ => Ok(()),
    }
}

/// Whether `policy` admits `action` in world `s`, and if not, why.
pub open spec fn spec_validate_action_policy(
    s: WorldStateView,
    action: WorkerAction,
    policy: ActionPolicy,
) -> Result<(), PolicyError> {
    match action {
        WorkerAction::DisableWorker { worker_id } => if !policy.allow_disable_worker {
            Err(PolicyError::DisableWorkerNotAllowed { worker_id })
        } else {
            spec_reserve_check(s, action, policy)
        },
        WorkerAction::RepairWorker { worker_id } => if !policy.allow_repair_worker {
            Err(PolicyError::RepairWorkerNotAllowed { worker_id })
        } else {
            spec_reserve_check(s, action, policy)
        },
        WorkerAction::Mine { quantity, .. } => match policy.max_mine_quantity {
            Some(maximum) => if quantity.0 > maximum.0 {
                Err(PolicyError::MineQuantityLimitExceeded { requested: quantity, maximum })
            } else {
                spec_reserve_check(s, action, policy)
            },
            None => spec_reserve_check(s, action, policy),
        },
        _ => spec_reserve_check(s, action, policy),
    }
}

fn battery_cost(action: &WorkerAction) -> (r: Option<(WorkerId, Quantity)>)
    ensures
        r == spec_battery_cost(*action),
{
    match *action {
        WorkerAction::Move { worker_id, .. } => Some((worker_id, Quantity::one())),
        WorkerAction::Mine { worker_id, .. } => Some((worker_id, Quantity::one())),
        WorkerAction::Deposit { worker_id, .. } => Some((worker_id, Quantity::one())),
        WorkerAction::Recharge { .. } => None,
        WorkerAction::Wait { .. } => None,
        WorkerAction::DisableWorker { .. } => None,
        WorkerAction::RepairWorker { .. } => None,
    }
}

/// Checks `action` against `policy` in `state`, before any reducer rule is applied.
pub fn validate_action_policy(state: &WorldState, action: &WorkerAction, policy: &ActionPolicy) -> (r:
    Result<(), PolicyError>)
    ensures
        r == spec_validate_action_policy(state@, *action, *policy),
{
    match *action {
        WorkerAction::DisableWorker { worker_id } => {
            if !policy.allow_disable_worker {
                return Err(PolicyError::DisableWorkerNotAllowed { worker_id });
            }
        },
        WorkerAction::RepairWorker { worker_id } => {
            if !policy.allow_repair_worker {
                return Err(PolicyError::RepairWorkerNotAllowed { worker_id });
            }
        },
        WorkerAction::Mine { quantity, .. } => {
            if let Some(maximum) = policy.max_mine_quantity {
                if quantity.0 > maximum.0 {
                    return Err(PolicyError::MineQuantityLimitExceeded { requested: quantity, maximum });
                }
            }
        },
        _ => {},
    }
    if let Some(required_reserve) = policy.min_battery_reserve {
        if let Some((worker_id, action_cost)) = battery_cost(action) {
            let worker = match state.workers.get(&worker_id) {
                Some(w) => *w,
                None => {
                    return Err(PolicyError::UnknownWorker { worker_id });
                },
            };
            let remaining = worker.battery.checked_sub(action_cost);
            let within = match remaining {
                Some(rem) => rem.0 >= required_reserve.0,
                None => false,
            };
            if !within {
                return Err(
                    PolicyError::BatteryReserveViolation {
                        worker_id,
                        current: worker.battery,
                        required_reserve,
                        action_cost,
                    },
                );
            }
        }
    }
    Ok(())
}

/// What the policy decides, action by action. Disabling is refused exactly when the policy
/// forbids disabling, repairing exactly when it forbids repairing, and neither depends on
/// anything else; recharging and waiting are never refused. A mine above the policy maximum
/// is refused for its quantity. An action that costs charge (move, mine, deposit) passes the
/// reserve check exactly when there is no reserve, or its worker exists and keeps at least
/// the reserve after paying one charge; an unknown worker is reported as such.
pub proof fn lemma_policy_decisions(s: WorldStateView, action: WorkerAction, policy: ActionPolicy)
    ensures
        action matches WorkerAction::DisableWorker { worker_id } ==> spec_validate_action_policy(
            s,
            action,
            policy,
        ) == if policy.allow_disable_worker {
            Ok::<(), PolicyError>(())
        } else {
            Err(PolicyError::DisableWorkerNotAllowed { worker_id })
        },
        action matches WorkerAction::RepairWorker { worker_id } ==> spec_validate_action_policy(
            s,
            action,
            policy,
        ) == if policy.allow_repair_worker {
            Ok::<(), PolicyError>(())
        } else {
            Err(PolicyError::RepairWorkerNotAllowed { worker_id })
        },
        action is Recharge || action is Wait ==> spec_validate_action_policy(s, action, policy) is Ok,
        match (action, policy.max_mine_quantity) {
            (WorkerAction::Mine { quantity, .. }, Some(m)) => quantity.0 > m.0
                ==> spec_validate_action_policy(s, action, policy) == Err::<(), PolicyError>(
                PolicyError::MineQuantityLimitExceeded { requested: quantity, maximum: m },
            ),
            _ => true,
        },
        ({
            let (worker_id, quantity_ok) = match action {
                WorkerAction::Move { worker_id, .. } => (Some(worker_id), true),
                WorkerAction::Deposit { worker_id, .. } => (Some(worker_id), true),
                WorkerAction::Mine { worker_id, quantity, .. } => (
                    Some(worker_id),
                    match policy.max_mine_quantity {
                        Some(m) => quantity.0 <= m.0,
                        None => true,
                    },
                ),
                _ => (None, false),
            };
            match worker_id {
                None => true,
                Some(id) => quantity_ok ==> match policy.min_battery_reserve {
                    None => spec_validate_action_policy(s, action, policy) is Ok,
                    Some(reserve) => match s.worker(id) {
                        None => spec_validate_action_policy(s, action, policy) == Err::<
                            (),
                            PolicyError,
                        >(PolicyError::UnknownWorker { worker_id: id }),
                        Some(w) => (spec_validate_action_policy(s, action, policy) is Ok) == (
                        w.battery.0 >= 1 + reserve.0),
                    },
                },
            }
        }),
        policy == permissive_policy() ==> spec_validate_action_policy(s, action, policy) is Ok,
{
}

/// Two policies that agree on what matters to an action decide it alike: the reserve and the
/// mine maximum, and the permission for disabling (or repairing) when the action disables
/// (or repairs). In particular the repair permission never changes whether a worker may be
/// disabled, nor the disable permission whether one may be repaired.
pub proof fn lemma_policy_fields_that_matter(
    s: WorldStateView,
    action: WorkerAction,
    p1: ActionPolicy,
    p2: ActionPolicy,
)
    requires
        p1.min_battery_reserve == p2.min_battery_reserve,
        p1.max_mine_quantity == p2.max_mine_quantity,
        action is DisableWorker ==> p1.allow_disable_worker == p2.allow_disable_worker,
        action is RepairWorker ==> p1.allow_repair_worker == p2.allow_repair_worker,
    ensures
        spec_validate_action_policy(s, action, p1) == spec_validate_action_policy(s, action, p2),
{
}

} // verus!
