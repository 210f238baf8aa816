use vstd::prelude::*;
use vstd::string::StringExecFns;

use crate::primitives::error::sim_error_text;
use crate::primitives::error::SimError;
use crate::sim::action::WorkerAction;
use crate::sim::assignment::Assignment;
use crate::sim::objective::{Objective, ObjectiveKind};
use crate::sim::policy::PolicyError;
use crate::sim::proposal::{
    push_resource_name, rejection_text, resource_name, ParsedProposal, ProposalRejection,
    ProposedObjective,
};
use crate::sim::scheduler::{ScheduleBlockReason, ScheduleOutcome};
use crate::sim::task::{Decision, DecisionKind, Task, TaskKind};
use crate::text::{dec, push_i32, push_u64, signed_dec};

verus! {

/// The label of an objective node.
pub open spec fn objective_label(o: Objective) -> Seq<char> {
    match o.kind {
        ObjectiveKind::MaintainStockpile { resource, minimum } => "MaintainStockpile "@
            + resource_name(resource) + " >= "@ + dec(minimum.0 as nat) + " objective="@ + dec(
            o.id.0 as nat,
        ),
    }
}

/// The label of a decision node.
pub open spec fn decision_label(d: Decision) -> Seq<char> {
    match d.kind {
        DecisionKind::CreateTask { task_id } => "CreateTask decision="@ + dec(d.id.0 as nat)
            + " objective="@ + dec(d.objective_id.0 as nat) + " task="@ + dec(task_id.0 as nat),
    }
}

/// The label of a task node.
pub open spec fn task_label(t: Task) -> Seq<char> {
    match t.kind {
        TaskKind::MineResource { resource, quantity, node_id } => "MineResource task="@ + dec(
            t.id.0 as nat,
        ) + " objective="@ + dec(t.objective_id.0 as nat) + " "@ + resource_name(resource)
            + " qty="@ + dec(quantity.0 as nat) + " node="@ + dec(node_id.0 as nat),
        TaskKind::DepositResource { storage_id } => "DepositResource task="@ + dec(t.id.0 as nat)
            + " objective="@ + dec(t.objective_id.0 as nat) + " storage="@ + dec(
            storage_id.0 as nat,
        ),
    }
}

/// The label of an assignment node.
pub open spec fn assignment_label(a: Assignment) -> Seq<char> {
    "Assignment assignment="@ + dec(a.id.0 as nat) + " task="@ + dec(a.task_id.0 as nat)
        + " worker="@ + dec(a.worker_id.0 as nat)
}

/// The text of an action.
pub open spec fn action_label(a: WorkerAction) -> Seq<char> {
    match a {
        WorkerAction::Move { worker_id, to } => "Move worker="@ + dec(worker_id.0 as nat)
            + " to=("@ + signed_dec(to.x as int) + ", "@ + signed_dec(to.y as int) + ")"@,
        WorkerAction::Mine { worker_id, node_id, quantity } => "Mine worker="@ + dec(
            worker_id.0 as nat,
        ) + " node="@ + dec(node_id.0 as nat) + " qty="@ + dec(quantity.0 as nat),
        WorkerAction::Deposit { worker_id, storage_id } => "Deposit worker="@ + dec(
            worker_id.0 as nat,
        ) + " storage="@ + dec(storage_id.0 as nat),
        WorkerAction::Recharge { worker_id, amount } => "Recharge worker="@ + dec(
            worker_id.0 as nat,
        ) + " amount="@ + dec(amount.0 as nat),
        WorkerAction::Wait { worker_id } => "Wait worker="@ + dec(worker_id.0 as nat),
        WorkerAction::DisableWorker { worker_id } => "DisableWorker worker="@ + dec(
            worker_id.0 as nat,
        ),
        WorkerAction::RepairWorker { worker_id } => "RepairWorker worker="@ + dec(
            worker_id.0 as nat,
        ),
    }
}

/// The name of a block reason.
pub open spec fn block_reason_name(r: ScheduleBlockReason) -> Seq<char> {
    match r {
        ScheduleBlockReason::UnknownWorker => "UnknownWorker"@,
        ScheduleBlockReason::UnknownTask => "UnknownTask"@,
        ScheduleBlockReason::UnknownResourceNode => "UnknownResourceNode"@,
        ScheduleBlockReason::UnknownStorage => "UnknownStorage"@,
        ScheduleBlockReason::WorkerDisabled => "WorkerDisabled"@,
        ScheduleBlockReason::WorkerAlreadyCarrying => "WorkerAlreadyCarrying"@,
        ScheduleBlockReason::WorkerNotCarrying => "WorkerNotCarrying"@,
        ScheduleBlockReason::UnsupportedTask => "UnsupportedTask"@,
    }
}

/// The label of a scheduler node.
pub open spec fn schedule_outcome_label(o: ScheduleOutcome) -> Seq<char> {
    match o {
        ScheduleOutcome::Action { assignment_id, action } => "SchedulerEmitted assignment="@ + dec(
            assignment_id.0 as nat,
        ) + " action="@ + action_label(action),
        ScheduleOutcome::Complete { assignment_id } => "SchedulerEmitted assignment="@ + dec(
            assignment_id.0 as nat,
        ) + " complete"@,
        ScheduleOutcome::Blocked { assignment_id, reason } => "SchedulerEmitted assignment="@ + dec(
            assignment_id.0 as nat,
        ) + " blocked="@ + block_reason_name(reason),
    }
}

/// The short text of a policy error.
pub open spec fn policy_error_label(e: PolicyError) -> Seq<char> {
    match e {
        PolicyError::BatteryReserveViolation {
            worker_id,
            current,
            required_reserve,
            action_cost,
        } => "BatteryReserveViolation worker="@ + dec(worker_id.0 as nat) + " current="@ + dec(
            current.0 as nat,
        ) + " reserve="@ + dec(required_reserve.0 as nat) + " cost="@ + dec(action_cost.0 as nat),
        PolicyError::DisableWorkerNotAllowed { worker_id } => "DisableWorkerNotAllowed worker="@
            + dec(worker_id.0 as nat),
        PolicyError::RepairWorkerNotAllowed { worker_id } => "RepairWorkerNotAllowed worker="@
            + dec(worker_id.0 as nat),
        PolicyError::MineQuantityLimitExceeded { requested, maximum } =>
            "MineQuantityLimitExceeded requested="@ + dec(requested.0 as nat) + " maximum="@ + dec(
            maximum.0 as nat,
        ),
        PolicyError::UnknownWorker { worker_id } => "UnknownWorker worker="@ + dec(
            worker_id.0 as nat,
        ),
    }
}

/// The summary of a parsed proposal.
pub open spec fn proposal_summary(p: ParsedProposal) -> Seq<char> {
    match p.objective {
        ProposedObjective::MaintainStockpile { resource, minimum } => "MaintainStockpile "@
            + resource_name(resource) + " >= "@ + dec(minimum.0 as nat) + " worker="@ + dec(
            p.worker_id.0 as nat,
        ) + " node="@ + dec(p.resource_node_id.0 as nat) + " storage="@ + dec(
            p.storage_id.0 as nat,
        ) + " qty="@ + dec(p.mine_quantity.0 as nat),
    }
}

/// Appends the label of an objective node.
pub fn push_objective_label(out: &mut String, o: &Objective)
    ensures
        final(out)@ == old(out)@ + objective_label(*o),
{
    match o.kind {
        ObjectiveKind::MaintainStockpile { resource, minimum } => {
            out.append("MaintainStockpile ");
            push_resource_name(out, resource);
            out.append(" >= ");
            push_u64(out, minimum.0);
            out.append(" objective=");
            push_u64(out, o.id.0);
        },
    }
    assert(final(out)@ =~= old(out)@ + objective_label(*o));
}

/// Appends the label of a decision node.
pub fn push_decision_label(out: &mut String, d: &Decision)
    ensures
        final(out)@ == old(out)@ + decision_label(*d),
{
    match d.kind {
        DecisionKind::CreateTask { task_id } => {
            out.append("CreateTask decision=");
            push_u64(out, d.id.0);
            out.append(" objective=");
            push_u64(out, d.objective_id.0);
            out.append(" task=");
            push_u64(out, task_id.0);
        },
    }
    assert(final(out)@ =~= old(out)@ + decision_label(*d));
}

/// Appends the label of a task node.
pub fn push_task_label(out: &mut String, t: &Task)
    ensures
        final(out)@ == old(out)@ + task_label(*t),
{
    match t.kind {
        TaskKind::MineResource { resource, quantity, node_id } => {
            out.append("MineResource task=");
            push_u64(out, t.id.0);
            out.append(" objective=");
            push_u64(out, t.objective_id.0);
            out.append(" ");
            push_resource_name(out, resource);
            out.append(" qty=");
            push_u64(out, quantity.0);
            out.append(" node=");
            push_u64(out, node_id.0);
        },
        TaskKind::DepositResource { storage_id } => {
            out.append("DepositResource task=");
            push_u64(out, t.id.0);
            out.append(" objective=");
            push_u64(out, t.objective_id.0);
            out.append(" storage=");
            push_u64(out, storage_id.0);
        },
    }
    assert(final(out)@ =~= old(out)@ + task_label(*t));
}

/// Appends the label of an assignment node.
pub fn push_assignment_label(out: &mut String, a: &Assignment)
    ensures
        final(out)@ == old(out)@ + assignment_label(*a),
{
    out.append("Assignment assignment=");
    push_u64(out, a.id.0);
    out.append(" task=");
    push_u64(out, a.task_id.0);
    out.append(" worker=");
    push_u64(out, a.worker_id.0);
    assert(final(out)@ =~= old(out)@ + assignment_label(*a));
}

/// Appends the text of an action.
pub fn push_action_label(out: &mut String, a: &WorkerAction)
    ensures
        final(out)@ == old(out)@ + action_label(*a),
{
    match *a {
        WorkerAction::Move { worker_id, to } => {
            out.append("Move worker=");
            push_u64(out, worker_id.0);
            out.append(" to=(");
            push_i32(out, to.x);
            out.append(", ");
            push_i32(out, to.y);
            out.append(")");
        },
        WorkerAction::Mine { worker_id, node_id, quantity } => {
            out.append("Mine worker=");
            push_u64(out, worker_id.0);
            out.append(" node=");
            push_u64(out, node_id.0);
            out.append(" qty=");
            push_u64(out, quantity.0);
        },
        WorkerAction::Deposit { worker_id, storage_id } => {
            out.append("Deposit worker=");
            push_u64(out, worker_id.0);
            out.append(" storage=");
            push_u64(out, storage_id.0);
        },
        WorkerAction::Recharge { worker_id, amount } => {
            out.append("Recharge worker=");
            push_u64(out, worker_id.0);
            out.append(" amount=");
            push_u64(out, amount.0);
        },
        WorkerAction::Wait { worker_id } => {
            out.append("Wait worker=");
            push_u64(out, worker_id.0);
        },
        WorkerAction::DisableWorker { worker_id } => {
            out.append("DisableWorker worker=");
            push_u64(out, worker_id.0);
        },
        WorkerAction::RepairWorker { worker_id } => {
            out.append("RepairWorker worker=");
            push_u64(out, worker_id.0);
        },
    }
    assert(final(out)@ =~= old(out)@ + action_label(*a));
}

fn push_block_reason(out: &mut String, r: ScheduleBlockReason)
    ensures
        final(out)@ == old(out)@ + block_reason_name(r),
{
    match r {
        ScheduleBlockReason::UnknownWorker => out.append("UnknownWorker"),
        ScheduleBlockReason::UnknownTask => out.append("UnknownTask"),
        ScheduleBlockReason::UnknownResourceNode => out.append("UnknownResourceNode"),
        ScheduleBlockReason::UnknownStorage => out.append("UnknownStorage"),
        ScheduleBlockReason::WorkerDisabled => out.append("WorkerDisabled"),
        ScheduleBlockReason::WorkerAlreadyCarrying => out.append("WorkerAlreadyCarrying"),
        ScheduleBlockReason::WorkerNotCarrying => out.append("WorkerNotCarrying"),
        ScheduleBlockReason::UnsupportedTask => out.append("UnsupportedTask"),
    }
}

/// Appends the label of a scheduler node.
pub fn push_schedule_outcome_label(out: &mut String, o: &ScheduleOutcome)
    ensures
        final(out)@ == old(out)@ + schedule_outcome_label(*o),
{
    match *o {
        ScheduleOutcome::Action { assignment_id, action } => {
            out.append("SchedulerEmitted assignment=");
            push_u64(out, assignment_id.0);
            out.append(" action=");
            push_action_label(out, &action);
        },
        ScheduleOutcome::Complete { assignment_id } => {
            out.append("SchedulerEmitted assignment=");
            push_u64(out, assignment_id.0);
            out.append(" complete");
        },
        ScheduleOutcome::Blocked { assignment_id, reason } => {
            out.append("SchedulerEmitted assignment=");
            push_u64(out, assignment_id.0);
            out.append(" blocked=");
            push_block_reason(out, reason);
        },
    }
    assert(final(out)@ =~= old(out)@ + schedule_outcome_label(*o));
}

/// Appends the short text of a policy error.
pub fn push_policy_error_label(out: &mut String, e: &PolicyError)
    ensures
        final(out)@ == old(out)@ + policy_error_label(*e),
{
    match *e {
        PolicyError::BatteryReserveViolation {
            worker_id,
            current,
            required_reserve,
            action_cost,
        } => {
            out.append("BatteryReserveViolation worker=");
            push_u64(out, worker_id.0);
            out.append(" current=");
            push_u64(out, current.0);
            out.append(" reserve=");
            push_u64(out, required_reserve.0);
            out.append(" cost=");
            push_u64(out, action_cost.0);
        },
        PolicyError::DisableWorkerNotAllowed { worker_id } => {
            out.append("DisableWorkerNotAllowed worker=");
            push_u64(out, worker_id.0);
        },
        PolicyError::RepairWorkerNotAllowed { worker_id } => {
            out.append("RepairWorkerNotAllowed worker=");
            push_u64(out, worker_id.0);
        },
        PolicyError::MineQuantityLimitExceeded { requested, maximum } => {
            out.append("MineQuantityLimitExceeded requested=");
            push_u64(out, requested.0);
            out.append(" maximum=");
            push_u64(out, maximum.0);
        },
        PolicyError::UnknownWorker { worker_id } => {
            out.append("UnknownWorker worker=");
            push_u64(out, worker_id.0);
        },
    }
    assert(final(out)@ =~= old(out)@ + policy_error_label(*e));
}

/// Appends the summary of a parsed proposal.
pub fn push_proposal_summary(out: &mut String, p: &ParsedProposal)
    ensures
        final(out)@ == old(out)@ + proposal_summary(*p),
{
    match p.objective {
        ProposedObjective::MaintainStockpile { resource, minimum } => {
            out.append("MaintainStockpile ");
            push_resource_name(out, resource);
            out.append(" >= ");
            push_u64(out, minimum.0);
            out.append(" worker=");
            push_u64(out, p.worker_id.0);
            out.append(" node=");
            push_u64(out, p.resource_node_id.0);
            out.append(" storage=");
            push_u64(out, p.storage_id.0);
            out.append(" qty=");
            push_u64(out, p.mine_quantity.0);
        },
    }
    assert(final(out)@ =~= old(out)@ + proposal_summary(*p));
}

/// Appends the message of a reducer error.
pub fn push_sim_error(out: &mut String, e: &SimError)
    ensures
        final(out)@ == old(out)@ + sim_error_text(*e),
{
    e.push_message(out);
}

/// Appends the message of a proposal rejection.
pub fn push_rejection(out: &mut String, r: &ProposalRejection)
    ensures
        final(out)@ == old(out)@ + rejection_text(*r),
{
    r.push_message(out);
}

} // verus!
