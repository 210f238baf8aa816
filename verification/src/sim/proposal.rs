use vstd::prelude::*;
use vstd::string::StringExecFns;

use crate::ordered_map::has_key;
use crate::primitives::ids::{AssignmentId, DecisionId, ObjectiveId, ResourceNodeId, StorageId, TaskId, WorkerId};
use crate::primitives::quantity::Quantity;
use crate::scan::{
    chars_of, contains_char, find_char, first_index, lines, parse_u64_range, parse_u64_spec,
    range_equals, strip_cr, trim, trim_bounds,
};
use crate::sim::assignment::Assignment;
use crate::sim::entity::ResourceKind;
use crate::sim::objective::{Objective, ObjectiveKind};
use crate::sim::task::{Decision, DecisionKind, Task, TaskKind};
use crate::sim::world::{WorldState, WorldStateView};
use crate::text::{dec, push_u64};

verus! {

/// Untrusted proposal input.
#[derive(Clone, Debug, PartialEq, Eq)]
pub struct ProposalText(pub String);

/// A proposal that parsed.
#[derive(Clone, Copy, Debug, PartialEq, Eq, Hash, Structural)]
pub struct ParsedProposal {
    pub objective: ProposedObjective,
    pub worker_id: WorkerId,
    pub resource_node_id: ResourceNodeId,
    pub storage_id: StorageId,
    pub mine_quantity: Quantity,
}

/// The objective a proposal asks for.
#[derive(Clone, Copy, Debug, PartialEq, Eq, Hash, Structural)]
pub enum ProposedObjective {
    MaintainStockpile { resource: ResourceKind, minimum: Quantity },
}

impl ProposedObjective {
    /// The resource the objective is about.
    pub fn resource(&self) -> (r: ResourceKind)
        ensures
            r == self->resource,
    {
        match *self {
            ProposedObjective::MaintainStockpile { resource, .. } => resource,
        }
    }

    /// The stockpile minimum the objective asks for.
    pub fn minimum(&self) -> (r: Quantity)
        ensures
            r == self->minimum,
    {
        match *self {
            ProposedObjective::MaintainStockpile { minimum, .. } => minimum,
        }
    }
}

/// Why proposal text did not parse.
#[derive(Clone, Debug, PartialEq, Eq)]
pub enum ProposalError {
    EmptyInput,
    MalformedLine(String),
    UnknownKey(String),
    DuplicateKey(String),
    MissingKey(&'static str),
    InvalidInteger { key: &'static str, value: String },
    UnsupportedObjective(String),
    UnsupportedResource(String),
    InvalidQuantity { key: &'static str },
}

/// The value of a [`ProposalError`], its texts as character sequences.
pub enum ProposalErrorView {
    EmptyInput,
    MalformedLine(Seq<char>),
    UnknownKey(Seq<char>),
    DuplicateKey(Seq<char>),
    MissingKey(Seq<char>),
    InvalidInteger { key: Seq<char>, value: Seq<char> },
    UnsupportedObjective(Seq<char>),
    UnsupportedResource(Seq<char>),
    InvalidQuantity { key: Seq<char> },
}

impl View for ProposalError {
    type V = ProposalErrorView;

    open spec fn view(&self) -> ProposalErrorView {
        match self {
            ProposalError::EmptyInput => ProposalErrorView::EmptyInput,
            ProposalError::MalformedLine(s) => ProposalErrorView::MalformedLine(s@),
            ProposalError::UnknownKey(s) => ProposalErrorView::UnknownKey(s@),
            ProposalError::DuplicateKey(s) => ProposalErrorView::DuplicateKey(s@),
            ProposalError::MissingKey(s) => ProposalErrorView::MissingKey(s@),
            ProposalError::InvalidInteger { key, value } => ProposalErrorView::InvalidInteger {
                key: key@,
                value: value@,
            },
            ProposalError::UnsupportedObjective(s) => ProposalErrorView::UnsupportedObjective(s@),
            ProposalError::UnsupportedResource(s) => ProposalErrorView::UnsupportedResource(s@),
            ProposalError::InvalidQuantity { key } => ProposalErrorView::InvalidQuantity { key: key@ },
        }
    }
}

impl ProposalError {
    /// A copy of the error.
    pub fn duplicate(&self) -> (r: Self)
        ensures
            r == *self,
    {
        match self {
            ProposalError::EmptyInput => ProposalError::EmptyInput,
            ProposalError::MalformedLine(s) => ProposalError::MalformedLine(s.clone()),
            ProposalError::UnknownKey(s) => ProposalError::UnknownKey(s.clone()),
            ProposalError::DuplicateKey(s) => ProposalError::DuplicateKey(s.clone()),
            ProposalError::MissingKey(s) => ProposalError::MissingKey(*s),
            ProposalError::InvalidInteger { key, value } => ProposalError::InvalidInteger {
                key: *key,
                value: value.clone(),
            },
            ProposalError::UnsupportedObjective(s) => ProposalError::UnsupportedObjective(s.clone()),
            ProposalError::UnsupportedResource(s) => ProposalError::UnsupportedResource(s.clone()),
            ProposalError::InvalidQuantity { key } => ProposalError::InvalidQuantity { key: *key },
        }
    }
}

/// Why a parsed proposal does not fit the world.
#[derive(Clone, Copy, Debug, PartialEq, Eq)]
pub enum ProposalValidationError {
    UnknownWorker { worker_id: WorkerId },
    UnknownResourceNode { node_id: ResourceNodeId },
    UnknownStorage { storage_id: StorageId },
    ResourceMismatch { expected: ResourceKind, actual: ResourceKind },
    InvalidQuantity { key: &'static str },
    InsufficientResource { node_id: ResourceNodeId, requested: Quantity, remaining: Quantity },
}

/// Why a proposal was rejected.
#[derive(Clone, Debug, PartialEq, Eq)]
pub enum ProposalRejection {
    Parse(ProposalError),
    Validation(ProposalValidationError),
}

impl ProposalRejection {
    /// A copy of the rejection.
    pub fn duplicate(&self) -> (r: Self)
        ensures
            r == *self,
    {
        match self {
            ProposalRejection::Parse(e) => ProposalRejection::Parse(e.duplicate()),
            ProposalRejection::Validation(e) => ProposalRejection::Validation(*e),
        }
    }
}

/// The identifiers to give the lifecycle records made from an accepted proposal.
#[derive(Clone, Copy, Debug, PartialEq, Eq, Hash, Structural)]
pub struct ProposalPlanIds {
    pub objective_id: ObjectiveId,
    pub decision_id: DecisionId,
    pub mine_task_id: TaskId,
    pub mine_assignment_id: AssignmentId,
    pub deposit_task_id: TaskId,
    pub deposit_assignment_id: AssignmentId,
}

/// The lifecycle records made from an accepted proposal.
#[derive(Clone, Copy, Debug, PartialEq, Eq, Hash, Structural)]
pub struct ProposalPlan {
    pub objective: Objective,
    pub decision: Decision,
    pub mine_task: Task,
    pub mine_assignment: Assignment,
    pub deposit_task: Task,
    pub deposit_assignment: Assignment,
}

/// The keys a proposal may hold, in their fixed order.
pub open spec fn key_names() -> Seq<Seq<char>> {
    seq![
        "objective"@,
        "resource"@,
        "minimum"@,
        "worker_id"@,
        "resource_node_id"@,
        "storage_id"@,
        "mine_quantity"@,
    ]
}

/// The position of `key` among the proposal keys.
pub open spec fn slot_of(key: Seq<char>) -> Option<int> {
    if key == "objective"@ {
        Some(0)
    } else if key == "resource"@ {
        Some(1)
    } else if key == "minimum"@ {
        Some(2)
    } else if key == "worker_id"@ {
        Some(3)
    } else if key == "resource_node_id"@ {
        Some(4)
    } else if key == "storage_id"@ {
        Some(5)
    } else if key == "mine_quantity"@ {
        Some(6)
    } else {
        None
    }
}

/// No key given yet.
pub open spec fn empty_slots() -> Seq<Option<Seq<char>>> {
    seq![None, None, None, None, None, None, None]
}

/// One line of proposal text: a `key=value` pair, both trimmed, for a known key not seen yet.
pub open spec fn spec_process_line(raw: Seq<char>, slots: Seq<Option<Seq<char>>>) -> Result<
    Seq<Option<Seq<char>>>,
    ProposalErrorView,
> {
    let line = trim(raw);
    if line.len() == 0 {
        Err(ProposalErrorView::MalformedLine(raw))
    } else if !contains_char(line, '=') {
        Err(ProposalErrorView::MalformedLine(raw))
    } else {
        let i = first_index(line, '=');
        let key = trim(line.subrange(0, i));
        let value = trim(line.subrange(i + 1, line.len() as int));
        match slot_of(key) {
            None => Err(ProposalErrorView::UnknownKey(key)),
            Some(k) => if slots[k] is Some {
                Err(ProposalErrorView::DuplicateKey(key_names()[k]))
            } else {
                Ok(slots.update(k, Some(value)))
            },
        }
    }
}

/// All lines, in order; the first bad line decides the error.
pub open spec fn spec_collect(ls: Seq<Seq<char>>, slots: Seq<Option<Seq<char>>>) -> Result<
    Seq<Option<Seq<char>>>,
    ProposalErrorView,
>
    decreases ls.len(),
{
    if ls.len() == 0 {
        Ok(slots)
    } else {
        match spec_process_line(ls[0], slots) {
            Err(e) => Err(e),
            Ok(next) => spec_collect(ls.drop_first(), next),
        }
    }
}

/// The value given for key `k`.
pub open spec fn spec_required(slots: Seq<Option<Seq<char>>>, k: int) -> Result<
    Seq<char>,
    ProposalErrorView,
> {
    match slots[k] {
        None => Err(ProposalErrorView::MissingKey(key_names()[k])),
        Some(v) => Ok(v),
    }
}

/// The integer given for key `k`.
pub open spec fn spec_number(slots: Seq<Option<Seq<char>>>, k: int) -> Result<u64, ProposalErrorView> {
    match spec_required(slots, k) {
        Err(e) => Err(e),
        Ok(v) => match parse_u64_spec(v) {
            None => Err(ProposalErrorView::InvalidInteger { key: key_names()[k], value: v }),
            Some(n) => Ok(n),
        },
    }
}

/// The positive integer given for key `k`.
pub open spec fn spec_positive(slots: Seq<Option<Seq<char>>>, k: int) -> Result<u64, ProposalErrorView> {
    match spec_number(slots, k) {
        Ok(n) => if n == 0 {
            Err(ProposalErrorView::InvalidQuantity { key: key_names()[k] })
        } else {
            Ok(n)
        },
        Err(e) => Err(e),
    }
}

/// The proposal the collected values spell, checked key by key in their fixed order.
pub open spec fn spec_finish(slots: Seq<Option<Seq<char>>>) -> Result<ParsedProposal, ProposalErrorView> {
    match spec_required(slots, 0) {
        Err(e) => Err(e),
        Ok(objective) => if objective != "maintain_stockpile"@ {
            Err(ProposalErrorView::UnsupportedObjective(objective))
        } else {
            match spec_required(slots, 1) {
                Err(e) => Err(e),
                Ok(resource) => if resource != "iron"@ {
                    Err(ProposalErrorView::UnsupportedResource(resource))
                } else {
                    match spec_positive(slots, 2) {
                        Err(e) => Err(e),
                        Ok(minimum) => match spec_number(slots, 3) {
                            Err(e) => Err(e),
                            Ok(worker) => match spec_number(slots, 4) {
                                Err(e) => Err(e),
                                Ok(node) => match spec_number(slots, 5) {
                                    Err(e) => Err(e),
                                    Ok(storage) => match spec_positive(slots, 6) {
                                        Err(e) => Err(e),
                                        Ok(mine) => Ok(
                                            ParsedProposal {
                                                objective: ProposedObjective::MaintainStockpile {
                                                    resource: ResourceKind::Iron,
                                                    minimum: Quantity(minimum),
                                                },
                                                worker_id: WorkerId(worker),
                                                resource_node_id: ResourceNodeId(node),
                                                storage_id: StorageId(storage),
                                                mine_quantity: Quantity(mine),
                                            },
                                        ),
                                    },
                                },
                            },
                        },
                    }
                },
            }
        },
    }
}

/// What proposal text parses to: blank text is empty input; otherwise every line must be a
/// `key=value` pair and the values must spell a supported proposal.
pub open spec fn spec_parse_proposal(input: Seq<char>) -> Result<ParsedProposal, ProposalErrorView> {
    if trim(input).len() == 0 {
        Err(ProposalErrorView::EmptyInput)
    } else {
        match spec_collect(lines(input), empty_slots()) {
            Err(e) => Err(e),
            Ok(slots) => spec_finish(slots),
        }
    }
}

/// A parse result agrees with the specified one.
pub open spec fn parse_result_is(
    r: Result<ParsedProposal, ProposalError>,
    expected: Result<ParsedProposal, ProposalErrorView>,
) -> bool {
    match (r, expected) {
        (Ok(p), Ok(q)) => p == q,
        (Err(e), Err(f)) => e@ == f,
        _ => false,
    }
}

/// The texts of the value ranges found so far.
pub open spec fn slot_texts(chars: Seq<char>, ranges: Seq<Option<(usize, usize)>>) -> Seq<
    Option<Seq<char>>,
> {
    Seq::new(
        ranges.len(),
        |i: int|
            match ranges[i] {
                Some((a, b)) => Some(chars.subrange(a as int, b as int)),
                None => None,
            },
    )
}

/// The ranges lie within `len` characters.
pub open spec fn ranges_within(ranges: Seq<Option<(usize, usize)>>, len: nat) -> bool {
    forall|i: int|
        0 <= i < ranges.len() ==> match #[trigger] ranges[i] {
            Some((a, b)) => a <= b <= len,
            None => true,
        }
}

fn key_name(k: usize) -> (r: &'static str)
    requires
        k < 7,
    ensures
        r@ == key_names()[k as int],
{
    if k == 0 {
        "objective"
    } else if k == 1 {
        "resource"
    } else if k == 2 {
        "minimum"
    } else if k == 3 {
        "worker_id"
    } else if k == 4 {
        "resource_node_id"
    } else if k == 5 {
        "storage_id"
    } else {
        "mine_quantity"
    }
}

fn key_slot(chars: &Vec<char>, a: usize, b: usize) -> (r: Option<usize>)
    requires
        a <= b <= chars@.len(),
    ensures
        match slot_of(chars@.subrange(a as int, b as int)) {
            Some(k) => r == Some(k as usize) && k < 7,
            None => r is None,
        },
{
    if range_equals(chars, a, b, "objective") {
        Some(0)
    } else if range_equals(chars, a, b, "resource") {
        Some(1)
    } else if range_equals(chars, a, b, "minimum") {
        Some(2)
    } else if range_equals(chars, a, b, "worker_id") {
        Some(3)
    } else if range_equals(chars, a, b, "resource_node_id") {
        Some(4)
    } else if range_equals(chars, a, b, "storage_id") {
        Some(5)
    } else if range_equals(chars, a, b, "mine_quantity") {
        Some(6)
    } else {
        None
    }
}

fn string_of(input: &str, a: usize, b: usize) -> (r: String)
    requires
        a <= b <= input@.len(),
    ensures
        r@ == input@.subrange(a as int, b as int),
{
    String::from_str(input.substring_char(a, b))
}

fn process_line(
    input: &str,
    chars: &Vec<char>,
    ls: usize,
    le: usize,
    slots: &mut Vec<Option<(usize, usize)>>,
) -> (r: Result<(), ProposalError>)
    requires
        chars@ == input@,
        ls <= le <= chars@.len(),
        old(slots)@.len() == 7,
        ranges_within(old(slots)@, chars@.len()),
    ensures
        final(slots)@.len() == 7,
        ranges_within(final(slots)@, chars@.len()),
        match spec_process_line(chars@.subrange(ls as int, le as int), slot_texts(chars@, old(slots)@)) {
            Ok(next) => r is Ok && slot_texts(chars@, final(slots)@) == next,
            Err(e) => r matches Err(x) && x@ == e,
        },
{
    let ghost raw = chars@.subrange(ls as int, le as int);
    let (a, b) = trim_bounds(chars, ls, le);
    let ghost line = chars@.subrange(a as int, b as int);
    if a == b {
        return Err(ProposalError::MalformedLine(string_of(input, ls, le)));
    }
    let j = match find_char(chars, a, b, '=') {
        Some(j) => j,
        None => {
            return Err(ProposalError::MalformedLine(string_of(input, ls, le)));
        },
    };
    assert(line.subrange(0, j - a) =~= chars@.subrange(a as int, j as int));
    assert(line.subrange(j - a + 1, line.len() as int) =~= chars@.subrange(j + 1, b as int));
    let (ka, kb) = trim_bounds(chars, a, j);
    let (va, vb) = trim_bounds(chars, j + 1, b);
    let k = match key_slot(chars, ka, kb) {
        Some(k) => k,
        None => {
            return Err(ProposalError::UnknownKey(string_of(input, ka, kb)));
        },
    };
    let ghost texts = slot_texts(chars@, slots@);
    assert(texts[k as int] is Some <==> slots@[k as int] is Some);
    if slots[k].is_some() {
        return Err(ProposalError::DuplicateKey(String::from_str(key_name(k))));
    }
    slots.set(k, Some((va, vb)));
    assert(slot_texts(chars@, slots@) =~= texts.update(
        k as int,
        Some(chars@.subrange(va as int, vb as int)),
    ));
    Ok(())
}

fn required_range(slots: &Vec<Option<(usize, usize)>>, k: usize, ghost_chars: Ghost<Seq<char>>) -> (r:
    Result<(usize, usize), ProposalError>)
    requires
        slots@.len() == 7,
        k < 7,
        ranges_within(slots@, ghost_chars@.len()),
    ensures
        match spec_required(slot_texts(ghost_chars@, slots@), k as int) {
            Ok(v) => r matches Ok((a, b)) && a <= b <= ghost_chars@.len() && ghost_chars@.subrange(
                a as int,
                b as int,
            ) == v,
            Err(e) => r matches Err(x) && x@ == e,
        },
{
    match slots[k] {
        Some((a, b)) => {
            assert(ranges_within(slots@, ghost_chars@.len()));
            assert(slots@[k as int] == Some((a, b)));
            Ok((a, b))
        },
        None => Err(ProposalError::MissingKey(key_name(k))),
    }
}

fn number_value(input: &str, chars: &Vec<char>, slots: &Vec<Option<(usize, usize)>>, k: usize) -> (r:
    Result<u64, ProposalError>)
    requires
        chars@ == input@,
        slots@.len() == 7,
        k < 7,
        ranges_within(slots@, chars@.len()),
    ensures
        match spec_number(slot_texts(chars@, slots@), k as int) {
            Ok(n) => r == Ok::<u64, ProposalError>(n),
            Err(e) => r matches Err(x) && x@ == e,
        },
{
    let (a, b) = required_range(slots, k, Ghost(chars@))?;
    match parse_u64_range(chars, a, b) {
        Some(n) => Ok(n),
        None => Err(ProposalError::InvalidInteger { key: key_name(k), value: string_of(input, a, b) }),
    }
}

fn positive_value(input: &str, chars: &Vec<char>, slots: &Vec<Option<(usize, usize)>>, k: usize) -> (r:
    Result<u64, ProposalError>)
    requires
        chars@ == input@,
        slots@.len() == 7,
        k < 7,
        ranges_within(slots@, chars@.len()),
    ensures
        match spec_positive(slot_texts(chars@, slots@), k as int) {
            Ok(n) => r == Ok::<u64, ProposalError>(n),
            Err(e) => r matches Err(x) && x@ == e,
        },
{
    let n = number_value(input, chars, slots, k)?;
    if n == 0 {
        return Err(ProposalError::InvalidQuantity { key: key_name(k) });
    }
    Ok(n)
}

/// Parses the constrained `key=value` line format into a proposal.
pub fn parse_proposal_text(input: &str) -> (r: Result<ParsedProposal, ProposalError>)
    ensures
        parse_result_is(r, spec_parse_proposal(input@)),
{
    let chars = chars_of(input);
    let n = chars.len();
    assert(chars@.subrange(0, n as int) =~= input@);
    let (lo, hi) = trim_bounds(&chars, 0, n);
    if lo == hi {
        return Err(ProposalError::EmptyInput);
    }
    let mut slots: Vec<Option<(usize, usize)>> = vec![None, None, None, None, None, None, None];
    assert(slot_texts(chars@, slots@) =~= empty_slots());
    let mut pos: usize = 0;
    assert(trim(input@).len() > 0);
    while pos < n
        invariant
            chars@ == input@,
            trim(input@).len() > 0,
            n == chars@.len(),
            0 <= pos <= n,
            slots@.len() == 7,
            ranges_within(slots@, chars@.len()),
            spec_collect(lines(input@), empty_slots()) == spec_collect(
                lines(chars@.subrange(pos as int, n as int)),
                slot_texts(chars@, slots@),
            ),
        decreases n - pos,
    {
        let ghost rest = chars@.subrange(pos as int, n as int);
        let ghost before = slot_texts(chars@, slots@);
        match find_char(&chars, pos, n, '\n') {
            Some(j) => {
                let le = if j > pos && chars[j - 1] == '\r' {
                    j - 1
                } else {
                    j
                };
                assert(rest.subrange(0, j - pos) =~= chars@.subrange(pos as int, j as int));
                assert(rest.subrange(j - pos + 1, rest.len() as int) =~= chars@.subrange(
                    j + 1,
                    n as int,
                ));
                assert(strip_cr(chars@.subrange(pos as int, j as int)) =~= chars@.subrange(
                    pos as int,
                    le as int,
                ));
                let ghost ls = lines(rest);
                assert(ls[0] == chars@.subrange(pos as int, le as int));
                assert(ls.drop_first() =~= lines(chars@.subrange(j + 1, n as int)));
                process_line(input, &chars, pos, le, &mut slots)?;
                pos = j + 1;
            },
            None => {
                let ghost ls = lines(rest);
                assert(ls[0] == rest);
                assert(ls.drop_first() =~= Seq::<Seq<char>>::empty());
                process_line(input, &chars, pos, n, &mut slots)?;
                pos = n;
                assert(lines(chars@.subrange(pos as int, n as int)) =~= Seq::<Seq<char>>::empty());
            },
        }
    }
    assert(lines(chars@.subrange(pos as int, n as int)) =~= Seq::<Seq<char>>::empty());
    let (oa, ob) = required_range(&slots, 0, Ghost(chars@))?;
    if !range_equals(&chars, oa, ob, "maintain_stockpile") {
        return Err(ProposalError::UnsupportedObjective(string_of(input, oa, ob)));
    }
    let (ra, rb) = required_range(&slots, 1, Ghost(chars@))?;
    if !range_equals(&chars, ra, rb, "iron") {
        return Err(ProposalError::UnsupportedResource(string_of(input, ra, rb)));
    }
    let minimum = positive_value(input, &chars, &slots, 2)?;
    let worker = number_value(input, &chars, &slots, 3)?;
    let node = number_value(input, &chars, &slots, 4)?;
    let storage = number_value(input, &chars, &slots, 5)?;
    let mine = positive_value(input, &chars, &slots, 6)?;
    Ok(
        ParsedProposal {
            objective: ProposedObjective::MaintainStockpile {
                resource: ResourceKind::Iron,
                minimum: Quantity::new(minimum),
            },
            worker_id: WorkerId::new(worker),
            resource_node_id: ResourceNodeId::new(node),
            storage_id: StorageId::new(storage),
            mine_quantity: Quantity::new(mine),
        },
    )
}

/// Whether a parsed proposal fits the world, and if not, why.
pub open spec fn spec_validate_proposal(p: ParsedProposal, s: WorldStateView) -> Result<
    (),
    ProposalValidationError,
> {
    if !has_key(s.workers, p.worker_id) {
        Err(ProposalValidationError::UnknownWorker { worker_id: p.worker_id })
    } else {
        match s.node(p.resource_node_id) {
            None => Err(ProposalValidationError::UnknownResourceNode { node_id: p.resource_node_id }),
            Some(node) => if !has_key(s.storage, p.storage_id) {
                Err(ProposalValidationError::UnknownStorage { storage_id: p.storage_id })
            } else if node.kind != p.objective->resource {
                Err(
                    ProposalValidationError::ResourceMismatch {
                        expected: p.objective->resource,
                        actual: node.kind,
                    },
                )
            } else if p.objective->minimum.0 == 0 {
                Err(ProposalValidationError::InvalidQuantity { key: "minimum" })
            } else if p.mine_quantity.0 == 0 {
                Err(ProposalValidationError::InvalidQuantity { key: "mine_quantity" })
            } else if node.remaining.0 < p.mine_quantity.0 {
                Err(
                    ProposalValidationError::InsufficientResource {
                        node_id: p.resource_node_id,
                        requested: p.mine_quantity,
                        remaining: node.remaining,
                    },
                )
            } else {
                Ok(())
            },
        }
    }
}

/// Checks the references and quantities of a parsed proposal against the world.
pub fn validate_proposal_against_world(proposal: &ParsedProposal, state: &WorldState) -> (r: Result<
    (),
    ProposalValidationError,
>)
    ensures
        r == spec_validate_proposal(*proposal, state@),
{
    if !state.workers.contains_key(&proposal.worker_id) {
        return Err(ProposalValidationError::UnknownWorker { worker_id: proposal.worker_id });
    }
    let node = match state.resource_nodes.get(&proposal.resource_node_id) {
        Some(n) => *n,
        None => {
            return Err(
                ProposalValidationError::UnknownResourceNode { node_id: proposal.resource_node_id },
            );
        },
    };
    if !state.storage.contains_key(&proposal.storage_id) {
        return Err(ProposalValidationError::UnknownStorage { storage_id: proposal.storage_id });
    }
    let expected_resource = proposal.objective.resource();
    if node.kind != expected_resource {
        return Err(
            ProposalValidationError::ResourceMismatch {
                expected: expected_resource,
                actual: node.kind,
            },
        );
    }
    if proposal.objective.minimum().0 == 0 {
        return Err(ProposalValidationError::InvalidQuantity { key: "minimum" });
    }
    if proposal.mine_quantity.0 == 0 {
        return Err(ProposalValidationError::InvalidQuantity { key: "mine_quantity" });
    }
    if node.remaining.0 < proposal.mine_quantity.0 {
        return Err(
            ProposalValidationError::InsufficientResource {
                node_id: proposal.resource_node_id,
                requested: proposal.mine_quantity,
                remaining: node.remaining,
            },
        );
    }
    Ok(())
}

/// The lifecycle records for an accepted proposal, under the given identifiers.
pub open spec fn spec_plan(p: ParsedProposal, ids: ProposalPlanIds) -> ProposalPlan {
    let resource = p.objective->resource;
    let minimum = p.objective->minimum;
    ProposalPlan {
        objective: Objective {
            id: ids.objective_id,
            kind: ObjectiveKind::MaintainStockpile { resource, minimum },
        },
        decision: Decision {
            id: ids.decision_id,
            objective_id: ids.objective_id,
            kind: DecisionKind::CreateTask { task_id: ids.mine_task_id },
        },
        mine_task: Task {
            id: ids.mine_task_id,
            objective_id: ids.objective_id,
            decision_id: Some(ids.decision_id),
            kind: TaskKind::MineResource {
                resource,
                quantity: p.mine_quantity,
                node_id: p.resource_node_id,
            },
        },
        mine_assignment: Assignment {
            id: ids.mine_assignment_id,
            task_id: ids.mine_task_id,
            worker_id: p.worker_id,
        },
        deposit_task: Task {
            id: ids.deposit_task_id,
            objective_id: ids.objective_id,
            decision_id: Some(ids.decision_id),
            kind: TaskKind::DepositResource { storage_id: p.storage_id },
        },
        deposit_assignment: Assignment {
            id: ids.deposit_assignment_id,
            task_id: ids.deposit_task_id,
            worker_id: p.worker_id,
        },
    }
}

/// Turns an accepted proposal into one objective, one decision, a mining task and a deposit
/// task with their assignments, all under the given identifiers.
pub fn accepted_proposal_to_plan(proposal: &ParsedProposal, ids: ProposalPlanIds) -> (r: ProposalPlan)
    ensures
        r == spec_plan(*proposal, ids),
{
    let resource = proposal.objective.resource();
    let minimum = proposal.objective.minimum();
    ProposalPlan {
        objective: Objective {
            id: ids.objective_id,
            kind: ObjectiveKind::MaintainStockpile { resource, minimum },
        },
        decision: Decision {
            id: ids.decision_id,
            objective_id: ids.objective_id,
            kind: DecisionKind::CreateTask { task_id: ids.mine_task_id },
        },
        mine_task: Task {
            id: ids.mine_task_id,
            objective_id: ids.objective_id,
            decision_id: Some(ids.decision_id),
            kind: TaskKind::MineResource {
                resource,
                quantity: proposal.mine_quantity,
                node_id: proposal.resource_node_id,
            },
        },
        mine_assignment: Assignment {
            id: ids.mine_assignment_id,
            task_id: ids.mine_task_id,
            worker_id: proposal.worker_id,
        },
        deposit_task: Task {
            id: ids.deposit_task_id,
            objective_id: ids.objective_id,
            decision_id: Some(ids.decision_id),
            kind: TaskKind::DepositResource { storage_id: proposal.storage_id },
        },
        deposit_assignment: Assignment {
            id: ids.deposit_assignment_id,
            task_id: ids.deposit_task_id,
            worker_id: proposal.worker_id,
        },
    }
}

/// The name of a resource kind.
pub open spec fn resource_name(kind: ResourceKind) -> Seq<char> {
    match kind {
        ResourceKind::Iron => "Iron"@,
    }
}

/// Appends the name of a resource kind.
pub fn push_resource_name(out: &mut String, kind: ResourceKind)
    ensures
        final(out)@ == old(out)@ + resource_name(kind),
{
    match kind {
        ResourceKind::Iron => out.append("Iron"),
    }
}

/// The human-readable message of a parse error.
pub open spec fn proposal_error_text(e: ProposalErrorView) -> Seq<char> {
    match e {
        ProposalErrorView::EmptyInput => "proposal input is empty"@,
        ProposalErrorView::MalformedLine(line) => "proposal line is malformed: "@ + line,
        ProposalErrorView::UnknownKey(key) => "proposal contains unknown key: "@ + key,
        ProposalErrorView::DuplicateKey(key) => "proposal contains duplicate key: "@ + key,
        ProposalErrorView::MissingKey(key) => "proposal is missing required key: "@ + key,
        ProposalErrorView::InvalidInteger { key, value } => "proposal key "@ + key
            + " has invalid integer value: "@ + value,
        ProposalErrorView::UnsupportedObjective(v) => "proposal objective is unsupported: "@ + v,
        ProposalErrorView::UnsupportedResource(v) => "proposal resource is unsupported: "@ + v,
        ProposalErrorView::InvalidQuantity { key } => "proposal key "@ + key
            + " must be greater than zero"@,
    }
}

/// The human-readable message of a validation error.
pub open spec fn validation_error_text(e: ProposalValidationError) -> Seq<char> {
    match e {
        ProposalValidationError::UnknownWorker { worker_id } => "proposal references unknown worker "@
            + dec(worker_id.0 as nat),
        ProposalValidationError::UnknownResourceNode { node_id } =>
            "proposal references unknown resource node "@ + dec(node_id.0 as nat),
        ProposalValidationError::UnknownStorage { storage_id } =>
            "proposal references unknown storage "@ + dec(storage_id.0 as nat),
        ProposalValidationError::ResourceMismatch { expected, actual } =>
            "proposal resource mismatch: expected "@ + resource_name(expected) + ", actual "@
            + resource_name(actual),
        ProposalValidationError::InvalidQuantity { key } => "proposal key "@ + key@
            + " must be greater than zero"@,
        ProposalValidationError::InsufficientResource { node_id, requested, remaining } =>
            "proposal requests "@ + dec(requested.0 as nat) + " from node "@ + dec(node_id.0 as nat)
            + " with "@ + dec(remaining.0 as nat) + " remaining"@,
    }
}

/// The human-readable message of a rejection.
pub open spec fn rejection_text(r: ProposalRejection) -> Seq<char> {
    match r {
        ProposalRejection::Parse(e) => "proposal parse rejected: "@ + proposal_error_text(e@),
        ProposalRejection::Validation(e) => "proposal validation rejected: "@
            + validation_error_text(e),
    }
}

impl ProposalError {
    /// Appends the message of the error.
    pub fn push_message(&self, out: &mut String)
        ensures
            final(out)@ == old(out)@ + proposal_error_text(self@),
    {
        match self {
            ProposalError::EmptyInput => {
                out.append("proposal input is empty");
            },
            ProposalError::MalformedLine(line) => {
                out.append("proposal line is malformed: ");
                out.append(line.as_str());
            },
            ProposalError::UnknownKey(key) => {
                out.append("proposal contains unknown key: ");
                out.append(key.as_str());
            },
            ProposalError::DuplicateKey(key) => {
                out.append("proposal contains duplicate key: ");
                out.append(key.as_str());
            },
            ProposalError::MissingKey(key) => {
                out.append("proposal is missing required key: ");
                out.append(key);
            },
            ProposalError::InvalidInteger { key, value } => {
                out.append("proposal key ");
                out.append(key);
                out.append(" has invalid integer value: ");
                out.append(value.as_str());
            },
            ProposalError::UnsupportedObjective(v) => {
                out.append("proposal objective is unsupported: ");
                out.append(v.as_str());
            },
            ProposalError::UnsupportedResource(v) => {
                out.append("proposal resource is unsupported: ");
                out.append(v.as_str());
            },
            ProposalError::InvalidQuantity { key } => {
                out.append("proposal key ");
                out.append(key);
                out.append(" must be greater than zero");
            },
        }
        assert(final(out)@ =~= old(out)@ + proposal_error_text(self@));
    }

    /// The message of the error.
    pub fn message(&self) -> (r: String)
        ensures
            r@ == proposal_error_text(self@),
    {
        let mut out = String::new();
        self.push_message(&mut out);
        assert(out@ =~= proposal_error_text(self@));
        out
    }
}

impl ProposalValidationError {
    /// Appends the message of the error.
    pub fn push_message(&self, out: &mut String)
        ensures
            final(out)@ == old(out)@ + validation_error_text(*self),
    {
        match *self {
            ProposalValidationError::UnknownWorker { worker_id } => {
                out.append("proposal references unknown worker ");
                push_u64(out, worker_id.0);
            },
            ProposalValidationError::UnknownResourceNode { node_id } => {
                out.append("proposal references unknown resource node ");
                push_u64(out, node_id.0);
            },
            ProposalValidationError::UnknownStorage { storage_id } => {
                out.append("proposal references unknown storage ");
                push_u64(out, storage_id.0);
            },
            ProposalValidationError::ResourceMismatch { expected, actual } => {
                out.append("proposal resource mismatch: expected ");
                push_resource_name(out, expected);
                out.append(", actual ");
                push_resource_name(out, actual);
            },
            ProposalValidationError::InvalidQuantity { key } => {
                out.append("proposal key ");
                out.append(key);
                out.append(" must be greater than zero");
            },
            ProposalValidationError::InsufficientResource { node_id, requested, remaining } => {
                out.append("proposal requests ");
                push_u64(out, requested.0);
                out.append(" from node ");
                push_u64(out, node_id.0);
                out.append(" with ");
                push_u64(out, remaining.0);
                out.append(" remaining");
            },
        }
        assert(final(out)@ =~= old(out)@ + validation_error_text(*self));
    }

    /// The message of the error.
    pub fn message(&self) -> (r: String)
        ensures
            r@ == validation_error_text(*self),
    {
        let mut out = String::new();
        self.push_message(&mut out);
        assert(out@ =~= validation_error_text(*self));
        out
    }
}

impl ProposalRejection {
    /// Appends the message of the rejection.
    pub fn push_message(&self, out: &mut String)
        ensures
            final(out)@ == old(out)@ + rejection_text(*self),
    {
        match self {
            ProposalRejection::Parse(e) => {
                out.append("proposal parse rejected: ");
                e.push_message(out);
            },
            ProposalRejection::Validation(e) => {
                out.append("proposal validation rejected: ");
                e.push_message(out);
            },
        }
        assert(final(out)@ =~= old(out)@ + rejection_text(*self));
    }

    /// The message of the rejection.
    pub fn message(&self) -> (r: String)
        ensures
            r@ == rejection_text(*self),
    {
        let mut out = String::new();
        self.push_message(&mut out);
        assert(out@ =~= rejection_text(*self));
        out
    }
}

} // verus!
