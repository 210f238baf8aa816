use vstd::prelude::*;

use crate::scan::{contains_char, first_index, lines, parse_u64_spec, trim};
use crate::sim::proposal::{
    empty_slots, key_names, slot_of, spec_collect, spec_finish, spec_parse_proposal, spec_process_line,
    spec_required, ParsedProposal, ProposalErrorView, ProposedObjective,
};

verus! {

/// The key written on a `key=value` line: what stands before the first `=`, trimmed.
pub open spec fn line_key(raw: Seq<char>) -> Seq<char> {
    let l = trim(raw);
    trim(l.subrange(0, first_index(l, '=')))
}

/// The value written on a `key=value` line: what stands after the first `=`, trimmed.
pub open spec fn line_value(raw: Seq<char>) -> Seq<char> {
    let l = trim(raw);
    trim(l.subrange(first_index(l, '=') + 1, l.len() as int))
}

/// Some line of `ls` has key `key` and value `value`.
pub open spec fn line_says(ls: Seq<Seq<char>>, key: Seq<char>, value: Seq<char>) -> bool {
    exists|i: int| 0 <= i < ls.len() && line_key(#[trigger] ls[i]) == key && line_value(ls[i]) == value
}

/// Some line of `ls` has key `key` and a value that spells the integer `n`.
pub open spec fn line_gives(ls: Seq<Seq<char>>, key: Seq<char>, n: u64) -> bool {
    exists|i: int|
        0 <= i < ls.len() && line_key(#[trigger] ls[i]) == key && parse_u64_spec(line_value(ls[i]))
            == Some(n)
}

proof fn lemma_collect_sources(ls: Seq<Seq<char>>, slots: Seq<Option<Seq<char>>>)
    requires
        slots.len() == 7,
        spec_collect(ls, slots) is Ok,
    ensures
        ({
            let r = spec_collect(ls, slots)->Ok_0;
            &&& r.len() == 7
            &&& forall|k: int| 0 <= k < 7 && slots[k] is Some ==> r[k] == slots[k]
            &&& forall|i: int|
                0 <= i < ls.len() ==> {
                    &&& contains_char(trim(#[trigger] ls[i]), '=')
                    &&& slot_of(line_key(ls[i])) is Some
                    &&& slots[slot_of(line_key(ls[i]))->Some_0] is None
                    &&& r[slot_of(line_key(ls[i]))->Some_0] == Some(line_value(ls[i]))
                }
            &&& forall|i: int, j: int|
                0 <= i < j < ls.len() ==> line_key(#[trigger] ls[i]) != line_key(#[trigger] ls[j])
            &&& forall|k: int|
                0 <= k < 7 && (#[trigger] r[k]) is Some && slots[k] is None ==> exists|i: int|
                    0 <= i < ls.len() && slot_of(line_key(#[trigger] ls[i])) == Some(k)
        }),
    decreases ls.len(),
{
    let r = spec_collect(ls, slots)->Ok_0;
    if ls.len() == 0 {
    } else {
        let l0 = ls[0];
        let rest = ls.drop_first();
        let next = spec_process_line(l0, slots)->Ok_0;
        let k0 = slot_of(line_key(l0))->Some_0;
        assert(next == slots.update(k0, Some(line_value(l0))));
        lemma_collect_sources(rest, next);
        assert forall|i: int| 0 <= i < ls.len() implies {
            &&& contains_char(trim(#[trigger] ls[i]), '=')
            &&& slot_of(line_key(ls[i])) is Some
            &&& slots[slot_of(line_key(ls[i]))->Some_0] is None
            &&& r[slot_of(line_key(ls[i]))->Some_0] == Some(line_value(ls[i]))
        } by {
            if i > 0 {
                assert(ls[i] == rest[i - 1]);
            }
        }
        assert forall|i: int, j: int| 0 <= i < j < ls.len() implies line_key(#[trigger] ls[i])
            != line_key(#[trigger] ls[j]) by {
            assert(ls[j] == rest[j - 1]);
            if i > 0 {
                assert(ls[i] == rest[i - 1]);
            }
        }
        assert forall|k: int| 0 <= k < 7 && (#[trigger] r[k]) is Some && slots[k] is None implies exists|
            i: int,
        | 0 <= i < ls.len() && slot_of(line_key(#[trigger] ls[i])) == Some(k) by {
            if k == k0 {
                assert(slot_of(line_key(ls[0])) == Some(k));
            } else {
                assert(next[k] is None);
                let i = choose|i: int| 0 <= i < rest.len() && slot_of(line_key(#[trigger] rest[i])) == Some(k);
                assert(ls[i + 1] == rest[i]);
            }
        }
    }
}

proof fn lemma_key_names()
    ensures
        key_names()[0] == "objective"@,
        key_names()[1] == "resource"@,
        key_names()[2] == "minimum"@,
        key_names()[3] == "worker_id"@,
        key_names()[4] == "resource_node_id"@,
        key_names()[5] == "storage_id"@,
        key_names()[6] == "mine_quantity"@,
{
}

proof fn lemma_slot_names(key: Seq<char>)
    ensures
        slot_of(key) == Some(0int) ==> key == "objective"@,
        slot_of(key) == Some(1int) ==> key == "resource"@,
        slot_of(key) == Some(2int) ==> key == "minimum"@,
        slot_of(key) == Some(3int) ==> key == "worker_id"@,
        slot_of(key) == Some(4int) ==> key == "resource_node_id"@,
        slot_of(key) == Some(5int) ==> key == "storage_id"@,
        slot_of(key) == Some(6int) ==> key == "mine_quantity"@,
{
}

proof fn lemma_slot_line(ls: Seq<Seq<char>>, r: Seq<Option<Seq<char>>>, k: int)
    requires
        spec_collect(ls, empty_slots()) == Ok::<Seq<Option<Seq<char>>>, ProposalErrorView>(r),
        0 <= k < 7,
        r[k] is Some,
    ensures
        exists|i: int|
            0 <= i < ls.len() && line_key(#[trigger] ls[i]) == key_names()[k] && r[k] == Some(
                line_value(ls[i]),
            ),
{
    lemma_collect_sources(ls, empty_slots());
    let i = choose|i: int| 0 <= i < ls.len() && slot_of(line_key(#[trigger] ls[i])) == Some(k);
    assert(r[slot_of(line_key(ls[i]))->Some_0] == Some(line_value(ls[i])));
    lemma_slot_names(line_key(ls[i]));
    lemma_key_names();
}

proof fn lemma_finish_fields(r: Seq<Option<Seq<char>>>, p: ParsedProposal)
    requires
        r.len() == 7,
        spec_finish(r) == Ok::<ParsedProposal, ProposalErrorView>(p),
    ensures
        r[0] == Some("maintain_stockpile"@),
        r[1] == Some("iron"@),
        p.objective matches ProposedObjective::MaintainStockpile { minimum, .. } && r[2] is Some
            && parse_u64_spec(r[2]->Some_0) == Some(minimum.0) && minimum.0 > 0,
        r[3] is Some && parse_u64_spec(r[3]->Some_0) == Some(p.worker_id.0),
        r[4] is Some && parse_u64_spec(r[4]->Some_0) == Some(p.resource_node_id.0),
        r[5] is Some && parse_u64_spec(r[5]->Some_0) == Some(p.storage_id.0),
        r[6] is Some && parse_u64_spec(r[6]->Some_0) == Some(p.mine_quantity.0),
        p.mine_quantity.0 > 0,
{
}

proof fn lemma_number_line(ls: Seq<Seq<char>>, r: Seq<Option<Seq<char>>>, k: int, n: u64)
    requires
        spec_collect(ls, empty_slots()) == Ok::<Seq<Option<Seq<char>>>, ProposalErrorView>(r),
        0 <= k < 7,
        r[k] is Some,
        parse_u64_spec(r[k]->Some_0) == Some(n),
    ensures
        line_gives(ls, key_names()[k], n),
{
    lemma_slot_line(ls, r, k);
    let i = choose|i: int|
        0 <= i < ls.len() && line_key(#[trigger] ls[i]) == key_names()[k] && r[k] == Some(
            line_value(ls[i]),
        );
    assert(line_key(ls[i]) == key_names()[k] && parse_u64_spec(line_value(ls[i])) == Some(n));
}

proof fn lemma_word_line(ls: Seq<Seq<char>>, r: Seq<Option<Seq<char>>>, k: int, w: Seq<char>)
    requires
        spec_collect(ls, empty_slots()) == Ok::<Seq<Option<Seq<char>>>, ProposalErrorView>(r),
        0 <= k < 7,
        r[k] == Some(w),
    ensures
        line_says(ls, key_names()[k], w),
{
    lemma_slot_line(ls, r, k);
    let i = choose|i: int|
        0 <= i < ls.len() && line_key(#[trigger] ls[i]) == key_names()[k] && r[k] == Some(
            line_value(ls[i]),
        );
    assert(line_key(ls[i]) == key_names()[k] && line_value(ls[i]) == w);
}

/// Where a parsed proposal comes from. When proposal text parses, every line of it is a
/// `key=value` line for one of the seven proposal keys, no key is written twice, and each
/// field of the proposal is what the text writes on the line of its own key: the objective
/// line says `maintain_stockpile`, the resource line says `iron`, and the minimum, worker,
/// node, depot and mine quantity are the integers written after `minimum=`, `worker_id=`,
/// `resource_node_id=`, `storage_id=` and `mine_quantity=`; the minimum and the mine
/// quantity are positive.
pub proof fn lemma_parsed_fields_come_from_their_lines(text: Seq<char>)
    requires
        spec_parse_proposal(text) is Ok,
    ensures
        ({
            let p = spec_parse_proposal(text)->Ok_0;
            let ls = lines(text);
            &&& forall|i: int|
                0 <= i < ls.len() ==> contains_char(trim(#[trigger] ls[i]), '=')
                    && slot_of(line_key(ls[i])) is Some
            &&& forall|i: int, j: int|
                0 <= i < j < ls.len() ==> line_key(#[trigger] ls[i]) != line_key(#[trigger] ls[j])
            &&& line_says(ls, "objective"@, "maintain_stockpile"@)
            &&& line_says(ls, "resource"@, "iron"@)
            &&& p.objective matches ProposedObjective::MaintainStockpile { minimum, .. }
                && line_gives(ls, "minimum"@, minimum.0) && minimum.0 > 0
            &&& line_gives(ls, "worker_id"@, p.worker_id.0)
            &&& line_gives(ls, "resource_node_id"@, p.resource_node_id.0)
            &&& line_gives(ls, "storage_id"@, p.storage_id.0)
            &&& line_gives(ls, "mine_quantity"@, p.mine_quantity.0)
            &&& p.mine_quantity.0 > 0
        }),
{
    let ls = lines(text);
    let r = spec_collect(ls, empty_slots())->Ok_0;
    let p = spec_parse_proposal(text)->Ok_0;
    assert(spec_collect(ls, empty_slots()) == Ok::<Seq<Option<Seq<char>>>, ProposalErrorView>(r));
    assert(spec_finish(r) == Ok::<ParsedProposal, ProposalErrorView>(p));
    lemma_collect_sources(ls, empty_slots());
    lemma_finish_fields(r, p);
    lemma_key_names();
    let minimum = match p.objective {
        ProposedObjective::MaintainStockpile { minimum, .. } => minimum,
    };
    lemma_word_line(ls, r, 0, "maintain_stockpile"@);
    lemma_word_line(ls, r, 1, "iron"@);
    lemma_number_line(ls, r, 2, minimum.0);
    lemma_number_line(ls, r, 3, p.worker_id.0);
    lemma_number_line(ls, r, 4, p.resource_node_id.0);
    lemma_number_line(ls, r, 5, p.storage_id.0);
    lemma_number_line(ls, r, 6, p.mine_quantity.0);
}

} // verus!
