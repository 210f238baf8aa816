use vstd::prelude::*;
use vstd::string::StringExecFns;

use crate::primitives::ids::{ResourceNodeId, StorageId, WorkerId};
use crate::primitives::quantity::Quantity;
use crate::scan::{
    all_digits, contains_char, digits_value, first_at, first_index, is_ws, lines,
    parse_u64_spec, strip_cr, trim, trim_end, trim_start, unsigned_digits,
};
use crate::sim::entity::ResourceKind;
use crate::sim::proposal::{
    empty_slots, key_names, slot_of, spec_collect, spec_finish, spec_parse_proposal,
    spec_process_line, ParsedProposal, ProposalErrorView, ProposedObjective,
};

verus! {

/// No character of `s` is `c`.
pub open spec fn lacks(s: Seq<char>, c: char) -> bool {
    forall|k: int| 0 <= k < s.len() ==> s[k] != c
}

/// A word that stands as a key or a value on a proposal line as it is: not empty, without
/// white space at either end, and without line breaks or `=`.
pub open spec fn plain_word(w: Seq<char>) -> bool {
    &&& w.len() > 0
    &&& !is_ws(w[0])
    &&& !is_ws(w.last())
    &&& lacks(w, '\n')
    &&& lacks(w, '=')
    &&& w.last() != '\r'
}

/// The proposal line `key=value`.
pub open spec fn pair_line(key: Seq<char>, value: Seq<char>) -> Seq<char> {
    key + seq!['='] + value
}

/// Lines joined with line feeds.
pub open spec fn join_lines(ls: Seq<Seq<char>>) -> Seq<char>
    decreases ls.len(),
{
    if ls.len() == 0 {
        Seq::empty()
    } else if ls.len() == 1 {
        ls[0]
    } else {
        ls[0] + seq!['\n'] + join_lines(ls.drop_first())
    }
}

proof fn lemma_first_at_unique(s: Seq<char>, c: char, i: int)
    requires
        first_at(s, c, i),
    ensures
        contains_char(s, c),
        first_index(s, c) == i,
{
    assert(contains_char(s, c));
    let j = first_index(s, c);
    assert(first_at(s, c, j));
    if j < i {
        assert(s[j] != c);
    } else if i < j {
        assert(s[i] != c);
    }
}

proof fn lemma_trim_plain(s: Seq<char>)
    requires
        s.len() > 0,
        !is_ws(s[0]),
        !is_ws(s.last()),
    ensures
        trim(s) == s,
{
    assert(trim_start(s) == s);
    assert(trim_end(s) == s);
}

/// The lines of text that starts with a line without line feeds, then a line feed.
pub proof fn lemma_lines_cons(a: Seq<char>, b: Seq<char>)
    requires
        lacks(a, '\n'),
    ensures
        lines(a + seq!['\n'] + b) == seq![strip_cr(a)] + lines(b),
{
    let s = a + seq!['\n'] + b;
    assert(first_at(s, '\n', a.len() as int));
    lemma_first_at_unique(s, '\n', a.len() as int);
    assert(s.subrange(0, a.len() as int) =~= a);
    assert(s.subrange(a.len() + 1int, s.len() as int) =~= b);
}

/// Text without line feeds is one line.
pub proof fn lemma_lines_single(a: Seq<char>)
    requires
        a.len() > 0,
        lacks(a, '\n'),
    ensures
        lines(a) == seq![a],
{
    if contains_char(a, '\n') {
        let i = choose|i: int| #[trigger] first_at(a, '\n', i);
        assert(a[i] == '\n');
    }
}

/// Lines of plain pairs joined with line feeds split back into those lines.
pub proof fn lemma_lines_join(ls: Seq<Seq<char>>)
    requires
        ls.len() > 0,
        forall|i: int|
            0 <= i < ls.len() ==> {
                let l = #[trigger] ls[i];
                &&& l.len() > 0
                &&& lacks(l, '\n')
                &&& l.last() != '\r'
            },
    ensures
        lines(join_lines(ls)) == ls,
    decreases ls.len(),
{
    if ls.len() == 1 {
        lemma_lines_single(ls[0]);
        assert(seq![ls[0]] =~= ls);
    } else {
        let rest = ls.drop_first();
        assert forall|i: int| 0 <= i < rest.len() implies {
            let l = #[trigger] rest[i];
            &&& l.len() > 0
            &&& lacks(l, '\n')
            &&& l.last() != '\r'
        } by {
            assert(rest[i] == ls[i + 1]);
        }
        lemma_lines_join(rest);
        let l0 = ls[0];
        assert(lacks(l0, '\n'));
        lemma_lines_cons(l0, join_lines(rest));
        assert(strip_cr(l0) == l0);
        assert(seq![l0] + rest =~= ls);
    }
}

/// A line `key=value` of plain words stores `value` under `key`, unless the key is unknown
/// or already given.
pub proof fn lemma_pair_line(key: Seq<char>, value: Seq<char>, slots: Seq<Option<Seq<char>>>)
    requires
        plain_word(key),
        plain_word(value),
    ensures
        pair_line(key, value).len() > 0,
        lacks(pair_line(key, value), '\n'),
        pair_line(key, value).last() != '\r',
        spec_process_line(pair_line(key, value), slots) == match slot_of(key) {
            None => Err(ProposalErrorView::UnknownKey(key)),
            Some(k) => if slots[k] is Some {
                Err(ProposalErrorView::DuplicateKey(key_names()[k]))
            } else {
                Ok(slots.update(k, Some(value)))
            },
        },
{
    let line = pair_line(key, value);
    assert(line[0] == key[0]);
    assert(line.last() == value.last());
    lemma_trim_plain(line);
    assert(first_at(line, '=', key.len() as int));
    lemma_first_at_unique(line, '=', key.len() as int);
    assert(line.subrange(0, key.len() as int) =~= key);
    assert(line.subrange(key.len() + 1int, line.len() as int) =~= value);
    lemma_trim_plain(key);
    lemma_trim_plain(value);
    assert forall|k: int| 0 <= k < line.len() implies line[k] != '\n' by {
        if k < key.len() {
            assert(line[k] == key[k]);
        } else if k > key.len() {
            assert(line[k] == value[k - key.len() - 1]);
        }
    }
}

proof fn lemma_join_ends(ls: Seq<Seq<char>>)
    requires
        ls.len() > 0,
        forall|i: int| 0 <= i < ls.len() ==> (#[trigger] ls[i]).len() > 0,
    ensures
        join_lines(ls).len() > 0,
        join_lines(ls)[0] == ls[0][0],
        join_lines(ls).last() == ls.last().last(),
    decreases ls.len(),
{
    if ls.len() > 1 {
        let rest = ls.drop_first();
        assert forall|i: int| 0 <= i < rest.len() implies (#[trigger] rest[i]).len() > 0 by {
            assert(rest[i] == ls[i + 1]);
        }
        lemma_join_ends(rest);
        assert(rest.last() == ls.last());
    }
}

/// The lines of the adaptor proposal text that names `resource`: a stockpile of at least 10,
/// for the miner, the iron node and the depot, mined 10 at a time.
pub open spec fn adaptor_lines(resource: Seq<char>) -> Seq<Seq<char>> {
    seq![
        pair_line("objective"@, "maintain_stockpile"@),
        pair_line("resource"@, resource),
        pair_line("minimum"@, "10"@),
        pair_line("worker_id"@, "1"@),
        pair_line("resource_node_id"@, "1"@),
        pair_line("storage_id"@, "1"@),
        pair_line("mine_quantity"@, "10"@),
    ]
}

/// The adaptor proposal text that names `resource`.
pub open spec fn adaptor_text(resource: Seq<char>) -> Seq<char> {
    join_lines(adaptor_lines(resource))
}

/// The values the adaptor proposal text that names `resource` gives, by key.
pub open spec fn adaptor_slots(resource: Seq<char>) -> Seq<Option<Seq<char>>> {
    seq![
        Some("maintain_stockpile"@),
        Some(resource),
        Some("10"@),
        Some("1"@),
        Some("1"@),
        Some("1"@),
        Some("10"@),
    ]
}

proof fn lemma_adaptor_words()
    ensures
        plain_word("objective"@),
        plain_word("maintain_stockpile"@),
        plain_word("resource"@),
        plain_word("minimum"@),
        plain_word("10"@),
        plain_word("worker_id"@),
        plain_word("1"@),
        plain_word("resource_node_id"@),
        plain_word("storage_id"@),
        plain_word("mine_quantity"@),
        plain_word("iron"@),
        plain_word("copper"@),
        slot_of("objective"@) == Some(0int),
        slot_of("resource"@) == Some(1int),
        slot_of("minimum"@) == Some(2int),
        slot_of("worker_id"@) == Some(3int),
        slot_of("resource_node_id"@) == Some(4int),
        slot_of("storage_id"@) == Some(5int),
        slot_of("mine_quantity"@) == Some(6int),
        "copper"@ != "iron"@,
        parse_u64_spec("10"@) == Some(10u64),
        parse_u64_spec("1"@) == Some(1u64),
{
    reveal_strlit("objective");
    reveal_strlit("maintain_stockpile");
    reveal_strlit("resource");
    reveal_strlit("minimum");
    reveal_strlit("10");
    reveal_strlit("worker_id");
    reveal_strlit("1");
    reveal_strlit("resource_node_id");
    reveal_strlit("storage_id");
    reveal_strlit("mine_quantity");
    reveal_strlit("iron");
    reveal_strlit("copper");
    assert("worker_id"@[0] != "objective"@[0]);
    assert(unsigned_digits("10"@) == "10"@);
    assert(unsigned_digits("1"@) == "1"@);
    assert("10"@.drop_last() =~= "1"@);
    assert("1"@.drop_last() =~= Seq::<char>::empty());
    reveal_with_fuel(digits_value, 3);
    assert(digits_value("1"@) == 1);
    assert(digits_value("10"@) == 10);
}

proof fn lemma_adaptor_lines(resource: Seq<char>)
    requires
        plain_word(resource),
    ensures
        lines(adaptor_text(resource)) == adaptor_lines(resource),
        trim(adaptor_text(resource)) == adaptor_text(resource),
        adaptor_text(resource).len() > 0,
{
    lemma_adaptor_words();
    let ls = adaptor_lines(resource);
    let s0 = empty_slots();
    lemma_pair_line("objective"@, "maintain_stockpile"@, s0);
    lemma_pair_line("resource"@, resource, s0);
    lemma_pair_line("minimum"@, "10"@, s0);
    lemma_pair_line("worker_id"@, "1"@, s0);
    lemma_pair_line("resource_node_id"@, "1"@, s0);
    lemma_pair_line("storage_id"@, "1"@, s0);
    lemma_pair_line("mine_quantity"@, "10"@, s0);
    assert forall|i: int| 0 <= i < ls.len() implies {
        let l = #[trigger] ls[i];
        &&& l.len() > 0
        &&& lacks(l, '\n')
        &&& l.last() != '\r'
    } by {}
    lemma_lines_join(ls);
    lemma_join_ends(ls);
    assert(ls[0][0] == 'o') by {
        reveal_strlit("objective");
    }
    assert(ls.last().last() == '0') by {
        reveal_strlit("10");
    }
    lemma_trim_plain(adaptor_text(resource));
}

proof fn lemma_adaptor_collect(resource: Seq<char>)
    requires
        plain_word(resource),
    ensures
        spec_collect(adaptor_lines(resource), empty_slots()) == Ok::<
            Seq<Option<Seq<char>>>,
            ProposalErrorView,
        >(adaptor_slots(resource)),
{
    lemma_adaptor_words();
    let ls = adaptor_lines(resource);
    let s0 = empty_slots();
    let s1 = s0.update(0, Some("maintain_stockpile"@));
    let s2 = s1.update(1, Some(resource));
    let s3 = s2.update(2, Some("10"@));
    let s4 = s3.update(3, Some("1"@));
    let s5 = s4.update(4, Some("1"@));
    let s6 = s5.update(5, Some("1"@));
    let s7 = s6.update(6, Some("10"@));
    lemma_pair_line("objective"@, "maintain_stockpile"@, s0);
    lemma_pair_line("resource"@, resource, s1);
    lemma_pair_line("minimum"@, "10"@, s2);
    lemma_pair_line("worker_id"@, "1"@, s3);
    lemma_pair_line("resource_node_id"@, "1"@, s4);
    lemma_pair_line("storage_id"@, "1"@, s5);
    lemma_pair_line("mine_quantity"@, "10"@, s6);
    let t0 = ls;
    let t1 = ls.subrange(1, 7);
    let t2 = ls.subrange(2, 7);
    let t3 = ls.subrange(3, 7);
    let t4 = ls.subrange(4, 7);
    let t5 = ls.subrange(5, 7);
    let t6 = ls.subrange(6, 7);
    let t7 = ls.subrange(7, 7);
    assert(t0.drop_first() =~= t1);
    assert(t1.drop_first() =~= t2);
    assert(t2.drop_first() =~= t3);
    assert(t3.drop_first() =~= t4);
    assert(t4.drop_first() =~= t5);
    assert(t5.drop_first() =~= t6);
    assert(t6.drop_first() =~= t7);
    assert(spec_collect(t7, s7) == Ok::<Seq<Option<Seq<char>>>, ProposalErrorView>(s7));
    assert(spec_collect(t6, s6) == spec_collect(t7, s7));
    assert(spec_collect(t5, s5) == spec_collect(t6, s6));
    assert(spec_collect(t4, s4) == spec_collect(t5, s5));
    assert(spec_collect(t3, s3) == spec_collect(t4, s4));
    assert(spec_collect(t2, s2) == spec_collect(t3, s3));
    assert(spec_collect(t1, s1) == spec_collect(t2, s2));
    assert(spec_collect(t0, s0) == spec_collect(t1, s1));
    assert(s7 =~= adaptor_slots(resource));
}

/// The adaptor proposal text that names a plain word as its resource parses to the
/// proposal its values spell.
pub proof fn lemma_adaptor_text_parses(resource: Seq<char>)
    requires
        plain_word(resource),
    ensures
        spec_parse_proposal(adaptor_text(resource)) == spec_finish(adaptor_slots(resource)),
{
    lemma_adaptor_lines(resource);
    lemma_adaptor_collect(resource);
}

/// The proposal the valid adaptor text spells.
pub open spec fn adaptor_proposal() -> ParsedProposal {
    ParsedProposal {
        objective: ProposedObjective::MaintainStockpile {
            resource: ResourceKind::Iron,
            minimum: Quantity(10),
        },
        worker_id: WorkerId(1),
        resource_node_id: ResourceNodeId(1),
        storage_id: StorageId(1),
        mine_quantity: Quantity(10),
    }
}

/// The adaptor text naming iron parses to [`adaptor_proposal`]; the one naming copper is
/// refused for its resource.
pub proof fn lemma_adaptor_texts_parse()
    ensures
        spec_parse_proposal(adaptor_text("iron"@)) == Ok::<ParsedProposal, ProposalErrorView>(
            adaptor_proposal(),
        ),
        spec_parse_proposal(adaptor_text("copper"@)) == Err::<ParsedProposal, ProposalErrorView>(
            ProposalErrorView::UnsupportedResource("copper"@),
        ),
{
    lemma_adaptor_words();
    lemma_adaptor_text_parses("iron"@);
    lemma_adaptor_text_parses("copper"@);
}

proof fn lemma_join_step(ls: Seq<Seq<char>>, i: int)
    requires
        0 <= i < ls.len() - 1,
    ensures
        join_lines(ls.subrange(i, ls.len() as int)) == ls[i] + seq!['\n'] + join_lines(
            ls.subrange(i + 1, ls.len() as int),
        ),
{
    let t = ls.subrange(i, ls.len() as int);
    assert(t.drop_first() =~= ls.subrange(i + 1, ls.len() as int));
}

fn push_line(out: &mut String, key: &str, value: &str, newline: bool)
    ensures
        final(out)@ == old(out)@ + pair_line(key@, value@) + (if newline {
            seq!['\n']
        } else {
            Seq::<char>::empty()
        }),
{
    out.append(key);
    out.append("=");
    out.append(value);
    if newline {
        out.append("\n");
    }
    proof {
        reveal_strlit("=");
        reveal_strlit("\n");
    }
    assert(final(out)@ =~= old(out)@ + pair_line(key@, value@) + (if newline {
        seq!['\n']
    } else {
        Seq::<char>::empty()
    }));
}

/// Builds the adaptor proposal text that names `resource`.
pub fn adaptor_proposal_text(resource: &str) -> (r: String)
    ensures
        r@ == adaptor_text(resource@),
{
    let ghost ls = adaptor_lines(resource@);
    let ghost full = adaptor_text(resource@);
    let mut out = String::new();
    proof {
        assert(ls.subrange(0, 7) =~= ls);
        assert(out@ + join_lines(ls.subrange(0, 7)) =~= full);
    }
    push_line(&mut out, "objective", "maintain_stockpile", true);
    proof {
        lemma_join_step(ls, 0);
        assert(out@ + join_lines(ls.subrange(1, 7)) =~= full);
    }
    push_line(&mut out, "resource", resource, true);
    proof {
        lemma_join_step(ls, 1);
        assert(out@ + join_lines(ls.subrange(2, 7)) =~= full);
    }
    push_line(&mut out, "minimum", "10", true);
    proof {
        lemma_join_step(ls, 2);
        assert(out@ + join_lines(ls.subrange(3, 7)) =~= full);
    }
    push_line(&mut out, "worker_id", "1", true);
    proof {
        lemma_join_step(ls, 3);
        assert(out@ + join_lines(ls.subrange(4, 7)) =~= full);
    }
    push_line(&mut out, "resource_node_id", "1", true);
    proof {
        lemma_join_step(ls, 4);
        assert(out@ + join_lines(ls.subrange(5, 7)) =~= full);
    }
    push_line(&mut out, "storage_id", "1", true);
    proof {
        lemma_join_step(ls, 5);
        assert(out@ + join_lines(ls.subrange(6, 7)) =~= full);
    }
    push_line(&mut out, "mine_quantity", "10", false);
    proof {
        assert(ls.subrange(6, 7) =~= seq![ls[6]]);
        assert(join_lines(ls.subrange(6, 7)) == ls[6]);
        assert(out@ =~= full);
    }
    out
}

} // verus!
