use vstd::prelude::*;
use vstd::string::StringExecFns;

use crate::primitives::ids::EventId;
use crate::replay::causal_graph::{
    CausalEdge, CausalEdgeKind, CausalGraph, CausalGraphView, CausalNodeKind, CausalNodeView,
};
use crate::text::{dec, push_u64};

verus! {

/// The name of a node kind.
pub open spec fn node_kind_text(kind: CausalNodeKind) -> Seq<char> {
    match kind {
        CausalNodeKind::Proposal => "Proposal"@,
        CausalNodeKind::ProposalAccepted => "ProposalAccepted"@,
        CausalNodeKind::ProposalRejected => "ProposalRejected"@,
        CausalNodeKind::Objective => "Objective"@,
        CausalNodeKind::Decision => "Decision"@,
        CausalNodeKind::Task => "Task"@,
        CausalNodeKind::Assignment => "Assignment"@,
        CausalNodeKind::Scheduler => "Scheduler"@,
        CausalNodeKind::Policy => "Policy"@,
        CausalNodeKind::Action => "Action"@,
        CausalNodeKind::StateTransition => "StateTransition"@,
        CausalNodeKind::Rejection => "Rejection"@,
        CausalNodeKind::Failure => "Failure"@,
        CausalNodeKind::Recovery => "Recovery"@,
        CausalNodeKind::ReplayVerification => "ReplayVerification"@,
    }
}

/// The name of an edge kind.
pub open spec fn edge_kind_text(kind: CausalEdgeKind) -> Seq<char> {
    match kind {
        CausalEdgeKind::Caused => "Caused"@,
        CausalEdgeKind::Emitted => "Emitted"@,
        CausalEdgeKind::Assigned => "Assigned"@,
        CausalEdgeKind::Scheduled => "Scheduled"@,
        CausalEdgeKind::AcceptedByPolicy => "AcceptedByPolicy"@,
        CausalEdgeKind::RejectedByPolicy => "RejectedByPolicy"@,
        CausalEdgeKind::RequestedAction => "RequestedAction"@,
        CausalEdgeKind::AppliedAction => "AppliedAction"@,
        CausalEdgeKind::RejectedAction => "RejectedAction"@,
        CausalEdgeKind::VerifiedByReplay => "VerifiedByReplay"@,
    }
}

/// The name of a node kind.
pub fn node_kind_name(kind: CausalNodeKind) -> (r: &'static str)
    ensures
        r@ == node_kind_text(kind),
{
    match kind {
        CausalNodeKind::Proposal => "Proposal",
        CausalNodeKind::ProposalAccepted => "ProposalAccepted",
        CausalNodeKind::ProposalRejected => "ProposalRejected",
        CausalNodeKind::Objective => "Objective",
        CausalNodeKind::Decision => "Decision",
        CausalNodeKind::Task => "Task",
        CausalNodeKind::Assignment => "Assignment",
        CausalNodeKind::Scheduler => "Scheduler",
        CausalNodeKind::Policy => "Policy",
        CausalNodeKind::Action => "Action",
        CausalNodeKind::StateTransition => "StateTransition",
        CausalNodeKind::Rejection => "Rejection",
        CausalNodeKind::Failure => "Failure",
        CausalNodeKind::Recovery => "Recovery",
        CausalNodeKind::ReplayVerification => "ReplayVerification",
    }
}

/// The name of an edge kind.
pub fn edge_kind_name(kind: CausalEdgeKind) -> (r: &'static str)
    ensures
        r@ == edge_kind_text(kind),
{
    match kind {
        CausalEdgeKind::Caused => "Caused",
        CausalEdgeKind::Emitted => "Emitted",
        CausalEdgeKind::Assigned => "Assigned",
        CausalEdgeKind::Scheduled => "Scheduled",
        CausalEdgeKind::AcceptedByPolicy => "AcceptedByPolicy",
        CausalEdgeKind::RejectedByPolicy => "RejectedByPolicy",
        CausalEdgeKind::RequestedAction => "RequestedAction",
        CausalEdgeKind::AppliedAction => "AppliedAction",
        CausalEdgeKind::RejectedAction => "RejectedAction",
        CausalEdgeKind::VerifiedByReplay => "VerifiedByReplay",
    }
}

/// The text of a node's event: its identifier, or `none`.
pub open spec fn event_text(event_id: Option<EventId>) -> Seq<char> {
    match event_id {
        Some(id) => dec(id.0 as nat),
        None => "none"@,
    }
}

/// One character inside a quoted label: backslashes and double quotes are escaped.
pub open spec fn quoted_char(c: char) -> Seq<char> {
    if c == '\\' {
        "\\\\"@
    } else if c == '"' {
        "\\\""@
    } else {
        seq![c]
    }
}

/// A label escaped for the quoted text format.
pub open spec fn escape_quoted(s: Seq<char>) -> Seq<char>
    decreases s.len(),
{
    if s.len() == 0 {
        Seq::empty()
    } else {
        escape_quoted(s.drop_last()) + quoted_char(s.last())
    }
}

/// One character of a field of the line format: backslashes, bars and line feeds are escaped.
pub open spec fn field_char(c: char) -> Seq<char> {
    if c == '\\' {
        "\\\\"@
    } else if c == '|' {
        "\\|"@
    } else if c == '\n' {
        "\\n"@
    } else {
        seq![c]
    }
}

/// A value escaped for a field of the line format.
pub open spec fn escape_field(s: Seq<char>) -> Seq<char>
    decreases s.len(),
{
    if s.len() == 0 {
        Seq::empty()
    } else {
        escape_field(s.drop_last()) + field_char(s.last())
    }
}

fn push_event_text(out: &mut String, event_id: Option<EventId>)
    ensures
        final(out)@ == old(out)@ + event_text(event_id),
{
    match event_id {
        Some(id) => push_u64(out, id.0),
        None => out.append("none"),
    }
}

/// Appends `s` escaped for the quoted text format.
pub fn push_escaped_quoted(out: &mut String, s: &str)
    ensures
        final(out)@ == old(out)@ + escape_quoted(s@),
{
    let n = s.unicode_len();
    let mut i: usize = 0;
    while i < n
        invariant
            n == s@.len(),
            0 <= i <= n,
            out@ == old(out)@ + escape_quoted(s@.subrange(0, i as int)),
        decreases n - i,
    {
        let c = s.get_char(i);
        let ghost before = out@;
        if c == '\\' {
            out.append("\\\\");
        } else if c == '"' {
            out.append("\\\"");
        } else {
            out.append(s.substring_char(i, i + 1));
            assert(s@.subrange(i as int, i + 1) =~= seq![c]);
        }
        proof {
            assert(s@.subrange(0, i + 1).drop_last() =~= s@.subrange(0, i as int));
            assert(s@.subrange(0, i + 1).last() == c);
        }
        i = i + 1;
        assert(out@ =~= old(out)@ + escape_quoted(s@.subrange(0, i as int)));
    }
    assert(s@.subrange(0, n as int) =~= s@);
}

/// Appends `s` escaped for a field of the line format.
pub fn push_escaped_field(out: &mut String, s: &str)
    ensures
        final(out)@ == old(out)@ + escape_field(s@),
{
    let n = s.unicode_len();
    let mut i: usize = 0;
    while i < n
        invariant
            n == s@.len(),
            0 <= i <= n,
            out@ == old(out)@ + escape_field(s@.subrange(0, i as int)),
        decreases n - i,
    {
        let c = s.get_char(i);
        if c == '\\' {
            out.append("\\\\");
        } else if c == '|' {
            out.append("\\|");
        } else if c == '\n' {
            out.append("\\n");
        } else {
            out.append(s.substring_char(i, i + 1));
            assert(s@.subrange(i as int, i + 1) =~= seq![c]);
        }
        proof {
            assert(s@.subrange(0, i + 1).drop_last() =~= s@.subrange(0, i as int));
            assert(s@.subrange(0, i + 1).last() == c);
        }
        i = i + 1;
        assert(out@ =~= old(out)@ + escape_field(s@.subrange(0, i as int)));
    }
    assert(s@.subrange(0, n as int) =~= s@);
}

/// The line of a node in the text format.
pub open spec fn node_text_line(n: CausalNodeView) -> Seq<char> {
    "- n"@ + dec(n.id.0 as nat) + " ["@ + node_kind_text(n.kind) + "] event="@ + event_text(
        n.event_id,
    ) + " label=\""@ + escape_quoted(n.label) + "\"\n"@
}

/// The line of an edge in the text format.
pub open spec fn edge_text_line(e: CausalEdge) -> Seq<char> {
    "- n"@ + dec(e.from.0 as nat) + " -> n"@ + dec(e.to.0 as nat) + " ["@ + edge_kind_text(e.kind)
        + "]\n"@
}

/// The lines of nodes in the text format.
pub open spec fn nodes_text(nodes: Seq<CausalNodeView>) -> Seq<char>
    decreases nodes.len(),
{
    if nodes.len() == 0 {
        Seq::empty()
    } else {
        nodes_text(nodes.drop_last()) + node_text_line(nodes.last())
    }
}

/// The lines of edges in the text format.
pub open spec fn edges_text(edges: Seq<CausalEdge>) -> Seq<char>
    decreases edges.len(),
{
    if edges.len() == 0 {
        Seq::empty()
    } else {
        edges_text(edges.drop_last()) + edge_text_line(edges.last())
    }
}

/// The text format of a graph: a heading, the nodes, then the edges.
pub open spec fn graph_text(g: CausalGraphView) -> Seq<char> {
    "# Causal Graph\n\nNodes:\n"@ + nodes_text(g.nodes) + "\nEdges:\n"@ + edges_text(g.edges)
}

/// The line of a node in the line format.
pub open spec fn node_field_line(n: CausalNodeView) -> Seq<char> {
    "node|"@ + dec(n.id.0 as nat) + "|"@ + node_kind_text(n.kind) + "|event="@ + event_text(
        n.event_id,
    ) + "|"@ + escape_field(n.label) + "\n"@
}

/// The line of an edge in the line format.
pub open spec fn edge_field_line(e: CausalEdge) -> Seq<char> {
    "edge|"@ + dec(e.from.0 as nat) + "|"@ + dec(e.to.0 as nat) + "|"@ + edge_kind_text(e.kind)
        + "\n"@
}

/// The lines of nodes in the line format.
pub open spec fn nodes_fields(nodes: Seq<CausalNodeView>) -> Seq<char>
    decreases nodes.len(),
{
    if nodes.len() == 0 {
        Seq::empty()
    } else {
        nodes_fields(nodes.drop_last()) + node_field_line(nodes.last())
    }
}

/// The lines of edges in the line format.
pub open spec fn edges_fields(edges: Seq<CausalEdge>) -> Seq<char>
    decreases edges.len(),
{
    if edges.len() == 0 {
        Seq::empty()
    } else {
        edges_fields(edges.drop_last()) + edge_field_line(edges.last())
    }
}

/// The line format of a graph: the node lines, then the edge lines.
pub open spec fn graph_lines(g: CausalGraphView) -> Seq<char> {
    nodes_fields(g.nodes) + edges_fields(g.edges)
}

/// Appends the text format of a graph.
pub fn push_graph_text(out: &mut String, graph: &CausalGraph)
    ensures
        final(out)@ == old(out)@ + graph_text(graph@),
{
    let ghost g = graph@;
    out.append("# Causal Graph\n\nNodes:\n");
    let ghost head = out@;
    let n = graph.nodes.len();
    let mut i: usize = 0;
    while i < n
        invariant
            g == graph@,
            n == g.nodes.len(),
            0 <= i <= n,
            out@ == head + nodes_text(g.nodes.subrange(0, i as int)),
        decreases n - i,
    {
        let node = &graph.nodes[i];
        assert(node@ == g.nodes[i as int]);
        out.append("- n");
        push_u64(out, node.id.0);
        out.append(" [");
        out.append(node_kind_name(node.kind));
        out.append("] event=");
        push_event_text(out, node.event_id);
        out.append(" label=\"");
        push_escaped_quoted(out, node.label.as_str());
        out.append("\"\n");
        proof {
            assert(g.nodes.subrange(0, i + 1).drop_last() =~= g.nodes.subrange(0, i as int));
        }
        i = i + 1;
        assert(out@ =~= head + nodes_text(g.nodes.subrange(0, i as int)));
    }
    assert(g.nodes.subrange(0, n as int) =~= g.nodes);
    out.append("\nEdges:\n");
    let ghost mid = out@;
    let m = graph.edges.len();
    let mut j: usize = 0;
    while j < m
        invariant
            g == graph@,
            m == g.edges.len(),
            0 <= j <= m,
            out@ == mid + edges_text(g.edges.subrange(0, j as int)),
        decreases m - j,
    {
        let edge = graph.edges[j];
        out.append("- n");
        push_u64(out, edge.from.0);
        out.append(" -> n");
        push_u64(out, edge.to.0);
        out.append(" [");
        out.append(edge_kind_name(edge.kind));
        out.append("]\n");
        proof {
            assert(g.edges.subrange(0, j + 1).drop_last() =~= g.edges.subrange(0, j as int));
        }
        j = j + 1;
        assert(out@ =~= mid + edges_text(g.edges.subrange(0, j as int)));
    }
    assert(g.edges.subrange(0, m as int) =~= g.edges);
    assert(out@ =~= old(out)@ + graph_text(g));
}

/// Appends the line format of a graph.
pub fn push_graph_lines(out: &mut String, graph: &CausalGraph)
    ensures
        final(out)@ == old(out)@ + graph_lines(graph@),
{
    let ghost g = graph@;
    let ghost head = out@;
    let n = graph.nodes.len();
    let mut i: usize = 0;
    while i < n
        invariant
            g == graph@,
            n == g.nodes.len(),
            0 <= i <= n,
            out@ == head + nodes_fields(g.nodes.subrange(0, i as int)),
        decreases n - i,
    {
        let node = &graph.nodes[i];
        assert(node@ == g.nodes[i as int]);
        out.append("node|");
        push_u64(out, node.id.0);
        out.append("|");
        out.append(node_kind_name(node.kind));
        out.append("|event=");
        push_event_text(out, node.event_id);
        out.append("|");
        push_escaped_field(out, node.label.as_str());
        out.append("\n");
        proof {
            assert(g.nodes.subrange(0, i + 1).drop_last() =~= g.nodes.subrange(0, i as int));
        }
        i = i + 1;
        assert(out@ =~= head + nodes_fields(g.nodes.subrange(0, i as int)));
    }
    assert(g.nodes.subrange(0, n as int) =~= g.nodes);
    let ghost mid = out@;
    let m = graph.edges.len();
    let mut j: usize = 0;
    while j < m
        invariant
            g == graph@,
            m == g.edges.len(),
            0 <= j <= m,
            out@ == mid + edges_fields(g.edges.subrange(0, j as int)),
        decreases m - j,
    {
        let edge = graph.edges[j];
        out.append("edge|");
        push_u64(out, edge.from.0);
        out.append("|");
        push_u64(out, edge.to.0);
        out.append("|");
        out.append(edge_kind_name(edge.kind));
        out.append("\n");
        proof {
            assert(g.edges.subrange(0, j + 1).drop_last() =~= g.edges.subrange(0, j as int));
        }
        j = j + 1;
        assert(out@ =~= mid + edges_fields(g.edges.subrange(0, j as int)));
    }
    assert(g.edges.subrange(0, m as int) =~= g.edges);
    assert(out@ =~= old(out)@ + graph_lines(g));
}

/// The human-readable text export of a graph.
pub fn export_causal_graph_text(graph: &CausalGraph) -> (r: String)
    ensures
        r@ == graph_text(graph@),
{
    let mut out = String::new();
    push_graph_text(&mut out, graph);
    assert(out@ =~= graph_text(graph@));
    out
}

/// The line-based export of a graph.
pub fn export_causal_graph_lines(graph: &CausalGraph) -> (r: String)
    ensures
        r@ == graph_lines(graph@),
{
    let mut out = String::new();
    push_graph_lines(&mut out, graph);
    assert(out@ =~= graph_lines(graph@));
    out
}

} // verus!
