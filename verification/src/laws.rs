//! Laws of construction and evaluation, proved of every graph.
use std::sync::Arc;

use vstd::prelude::*;

use crate::context::Fact;
use crate::error::GraphFault;
use crate::evaluation::{
    counts, follows, lemma_unvisited_positive, member_holds, value_holds, lemma_unvisited_update, reading, unvisited, EvaluationMode,
    NodeState, VerdictModel,
};
use crate::invariants::lemma_distinct;
use crate::model::{distinct, members_agree, GraphModel, Member, NodeKind};
use crate::types::{Edge, EdgeId, Metadata, NodeId, NodeValue, Relation, Strength, ValueNode};

verus! {

/// The domains that `resolve` returns are registered.
pub proof fn lemma_resolved_domains<V: ValueNode>(graph: GraphModel<V>, names: Seq<Seq<char>>)
    requires
        graph.wf(),
        graph.resolve(names) is Some,
    ensures
        forall|i: int|
            0 <= i < graph.resolve(names)->0.len() ==> ((#[trigger] graph.resolve(
                names,
            )->0[i]).0 as int) < graph.domains.len(),
{
    graph.lemma_found();
    assert forall|i: int| 0 <= i < graph.resolve(names)->0.len() implies ((
    #[trigger] graph.resolve(names)->0[i]).0 as int) < graph.domains.len() by {
        assert(graph.domain_named(names[i]) is Some);
    }
}

/// Making a value node keeps a well-formed graph well-formed.
pub proof fn lemma_make_value_node_wf<V: ValueNode>(
    graph: GraphModel<V>,
    value: NodeValue<V>,
    info: Option<Seq<char>>,
    domains: Seq<Seq<char>>,
    metadata: Option<Arc<dyn Metadata>>,
)
    requires
        graph.wf(),
        graph.nodes.len() < usize::MAX,
    ensures
        graph.make_value_node(value, info, domains, metadata).0.wf(),
{
    if graph.resolve(domains) is Some && graph.value_node(value) is None {
        lemma_resolved_domains(graph, domains);
        graph.lemma_add_node_wf(NodeKind::Value(value), graph.resolve(domains)->0, info, metadata);
    }
}

/// Making an edge keeps a well-formed graph well-formed.
pub proof fn lemma_make_edge_wf<V: ValueNode>(
    graph: GraphModel<V>,
    pred: NodeId,
    succ: NodeId,
    strength: Strength,
    relation: Relation,
)
    requires
        graph.wf(),
        graph.edges.len() < usize::MAX,
    ensures
        graph.make_edge(pred, succ, strength, relation).0.wf(),
{
    if graph.has_node(pred) && graph.has_node(succ) && graph.edge_between(pred, succ) is None {
        graph.lemma_add_edge_wf(Edge { strength, relation, pred, succ });
    }
}

/// A value has one node. Where making the value node of `value` succeeds, a
/// second call for the same value, with whatever label, attachment and
/// registered domains, returns the same id and leaves the graph as the first
/// call left it; and in that graph the returned node is the only one that
/// asserts the value.
pub proof fn law_value_node_is_unique<V: ValueNode>(
    graph: GraphModel<V>,
    value: NodeValue<V>,
    first_info: Option<Seq<char>>,
    first_domains: Seq<Seq<char>>,
    first_metadata: Option<Arc<dyn Metadata>>,
    second_info: Option<Seq<char>>,
    second_domains: Seq<Seq<char>>,
    second_metadata: Option<Arc<dyn Metadata>>,
)
    requires
        graph.wf(),
        graph.nodes.len() < usize::MAX,
        graph.make_value_node(value, first_info, first_domains, first_metadata).1 is Ok,
        graph.make_value_node(value, first_info, first_domains, first_metadata).0.resolve(
            second_domains,
        ) is Some,
    ensures
        ({
            let first = graph.make_value_node(value, first_info, first_domains, first_metadata);
            let second = first.0.make_value_node(
                value,
                second_info,
                second_domains,
                second_metadata,
            );
            &&& second.1 == first.1
            &&& second.0 == first.0
            &&& forall|n: int| first.0.asserts(n, value) <==> n == (first.1->Ok_0).0
        }),
{
    let first = graph.make_value_node(value, first_info, first_domains, first_metadata);
    let id = first.1->Ok_0;
    lemma_make_value_node_wf(graph, value, first_info, first_domains, first_metadata);
    graph.lemma_found();
    if graph.value_node(value) is None {
        lemma_resolved_domains(graph, first_domains);
        graph.lemma_add_node_others(
            NodeKind::Value(value),
            graph.resolve(first_domains)->0,
            first_info,
            first_metadata,
        );
    }
    first.0.lemma_found();
    assert(first.0.value_node(value) == Some(id));
    assert(first.0.asserts(id.0 as int, value));
}

/// Making an edge twice is making it once. Where making an edge succeeds, a
/// second call for the same pair with the same strength and relation returns
/// the same id and leaves the graph as the first call left it.
pub proof fn law_edge_is_idempotent<V: ValueNode>(
    graph: GraphModel<V>,
    pred: NodeId,
    succ: NodeId,
    strength: Strength,
    relation: Relation,
)
    requires
        graph.wf(),
        graph.edges.len() < usize::MAX,
        graph.make_edge(pred, succ, strength, relation).1 is Ok,
    ensures
        ({
            let first = graph.make_edge(pred, succ, strength, relation);
            let second = first.0.make_edge(pred, succ, strength, relation);
            second == first
        }),
{
    let first = graph.make_edge(pred, succ, strength, relation);
    graph.lemma_found();
    if graph.edge_between(pred, succ) is None {
        graph.lemma_add_edge_wf(Edge { strength, relation, pred, succ });
    }
}

/// An edge is never overwritten. Where making an edge succeeds, a call for the
/// same pair with another strength or another relation fails with
/// `ConflictingEdgeCreated` and leaves the graph as the first call left it.
pub proof fn law_edge_conflict<V: ValueNode>(
    graph: GraphModel<V>,
    pred: NodeId,
    succ: NodeId,
    strength: Strength,
    relation: Relation,
    other_strength: Strength,
    other_relation: Relation,
)
    requires
        graph.wf(),
        graph.edges.len() < usize::MAX,
        graph.make_edge(pred, succ, strength, relation).1 is Ok,
        other_strength != strength || other_relation != relation,
    ensures
        ({
            let first = graph.make_edge(pred, succ, strength, relation);
            let second = first.0.make_edge(pred, succ, other_strength, other_relation);
            &&& second.1 == Err::<EdgeId, GraphFault>(GraphFault::ConflictingEdgeCreated)
            &&& second.0 == first.0
        }),
{
    graph.lemma_found();
    if graph.edge_between(pred, succ) is None {
        graph.lemma_add_edge_wf(Edge { strength, relation, pred, succ });
    }
}

/// A name has one domain, and the first description stays. Registering a name
/// a second time, with whatever description, returns the id of the first
/// registration and leaves the graph as the first left it; the description
/// stored under that id is the one the name was first registered with.
pub proof fn law_domain_alias<V: ValueNode>(
    graph: GraphModel<V>,
    name: Seq<char>,
    first_description: Seq<char>,
    second_description: Seq<char>,
)
    requires
        graph.wf(),
        graph.domains.len() < usize::MAX,
    ensures
        ({
            let first = graph.make_domain(name, first_description);
            let second = first.0.make_domain(name, second_description);
            &&& second.1 == first.1
            &&& second.0 == first.0
            &&& first.0.names(first.1.0 as int, name)
            &&& second.0.domains[first.1.0 as int].description == if graph.domain_named(
                name,
            ) is Some {
                graph.domains[(graph.domain_named(name)->0).0 as int].description
            } else {
                first_description
            }
        }),
{
    graph.lemma_make_domain_wf(name, first_description);
    graph.lemma_found();
    graph.make_domain(name, first_description).0.lemma_found();
}

/// A failed call changes nothing. An edge from or to an id that addresses no
/// node fails with `NodeNotFound`, and the graph is the graph it was, so what
/// is made next is made as if the failed call had not been.
pub proof fn law_missing_node_is_reported<V: ValueNode>(
    graph: GraphModel<V>,
    pred: NodeId,
    succ: NodeId,
    strength: Strength,
    relation: Relation,
)
    requires
        !graph.has_node(pred) || !graph.has_node(succ),
    ensures
        graph.make_edge(pred, succ, strength, relation).1 == Err::<EdgeId, GraphFault>(
            GraphFault::NodeNotFound,
        ),
        graph.make_edge(pred, succ, strength, relation).0 == graph,
{
}

/// A cycle is an unmet dependency. A node that is met while it is in progress
/// keeps its state and the table, and the edge that met it reads unsatisfied
/// whatever its relation.
pub proof fn law_cycle_reads_unsatisfied<V: ValueNode>(
    graph: GraphModel<V>,
    facts: Seq<Fact<V>>,
    mode: EvaluationMode,
    fuel: nat,
    node: NodeId,
    memo: Seq<NodeState>,
    relation: Relation,
)
    requires
        (node.0 as int) < memo.len(),
        memo[node.0 as int] is InProgress,
    ensures
        graph.eval_node(facts, mode, fuel, node, memo).state is InProgress,
        graph.eval_node(facts, mode, fuel, node, memo).memo == memo,
        !reading(relation, graph.eval_node(facts, mode, fuel, node, memo).state),
{
}

/// A value node and an `In` aggregator are settled by the context alone: the
/// one is satisfied exactly when its assertion holds within its domains, the
/// other exactly when the value held for its key within its domains is one of
/// its members. No edge has a part in it.
pub proof fn law_terminals<V: ValueNode>(
    graph: GraphModel<V>,
    facts: Seq<Fact<V>>,
    mode: EvaluationMode,
    fuel: nat,
    node: NodeId,
    memo: Seq<NodeState>,
)
    requires
        memo[node.0 as int] is Unvisited,
    ensures
        graph.nodes[node.0 as int].kind matches NodeKind::Value(value) ==> (graph.eval_node(
            facts,
            mode,
            fuel,
            node,
            memo,
        ).state is Satisfied <==> value_holds(
            facts,
            value,
            graph.nodes[node.0 as int].domain_ids,
        )),
        graph.nodes[node.0 as int].kind matches NodeKind::InAggregator(members) ==> (
        graph.eval_node(facts, mode, fuel, node, memo).state is Satisfied <==> member_holds(
            facts,
            members,
            graph.nodes[node.0 as int].domain_ids,
        )),
        graph.nodes[node.0 as int].kind is Value || graph.nodes[node.0 as int].kind is InAggregator
            ==> graph.eval_node(facts, mode, fuel, node, memo).decisive.len() == 0,
{
}

/// Evaluation is a function of the graph, the assertions, the target and the
/// mode: two verdicts on the same four are the same verdict, with the same
/// decisive edges.
pub proof fn law_evaluation_is_deterministic<V: ValueNode>(
    graph: GraphModel<V>,
    facts: Seq<Fact<V>>,
    target: NodeId,
    mode: EvaluationMode,
    first: VerdictModel,
    second: VerdictModel,
)
    requires
        first == graph.verdict(facts, target, mode),
        second == graph.verdict(facts, target, mode),
    ensures
        first.satisfied == second.satisfied,
        first.decisive == second.decisive,
{
}

/// What an evaluation does to the table: it keeps its length, settles nodes
/// that were unvisited and touches no other, so that a node is evaluated at
/// most once.
pub open spec fn settles_only_unvisited(before: Seq<NodeState>, after: Seq<NodeState>) -> bool {
    &&& after.len() == before.len()
    &&& unvisited(after) <= unvisited(before)
    &&& forall|j: int|
        0 <= j < before.len() && !(before[j] is Unvisited) ==> #[trigger] after[j] == before[j]
}

/// The bound on nesting is never reached. With at least as much fuel as there
/// are unvisited nodes, the tally of an aggregator's edges does not depend on
/// the fuel, and it settles only nodes that were unvisited.
pub proof fn law_fuel_suffices_for_edges<V: ValueNode>(
    graph: GraphModel<V>,
    facts: Seq<Fact<V>>,
    mode: EvaluationMode,
    fuel: nat,
    other_fuel: nat,
    n: int,
    count: int,
    memo: Seq<NodeState>,
)
    requires
        graph.wf(),
        0 <= n < graph.nodes.len(),
        0 <= count <= graph.nodes[n].preds.len(),
        memo.len() == graph.nodes.len(),
        unvisited(memo) <= fuel,
        unvisited(memo) <= other_fuel,
    ensures
        graph.eval_edges(facts, mode, fuel, n, count, memo) == graph.eval_edges(
            facts,
            mode,
            other_fuel,
            n,
            count,
            memo,
        ),
        settles_only_unvisited(memo, graph.eval_edges(facts, mode, fuel, n, count, memo).memo),
    decreases fuel, count + 1,
{
    if count > 0 {
        law_fuel_suffices_for_edges(graph, facts, mode, fuel, other_fuel, n, count - 1, memo);
        let before = graph.eval_edges(facts, mode, fuel, n, count - 1, memo);
        let id = graph.nodes[n].preds[count - 1];
        assert(graph.pred_ok(n, count - 1));
        assert(graph.edge_ok(id.0 as int));
        let edge = graph.edges[id.0 as int];
        law_fuel_suffices(graph, facts, mode, fuel, other_fuel, edge.pred, before.memo);
    }
}

/// The bound on nesting is never reached. With at least as much fuel as there
/// are unvisited nodes, the evaluation of a node does not depend on the fuel,
/// and it settles only nodes that were unvisited.
pub proof fn law_fuel_suffices<V: ValueNode>(
    graph: GraphModel<V>,
    facts: Seq<Fact<V>>,
    mode: EvaluationMode,
    fuel: nat,
    other_fuel: nat,
    node: NodeId,
    memo: Seq<NodeState>,
)
    requires
        graph.wf(),
        graph.has_node(node),
        memo.len() == graph.nodes.len(),
        unvisited(memo) <= fuel,
        unvisited(memo) <= other_fuel,
    ensures
        graph.eval_node(facts, mode, fuel, node, memo) == graph.eval_node(
            facts,
            mode,
            other_fuel,
            node,
            memo,
        ),
        settles_only_unvisited(memo, graph.eval_node(facts, mode, fuel, node, memo).memo),
        !(graph.eval_node(facts, mode, fuel, node, memo).state is Unvisited),
        memo[node.0 as int] is Unvisited ==> !(graph.eval_node(
            facts,
            mode,
            fuel,
            node,
            memo,
        ).state is InProgress),
    decreases fuel, 0int,
{
    let n = node.0 as int;
    if memo[n] is Unvisited {
        lemma_unvisited_positive(memo, n);
        lemma_unvisited_update(memo, n, NodeState::Satisfied);
        lemma_unvisited_update(memo, n, NodeState::Unsatisfied);
        lemma_unvisited_update(memo, n, NodeState::InProgress);
        match graph.nodes[n].kind {
            NodeKind::Value(_) => {},
            NodeKind::InAggregator(_) => {},
            _ => {
                let marked = memo.update(n, NodeState::InProgress);
                let count = graph.nodes[n].preds.len() as int;
                law_fuel_suffices_for_edges(
                    graph,
                    facts,
                    mode,
                    (fuel - 1) as nat,
                    (other_fuel - 1) as nat,
                    n,
                    count,
                    marked,
                );
                let tally = graph.eval_edges(facts, mode, (fuel - 1) as nat, n, count, marked);
                lemma_unvisited_update(tally.memo, n, NodeState::Satisfied);
                lemma_unvisited_update(tally.memo, n, NodeState::Unsatisfied);
                assert(tally.memo[n] == marked[n]);
            },
        }
    }
}

/// Whether the `i`-th incoming edge of aggregator `n` is followed.
pub open spec fn edge_followed<V: ValueNode>(
    graph: GraphModel<V>,
    mode: EvaluationMode,
    n: int,
    i: int,
) -> bool {
    follows(
        graph.nodes[n].kind is AllAggregator,
        graph.edges[graph.nodes[n].preds[i].0 as int].strength,
        mode,
    )
}

/// Whether the `i`-th incoming edge of aggregator `n` can oppose it.
pub open spec fn edge_counts<V: ValueNode>(graph: GraphModel<V>, n: int, i: int) -> bool {
    counts(
        graph.nodes[n].kind is AllAggregator,
        graph.edges[graph.nodes[n].preds[i].0 as int].strength,
    )
}

/// What the `i`-th incoming edge of aggregator `n` reads: its predecessor is
/// evaluated on the table that the edges before it left.
pub open spec fn edge_reads<V: ValueNode>(
    graph: GraphModel<V>,
    facts: Seq<Fact<V>>,
    mode: EvaluationMode,
    fuel: nat,
    n: int,
    i: int,
    memo: Seq<NodeState>,
) -> bool {
    let edge = graph.edges[graph.nodes[n].preds[i].0 as int];
    reading(
        edge.relation,
        graph.eval_node(
            facts,
            mode,
            fuel,
            edge.pred,
            graph.eval_edges(facts, mode, fuel, n, i, memo).memo,
        ).state,
    )
}

/// The tally sorts the edges by what they read. No edge opposes exactly when
/// every edge that can oppose reads satisfied; an edge supports exactly when
/// an edge that is followed reads satisfied.
pub proof fn law_tally_sorts_readings<V: ValueNode>(
    graph: GraphModel<V>,
    facts: Seq<Fact<V>>,
    mode: EvaluationMode,
    fuel: nat,
    n: int,
    count: int,
    memo: Seq<NodeState>,
)
    requires
        0 <= count,
    ensures
        graph.eval_edges(facts, mode, fuel, n, count, memo).opposing.len() == 0 <==> forall|
            i: int,
        |
            0 <= i < count && edge_counts(graph, n, i) ==> #[trigger] edge_reads(
                graph,
                facts,
                mode,
                fuel,
                n,
                i,
                memo,
            ),
        graph.eval_edges(facts, mode, fuel, n, count, memo).supporting.len() > 0 <==> exists|
            i: int,
        |
            0 <= i < count && edge_followed(graph, mode, n, i) && #[trigger] edge_reads(
                graph,
                facts,
                mode,
                fuel,
                n,
                i,
                memo,
            ),
    decreases count,
{
    if count > 0 {
        law_tally_sorts_readings(graph, facts, mode, fuel, n, count - 1, memo);
        let before = graph.eval_edges(facts, mode, fuel, n, count - 1, memo);
        let tally = graph.eval_edges(facts, mode, fuel, n, count, memo);
        let last = count - 1;
        let followed = edge_followed(graph, mode, n, last);
        let reads = edge_reads(graph, facts, mode, fuel, n, last, memo);
        if followed && reads {
            assert(tally.supporting.len() > 0);
            assert(tally.opposing == before.opposing);
        } else if followed && edge_counts(graph, n, last) {
            assert(tally.opposing.len() > 0);
            assert(tally.supporting == before.supporting);
        } else {
            assert(tally.opposing == before.opposing);
            assert(tally.supporting == before.supporting);
        }
        if tally.supporting.len() > 0 {
            if before.supporting.len() > 0 {
                let i = choose|i: int|
                    0 <= i < count - 1 && edge_followed(graph, mode, n, i) && #[trigger] edge_reads(
                        graph,
                        facts,
                        mode,
                        fuel,
                        n,
                        i,
                        memo,
                    );
                assert(0 <= i < count && edge_followed(graph, mode, n, i) && edge_reads(
                    graph,
                    facts,
                    mode,
                    fuel,
                    n,
                    i,
                    memo,
                ));
            } else {
                assert(followed && reads);
            }
        }
    }
}

/// An `All` aggregator is satisfied exactly when every strong incoming edge
/// reads satisfied, an `Any` aggregator exactly when an incoming edge does.
pub proof fn law_aggregators<V: ValueNode>(
    graph: GraphModel<V>,
    facts: Seq<Fact<V>>,
    mode: EvaluationMode,
    fuel: nat,
    node: NodeId,
    memo: Seq<NodeState>,
)
    requires
        fuel > 0,
        memo[node.0 as int] is Unvisited,
        graph.nodes[node.0 as int].kind is AllAggregator || graph.nodes[node.0 as int].kind is AnyAggregator,
    ensures
        ({
            let n = node.0 as int;
            let inner = (fuel - 1) as nat;
            let marked = memo.update(n, NodeState::InProgress);
            let satisfied = graph.eval_node(facts, mode, fuel, node, memo).state is Satisfied;
            &&& graph.nodes[n].kind is AllAggregator ==> (satisfied <==> forall|i: int|
                0 <= i < graph.nodes[n].preds.len() && edge_counts(graph, n, i)
                    ==> #[trigger] edge_reads(graph, facts, mode, inner, n, i, marked))
            &&& graph.nodes[n].kind is AnyAggregator ==> (satisfied <==> exists|i: int|
                0 <= i < graph.nodes[n].preds.len() && #[trigger] edge_reads(
                    graph,
                    facts,
                    mode,
                    inner,
                    n,
                    i,
                    marked,
                ))
        }),
{
    let n = node.0 as int;
    law_tally_sorts_readings(
        graph,
        facts,
        mode,
        (fuel - 1) as nat,
        n,
        graph.nodes[n].preds.len() as int,
        memo.update(n, NodeState::InProgress),
    );
}

/// Linking the members of an aggregator keeps a well-formed graph
/// well-formed, adds no node, and adds at most one edge for each member.
pub proof fn lemma_link_wf<V: ValueNode>(
    graph: GraphModel<V>,
    members: Seq<Member>,
    target: NodeId,
    count: int,
)
    requires
        graph.wf(),
        0 <= count <= members.len(),
        graph.edges.len() + count <= usize::MAX,
        graph.has_node(target),
        forall|i: int| 0 <= i < members.len() ==> graph.has_node(#[trigger] members[i].node),
        members_agree(members),
        graph.linked_from(members, target, 0),
    ensures
        graph.link(members, target, count).wf(),
        graph.link(members, target, count).nodes.len() == graph.nodes.len(),
        graph.link(members, target, count).edges.len() <= graph.edges.len() + count,
        graph.link(members, target, count).linked_from(members, target, count),
    decreases count,
{
    if count > 0 {
        lemma_link_wf(graph, members, target, count - 1);
        let before = graph.link(members, target, count - 1);
        let member = members[count - 1];
        assert(before.has_node(member.node));
        before.lemma_link_step(members, target, count - 1);
        lemma_make_edge_wf(before, member.node, target, member.strength, member.relation);
    }
}

/// Making an aggregator keeps a well-formed graph well-formed.
pub proof fn lemma_make_aggregator_wf<V: ValueNode>(
    graph: GraphModel<V>,
    kind: NodeKind<V>,
    members: Seq<Member>,
    info: Option<Seq<char>>,
    metadata: Option<Arc<dyn Metadata>>,
    domains: Seq<Seq<char>>,
)
    requires
        graph.wf(),
        kind is AllAggregator || kind is AnyAggregator,
        graph.nodes.len() < usize::MAX,
        graph.edges.len() + members.len() <= usize::MAX,
    ensures
        graph.make_aggregator(kind, members, info, metadata, domains).0.wf(),
{
    let made = graph.make_aggregator(kind, members, info, metadata, domains);
    if made.1 is Ok {
        let domain_ids = graph.resolve(domains)->0;
        lemma_resolved_domains(graph, domains);
        graph.lemma_add_node_wf(kind, domain_ids, info, metadata);
        let start = graph.add_node(kind, domain_ids, info, metadata);
        let target = NodeId(graph.nodes.len() as usize);
        assert forall|e: int|
            0 <= e < start.edges.len() && (#[trigger] start.edges[e]).succ == target implies false by {
            assert(graph.edge_ok(e));
        }
        assert forall|i: int| 0 <= i < members.len() implies start.has_node(
            #[trigger] members[i].node,
        ) by {
            assert(graph.has_node(members[i].node));
        }
        lemma_link_wf(start, members, target, members.len() as int);
    }
}

/// Making an `In` aggregator keeps a well-formed graph well-formed.
pub proof fn lemma_make_in_aggregator_wf<V: ValueNode>(
    graph: GraphModel<V>,
    values: Seq<V>,
    info: Option<Seq<char>>,
    metadata: Option<Arc<dyn Metadata>>,
    domains: Seq<Seq<char>>,
)
    requires
        graph.wf(),
        graph.nodes.len() < usize::MAX,
    ensures
        graph.make_in_aggregator(values, info, metadata, domains).0.wf(),
{
    let made = graph.make_in_aggregator(values, info, metadata, domains);
    if made.1 is Ok {
        let members = distinct(values);
        lemma_distinct(values);
        lemma_resolved_domains(graph, domains);
        assert forall|i: int| 0 <= i < members.len() implies (#[trigger] members[i]).key_of()
            == members[0].key_of() by {
            assert(members.contains(members[i]));
            assert(values.contains(members[i]));
        }
        graph.lemma_add_node_wf(
            NodeKind::InAggregator(members),
            graph.resolve(domains)->0,
            info,
            metadata,
        );
    }
}

/// A construction step that fails leaves the graph as it was.
pub proof fn law_failure_changes_nothing<V: ValueNode>(
    graph: GraphModel<V>,
    value: NodeValue<V>,
    values: Seq<V>,
    kind: NodeKind<V>,
    members: Seq<Member>,
    pred: NodeId,
    succ: NodeId,
    strength: Strength,
    relation: Relation,
    info: Option<Seq<char>>,
    metadata: Option<Arc<dyn Metadata>>,
    domains: Seq<Seq<char>>,
)
    ensures
        graph.make_value_node(value, info, domains, metadata).1 is Err ==> graph.make_value_node(
            value,
            info,
            domains,
            metadata,
        ).0 == graph,
        graph.make_edge(pred, succ, strength, relation).1 is Err ==> graph.make_edge(
            pred,
            succ,
            strength,
            relation,
        ).0 == graph,
        graph.make_aggregator(kind, members, info, metadata, domains).1 is Err
            ==> graph.make_aggregator(kind, members, info, metadata, domains).0 == graph,
        graph.make_in_aggregator(values, info, metadata, domains).1 is Err
            ==> graph.make_in_aggregator(values, info, metadata, domains).0 == graph,
{
}

} // verus!
