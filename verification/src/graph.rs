//! The frozen graph.
use std::sync::Arc;

use vstd::prelude::*;

use crate::context::FactContext;
use crate::dense_map::DenseMap;
use crate::error::GraphError;
use crate::evaluation::{
    fresh, lemma_unvisited_fresh, lemma_unvisited_positive,
    lemma_unvisited_update, member_holds, reading, settled, unvisited, value_holds,
    EvaluationMode, NodeState, VerdictModel,
};
use crate::model::{graph_model, GraphModel};
use crate::types::{
    holds_value, DomainId, DomainInfo, Edge, EdgeId, Metadata, Node, NodeId, NodeType, NodeValue,
    Relation, Strength, ValueNode,
};

verus! {

/// The node among `nodes` that asserts `value`, found through the list of the
/// value nodes.
pub(crate) fn find_value_node<V: ValueNode>(
    nodes: &DenseMap<NodeId, Node<V>>,
    value_map: &Vec<NodeId>,
    value: &NodeValue<V>,
    Ghost(model): Ghost<GraphModel<V>>,
) -> (found: Option<NodeId>)
    requires
        model.wf(),
        model.nodes == nodes@.map_values(|node: Node<V>| node@),
        model.lists_values(value_map@),
    ensures
        found == model.value_node(*value),
{
    let mut i: usize = 0;
    while i < value_map.len()
        invariant
            model.wf(),
            model.nodes == nodes@.map_values(|node: Node<V>| node@),
            model.lists_values(value_map@),
            i <= value_map@.len(),
            forall|j: int| 0 <= j < i ==> !model.asserts((#[trigger] value_map@[j]).0 as int, *value),
        decreases value_map@.len() - i,
    {
        let id = value_map[i];
        if let Some(node) = nodes.get(id) {
            if let NodeType::Value(held) = &node.node_type {
                if held.same_as(value) {
                    proof {
                        assert(model.asserts(id.0 as int, *value));
                        model.lemma_value_node(id.0 as int, *value);
                    }
                    return Some(id);
                }
            }
        }
        i = i + 1;
    }
    proof {
        if model.value_node(*value) is Some {
            model.lemma_found();
            let n = (model.value_node(*value)->0).0 as int;
            assert(model.asserts(n, *value));
            assert(model.nodes[n].kind is Value);
            let j = choose|j: int|
                0 <= j < value_map@.len() && value_map@[j] == NodeId(n as usize);
            assert(!model.asserts(value_map@[j].0 as int, *value));
        }
    }
    None
}

/// The verdict of an evaluation.
#[derive(Debug)]
pub struct Verdict {
    /// Whether the target is satisfied.
    pub satisfied: bool,
    /// The incoming edges of the target that decided it, in the order of the
    /// target's incoming edges: the edges that support a satisfied target,
    /// the edges that oppose an unsatisfied one.
    pub decisive: Vec<EdgeId>,
}

impl View for Verdict {
    type V = VerdictModel;

    open spec fn view(&self) -> VerdictModel {
        VerdictModel { satisfied: self.satisfied, decisive: self.decisive@ }
    }
}

/// The state that records a verdict.
fn settle(satisfied: bool) -> (state: NodeState)
    ensures
        state == settled(satisfied),
{
    if satisfied {
        NodeState::Satisfied
    } else {
        NodeState::Unsatisfied
    }
}

/// What an edge of the given relation reads from the state of its predecessor.
fn read_edge(relation: Relation, state: NodeState) -> (satisfied: bool)
    ensures
        satisfied == reading(relation, state),
{
    match state {
        NodeState::Satisfied => relation == Relation::Positive,
        NodeState::Unsatisfied => relation == Relation::Negative,
        _ => false,
    }
}

/// Whether the assertion of a value node holds in the context, within the
/// node's domains.
fn check_value<V: ValueNode>(
    context: &FactContext<V>,
    value: &NodeValue<V>,
    domains: &Vec<DomainId>,
) -> (holds: bool)
    ensures
        holds == value_holds(context@, *value, domains@),
{
    match value {
        NodeValue::Value(held) => match context.truth_of(held, domains) {
            Some(truth) => truth,
            None => false,
        },
        NodeValue::Key(key) => match context.fact_of_key(key, domains) {
            Some(fact) => fact.truth,
            None => false,
        },
    }
}

/// Whether the value that the context holds for the key of `members`, within
/// the node's domains, is one of them.
fn check_members<V: ValueNode>(
    context: &FactContext<V>,
    members: &Vec<V>,
    domains: &Vec<DomainId>,
) -> (holds: bool)
    ensures
        holds == member_holds(context@, members@, domains@),
{
    if members.len() == 0 {
        return false;
    }
    let key = members[0].get_key();
    match context.fact_of_key(&key, domains) {
        Some(fact) => holds_value(members, &fact.value),
        None => false,
    }
}

/// A graph that no longer changes: what the builder held when it was built.
pub struct ConstraintGraph<'a, V: ValueNode> {
    domain: DenseMap<DomainId, DomainInfo<'a>>,
    nodes: DenseMap<NodeId, Node<V>>,
    edges: DenseMap<EdgeId, Edge>,
    value_map: Vec<NodeId>,
    node_info: DenseMap<NodeId, Option<&'static str>>,
    node_metadata: DenseMap<NodeId, Option<Arc<dyn Metadata>>>,
}

impl<'a, V: ValueNode> View for ConstraintGraph<'a, V> {
    type V = GraphModel<V>;

    closed spec fn view(&self) -> GraphModel<V> {
        graph_model(
            self.domain@,
            self.nodes@,
            self.edges@,
            self.node_info@,
            self.node_metadata@,
        )
    }
}

impl<'a, V: ValueNode> ConstraintGraph<'a, V> {
    /// The graph's invariant: it is well-formed, and its list of value nodes is
    /// complete.
    pub closed spec fn wf(&self) -> bool {
        &&& self@.wf()
        &&& self@.lists_values(self.value_map@)
    }

    /// The graph of a well-formed value is well-formed.
    pub proof fn lemma_wf(&self)
        requires
            self.wf(),
        ensures
            self@.wf(),
    {
    }

    /// The graph that holds the given parts.
    pub(crate) fn from_parts(
        domain: DenseMap<DomainId, DomainInfo<'a>>,
        nodes: DenseMap<NodeId, Node<V>>,
        edges: DenseMap<EdgeId, Edge>,
        value_map: Vec<NodeId>,
        node_info: DenseMap<NodeId, Option<&'static str>>,
        node_metadata: DenseMap<NodeId, Option<Arc<dyn Metadata>>>,
    ) -> (graph: Self)
        requires
            graph_model::<V>(domain@, nodes@, edges@, node_info@, node_metadata@).wf(),
            graph_model::<V>(domain@, nodes@, edges@, node_info@, node_metadata@).lists_values(
                value_map@,
            ),
        ensures
            graph.wf(),
            graph@ == graph_model::<V>(domain@, nodes@, edges@, node_info@, node_metadata@),
    {
        ConstraintGraph { domain, nodes, edges, value_map, node_info, node_metadata }
    }

    /// The number of nodes.
    pub fn node_count(&self) -> (count: usize)
        ensures
            count == self@.nodes.len(),
    {
        self.nodes.len()
    }

    /// The number of edges.
    pub fn edge_count(&self) -> (count: usize)
        ensures
            count == self@.edges.len(),
    {
        self.edges.len()
    }

    /// The node that asserts `value`, `None` where the graph has none.
    pub fn value_node(&self, value: &NodeValue<V>) -> (found: Option<NodeId>)
        requires
            self.wf(),
        ensures
            found == self@.value_node(*value),
    {
        find_value_node(&self.nodes, &self.value_map, value, Ghost(self@))
    }

    /// The number of registered domains.
    pub fn domain_count(&self) -> (count: usize)
        ensures
            count == self@.domains.len(),
    {
        self.domain.len()
    }

    /// The node with the given id, `None` where the id addresses none.
    pub fn node(&self, id: NodeId) -> (node: Option<&Node<V>>)
        ensures
            self@.has_node(id) ==> (node matches Some(found) && found@
                == self@.nodes[id.0 as int]),
            !self@.has_node(id) ==> node is None,
    {
        self.nodes.get(id)
    }

    /// The domain with the given id, `None` where the id addresses none.
    pub fn domain(&self, id: DomainId) -> (domain: Option<&DomainInfo<'a>>)
        ensures
            (id.0 as int) < self@.domains.len() ==> (domain matches Some(found) && found@
                == self@.domains[id.0 as int]),
            (id.0 as int) >= self@.domains.len() ==> domain is None,
    {
        self.domain.get(id)
    }

    /// The attachment given to the node when it was made, `None` where it has
    /// none or the id addresses no node.
    pub fn node_metadata(&self, id: NodeId) -> (metadata: Option<&Arc<dyn Metadata>>)
        ensures
            self@.has_node(id) && self@.node_metadata.len() == self@.nodes.len() ==> (
            match self@.node_metadata[id.0 as int] {
                Some(held) => metadata == Some(&held),
                None => metadata is None,
            }),
            !self@.has_node(id) ==> metadata is None,
    {
        let count = self.nodes.len();
        if id.0 >= count {
            return None;
        }
        match self.node_metadata.get(id) {
            Some(Some(shared)) => Some(shared),
            _ => None,
        }
    }

    /// The edge with the given id, `None` where the id addresses none.
    pub fn edge(&self, id: EdgeId) -> (edge: Option<Edge>)
        ensures
            (id.0 as int) < self@.edges.len() ==> edge == Some(self@.edges[id.0 as int]),
            (id.0 as int) >= self@.edges.len() ==> edge is None,
    {
        match self.edges.get(id) {
            Some(edge) => Some(*edge),
            None => None,
        }
    }

    /// The label given to the node when it was made, `None` where it has none
    /// or the id addresses no node.
    pub fn node_info(&self, id: NodeId) -> (info: Option<&'static str>)
        ensures
            self@.has_node(id) && self@.node_info.len() == self@.nodes.len()
                ==> crate::model::info_view(info) == self@.node_info[id.0 as int],
            !self@.has_node(id) ==> info is None,
    {
        let count = self.nodes.len();
        if id.0 >= count {
            return None;
        }
        match self.node_info.get(id) {
            Some(info) => *info,
            None => None,
        }
    }

    /// Evaluates `node` on the table `memo` and leaves in the table what the
    /// evaluation settled.
    fn eval_node(
        &self,
        context: &FactContext<V>,
        mode: EvaluationMode,
        node: NodeId,
        memo: &mut Vec<NodeState>,
        Ghost(fuel): Ghost<nat>,
    ) -> (result: (NodeState, Vec<EdgeId>))
        requires
            self.wf(),
            self@.has_node(node),
            old(memo)@.len() == self@.nodes.len(),
            unvisited(old(memo)@) <= fuel,
        ensures
            final(memo)@ == self@.eval_node(context@, mode, fuel, node, old(memo)@).memo,
            result.0 == self@.eval_node(context@, mode, fuel, node, old(memo)@).state,
            result.1@ == self@.eval_node(context@, mode, fuel, node, old(memo)@).decisive,
            final(memo)@.len() == old(memo)@.len(),
            unvisited(final(memo)@) <= unvisited(old(memo)@),
            forall|j: int|
                0 <= j < old(memo)@.len() && !(old(memo)@[j] is Unvisited) ==> final(memo)@[j]
                    == old(memo)@[j],
        decreases fuel,
    {
        let ghost model = self@;
        let ghost facts = context@;
        let ghost entry = memo@;
        let ghost n = node.0 as int;
        let state = memo[node.0];
        match state {
            NodeState::Unvisited => {},
            _ => {
                return (state, Vec::new());
            },
        }
        let current = self.nodes.index(node);
        proof {
            lemma_unvisited_update(entry, n, NodeState::Satisfied);
            lemma_unvisited_update(entry, n, NodeState::Unsatisfied);
            lemma_unvisited_update(entry, n, NodeState::InProgress);
            lemma_unvisited_positive(entry, n);
        }
        match &current.node_type {
            NodeType::Value(value) => {
                let state = settle(check_value(context, value, &current.domain_ids));
                memo.set(node.0, state);
                (state, Vec::new())
            },
            NodeType::InAggregator(members) => {
                let state = settle(check_members(context, members, &current.domain_ids));
                memo.set(node.0, state);
                (state, Vec::new())
            },
            kind => {
                let all = match kind {
                    NodeType::AllAggregator => true,
                    _ => false,
                };
                memo.set(node.0, NodeState::InProgress);
                let ghost marked = memo@;
                let ghost inner = (fuel - 1) as nat;
                let mut supporting: Vec<EdgeId> = Vec::new();
                let mut opposing: Vec<EdgeId> = Vec::new();
                let mut i: usize = 0;
                while i < current.preds.len()
                    invariant
                        self.wf(),
                        model == self@,
                        facts == context@,
                        n == node.0 as int,
                        0 <= n < model.nodes.len(),
                        fuel > 0,
                        inner == (fuel - 1) as nat,
                        *current == self.nodes@[n],
                        all == (model.nodes[n].kind is AllAggregator),
                        i <= current.preds@.len(),
                        marked.len() == model.nodes.len(),
                        marked[n] is InProgress,
                        unvisited(marked) <= inner,
                        memo@.len() == marked.len(),
                        unvisited(memo@) <= unvisited(marked),
                        forall|j: int|
                            0 <= j < marked.len() && !(marked[j] is Unvisited) ==> memo@[j]
                                == marked[j],
                        memo@ == model.eval_edges(facts, mode, inner, n, i as int, marked).memo,
                        supporting@ == model.eval_edges(
                            facts,
                            mode,
                            inner,
                            n,
                            i as int,
                            marked,
                        ).supporting,
                        opposing@ == model.eval_edges(
                            facts,
                            mode,
                            inner,
                            n,
                            i as int,
                            marked,
                        ).opposing,
                    decreases current.preds@.len() - i,
                {
                    let edge_id = current.preds[i];
                    proof {
                        assert(model.pred_ok(n, i as int));
                        assert(model.edge_ok(edge_id.0 as int));
                    }
                    let edge = self.edges.index(edge_id);
                    let followed = !all || edge.strength == Strength::Strong || mode
                        == EvaluationMode::BestEffort;
                    if followed {
                        let (pred_state, _) = self.eval_node(
                            context,
                            mode,
                            edge.pred,
                            memo,
                            Ghost(inner),
                        );
                        if read_edge(edge.relation, pred_state) {
                            supporting.push(edge_id);
                        } else if !all || edge.strength == Strength::Strong {
                            opposing.push(edge_id);
                        }
                    }
                    i = i + 1;
                }
                let satisfied = if all {
                    opposing.len() == 0
                } else {
                    supporting.len() > 0
                };
                let state = settle(satisfied);
                proof {
                    lemma_unvisited_update(memo@, n, state);
                    assert forall|j: int|
                        0 <= j < entry.len() && !(entry[j] is Unvisited) implies memo@.update(
                        n,
                        state,
                    )[j] == entry[j] by {
                        assert(marked[j] == entry[j]);
                    }
                }
                memo.set(node.0, state);
                if satisfied {
                    (state, supporting)
                } else {
                    (state, opposing)
                }
            },
        }
    }

    /// Evaluates `target` against the assertions of `context`.
    ///
    /// A value node is satisfied when the latest assertion about its value in
    /// one of the node's domains says that it holds. An `In` aggregator is
    /// satisfied when the latest assertion about a value of its key, in one of
    /// the node's domains, is about one of its members. An `All` aggregator is
    /// satisfied when no strong incoming edge reads unsatisfied, an `Any`
    /// aggregator when an incoming edge reads satisfied. A weak edge into an
    /// `All` aggregator never blocks: in strict mode it is not followed, in
    /// best-effort mode it is, and supports the verdict where it reads
    /// satisfied. Every node is evaluated once; a node met again while it is
    /// being evaluated closes a cycle, and the edge that met it reads
    /// unsatisfied.
    ///
    /// A target that addresses no node is the one error, `NodeNotFound`.
    pub fn evaluate(
        &self,
        context: &FactContext<V>,
        target: NodeId,
        mode: EvaluationMode,
    ) -> (result: Result<Verdict, GraphError>)
        requires
            self.wf(),
        ensures
            !self@.has_node(target) ==> result matches Err(GraphError::NodeNotFound),
            self@.has_node(target) ==> (result matches Ok(verdict) && verdict@
                == self@.verdict(context@, target, mode)),
    {
        if !self.nodes.contains_key(target) {
            return Err(GraphError::NodeNotFound);
        }
        let count = self.nodes.len();
        let mut memo: Vec<NodeState> = Vec::new();
        let mut i: usize = 0;
        while i < count
            invariant
                i <= count,
                memo@.len() == i,
                forall|j: int| 0 <= j < i ==> memo@[j] == NodeState::Unvisited,
            decreases count - i,
        {
            memo.push(NodeState::Unvisited);
            i = i + 1;
        }
        proof {
            assert(memo@ =~= fresh(count as nat));
            lemma_unvisited_fresh(count as nat);
        }
        let (state, decisive) = self.eval_node(context, mode, target, &mut memo, Ghost(count as nat));
        let satisfied = match state {
            NodeState::Satisfied => true,
            _ => false,
        };
        Ok(Verdict { satisfied, decisive })
    }
}

} // verus!
